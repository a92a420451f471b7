//! A binding layer that exposes tensors of the candle backend to a
//! scripting host: a registry of element types, the coercion of host values,
//! and a tensor handle whose operations each give a new handle or an error.
pub mod backend;
pub mod dtype;
pub mod error;
pub mod module;
pub mod shape;
pub mod tensor;

pub use dtype::DtypeTag;
pub use error::{wrap_err, BindingError};
pub use module::{coerce_dtype, new_tensor, ones, zeros, DtypeArg};
pub use shape::checked_shape_size;
pub use tensor::{BinaryOp, HostValue, TensorHandle};
