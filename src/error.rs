//! The failures that a call into the binding can report to the host.
use crate::backend::{backend_error_text, error_text};
use vstd::prelude::*;

verus! {

/// Why a call failed. Every failure is reported to the caller of that one
/// call; no handle is produced and the handles it was given are unchanged.
#[derive(Debug)]
pub enum BindingError {
    /// A host value could not be turned into the value the call needs.
    TypeConversion,
    /// A dimension list is malformed, or its element count is too large.
    Shape,
    /// A dtype name that the registry does not know.
    InvalidDtype { name: String },
    /// The backend refused the operation.
    Backend { details: String },
    /// An operand of a kind that no operation accepts.
    InvariantViolation,
}

/// Turns a backend failure into the binding's error, keeping the backend's
/// description of it.
pub fn wrap_err(err: candle_core::Error) -> (r: BindingError)
    ensures
        r matches BindingError::Backend { details } && details@ == error_text(err),
{
    BindingError::Backend { details: backend_error_text(&err) }
}

} // verus!
