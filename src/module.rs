//! What the host loads: the factories, the tensor constructor and the
//! coercion of a host dtype argument.
use crate::backend::{backend_ones, backend_scalar_i64, backend_to_dtype, backend_zeros, tensor_dims};
use crate::dtype::{lemma_parse_inverts_name, DtypeTag};
use crate::error::{wrap_err, BindingError};
use crate::shape::{checked_shape_size, lemma_empty_fits, shape_fits};
use crate::tensor::{tag_of, HostValue, TensorHandle};
use vstd::prelude::*;

verus! {

/// A host value given where a dtype is expected.
pub enum DtypeArg {
    /// A dtype handle.
    Tag(DtypeTag),
    /// A dtype name.
    Name(String),
    /// No value: the default dtype.
    Nil,
    /// Any other host value.
    Other,
}

impl DtypeArg {
    /// The tag that the argument stands for, if any.
    pub open spec fn resolved(&self) -> Option<DtypeTag> {
        match self {
            DtypeArg::Tag(t) => Some(*t),
            DtypeArg::Name(s) => DtypeTag::parse_spec(s@),
            DtypeArg::Nil => Some(DtypeTag::F64),
            DtypeArg::Other => None,
        }
    }

    /// The error that an argument which stands for no tag is refused with.
    pub open spec fn refusal(&self, e: BindingError) -> bool {
        match self {
            DtypeArg::Name(s) => e matches BindingError::InvalidDtype { name } && name@ == s@,
            _ => e is TypeConversion,
        }
    }
}

/// The tag that a host dtype argument stands for. An unknown name is refused
/// with `InvalidDtype`, a value of another kind with `TypeConversion`.
pub fn coerce_dtype(arg: &DtypeArg) -> (r: Result<DtypeTag, BindingError>)
    ensures
        arg.resolved() matches Some(t) ==> r == Ok::<DtypeTag, BindingError>(t),
        arg.resolved() is None ==> (r matches Err(e) && arg.refusal(e)),
{
    match arg {
        DtypeArg::Tag(t) => Ok(*t),
        DtypeArg::Name(s) => DtypeTag::parse(s.as_str()),
        DtypeArg::Nil => Ok(DtypeTag::default()),
        DtypeArg::Other => Err(BindingError::TypeConversion),
    }
}

/// What a fill factory returns for `shape` and `dtype`: for a dtype argument
/// that stands for a tag and dimensions that fit, a tensor of exactly those
/// dimensions and of that dtype; otherwise the refusal of the argument, or
/// `Shape`.
pub open spec fn fill_result(shape: Seq<usize>, dtype: &DtypeArg, r: Result<TensorHandle, BindingError>) -> bool {
    &&& dtype.resolved() is None ==> (r matches Err(e) && dtype.refusal(e))
    &&& dtype.resolved() is Some && !shape_fits(shape) ==> (r matches Err(BindingError::Shape))
    &&& r matches Ok(h) ==> h.shape_view() == shape && Some(h.dtype_view()) == dtype.resolved()
    &&& dtype.resolved() is Some && shape_fits(shape) ==> r is Ok
}

/// A tensor of the dimensions `shape`, every element one.
pub fn ones(shape: Vec<usize>, dtype: DtypeArg) -> (r: Result<TensorHandle, BindingError>)
    ensures
        fill_result(shape@, &dtype, r),
{
    let tag = coerce_dtype(&dtype)?;
    if checked_shape_size(&shape).is_none() {
        return Err(BindingError::Shape);
    }
    proof {
        lemma_parse_inverts_name(tag.name_spec(), tag);
    }
    match backend_ones(&shape, tag.to_backend()) {
        Ok(t) => Ok(TensorHandle::from_parts(t)),
        Err(e) => Err(wrap_err(e)),
    }
}

/// A tensor of the dimensions `shape`, every element zero.
pub fn zeros(shape: Vec<usize>, dtype: DtypeArg) -> (r: Result<TensorHandle, BindingError>)
    ensures
        fill_result(shape@, &dtype, r),
{
    let tag = coerce_dtype(&dtype)?;
    if checked_shape_size(&shape).is_none() {
        return Err(BindingError::Shape);
    }
    proof {
        lemma_parse_inverts_name(tag.name_spec(), tag);
    }
    match backend_zeros(&shape, tag.to_backend()) {
        Ok(t) => Ok(TensorHandle::from_parts(t)),
        Err(e) => Err(wrap_err(e)),
    }
}

/// The tensor that a host value stands for. An integer from 0 to `u32::MAX`
/// becomes a `u32` tensor of no dimensions; an integer outside that range,
/// which `u32` cannot hold, is refused with `TypeConversion`. A number, a list
/// of numbers or a tensor is taken as the boundary built it. Any other value
/// is refused with `TypeConversion`.
pub fn new_tensor(v: HostValue) -> (r: Result<TensorHandle, BindingError>)
    ensures
        match v {
            HostValue::Integer(n) => if 0 <= n <= u32::MAX {
                r matches Ok(h) && h.shape_view() == Seq::<usize>::empty() && h.dtype_view()
                    == DtypeTag::U32
            } else {
                r matches Err(BindingError::TypeConversion)
            },
            HostValue::Number(h) => r == Ok::<TensorHandle, BindingError>(h),
            HostValue::Sequence(h) => r == Ok::<TensorHandle, BindingError>(h),
            HostValue::Tensor(h) => r == Ok::<TensorHandle, BindingError>(h),
            HostValue::Other => r matches Err(BindingError::TypeConversion),
        },
{
    match v {
        HostValue::Integer(n) => {
            if n < 0 || n > u32::MAX as i64 {
                return Err(BindingError::TypeConversion);
            }
            let s = backend_scalar_i64(n).unwrap();
            proof {
                lemma_parse_inverts_name(DtypeTag::U32.name_spec(), DtypeTag::U32);
                lemma_empty_fits(tensor_dims(s));
            }
            match backend_to_dtype(&s, DtypeTag::U32.to_backend()) {
                Ok(t) => {
                    assert(tag_of(t) == Some(DtypeTag::U32));
                    Ok(TensorHandle::from_parts(t))
                },
                Err(e) => Err(wrap_err(e)),
            }
        },
        HostValue::Number(h) => Ok(h),
        HostValue::Sequence(h) => Ok(h),
        HostValue::Tensor(h) => Ok(h),
        HostValue::Other => Err(BindingError::TypeConversion),
    }
}

} // verus!
