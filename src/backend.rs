//! The tensor backend (candle) as this library sees it: its types, names for
//! what its queries return, and one trusted wrapper per backend function used.
use crate::dtype::DtypeTag;
use crate::shape::{shape_fits, shape_size};
use candle_core::{DType, Device, Tensor};
use std::str::FromStr;
use vstd::prelude::*;

verus! {

#[verifier::external_type_specification]
#[verifier::external_body]
pub struct ExTensor(candle_core::Tensor);

#[verifier::external_type_specification]
#[verifier::external_body]
pub struct ExDType(candle_core::DType);

#[verifier::external_type_specification]
#[verifier::external_body]
pub struct ExError(candle_core::Error);

/// The dimension sizes of a tensor, outermost first (`Tensor::dims`).
pub uninterp spec fn tensor_dims(t: candle_core::Tensor) -> Seq<usize>;

/// The element type of a tensor (`Tensor::dtype`).
pub uninterp spec fn tensor_dtype(t: candle_core::Tensor) -> candle_core::DType;

/// The backend's name of an element type (`DType::as_str`).
pub uninterp spec fn dtype_name(d: candle_core::DType) -> Seq<char>;

/// The `Debug` text of a backend error. The error keeps what it reports,
/// backtrace included, from its creation on.
pub uninterp spec fn error_text(e: candle_core::Error) -> Seq<char>;

/// Whether a tensor's elements lie in row-major order
/// (`Tensor::is_contiguous`).
pub uninterp spec fn tensor_contiguous(t: candle_core::Tensor) -> bool;

/// A backend floating-point dtype of the registry: the elementwise kernels of
/// these dtypes cannot overflow or divide by zero in a way that panics.
pub open spec fn float_dtype(d: candle_core::DType) -> bool {
    let n = dtype_name(d);
    n == seq!['b', 'f', '1', '6'] || n == seq!['f', '1', '6'] || n == seq!['f', '3', '2'] || n
        == seq!['f', '6', '4']
}

/// A dtype that the backend's CPU matrix product accepts.
pub open spec fn matmul_dtype(d: candle_core::DType) -> bool {
    let n = dtype_name(d);
    n == seq!['f', '1', '6'] || n == seq!['f', '3', '2'] || n == seq!['f', '6', '4']
}

/// The dtype that casts always start from in the backend: one of the
/// registry's, or the backend's `i64`.
pub open spec fn castable(d: candle_core::DType) -> bool {
    exposed(d) || dtype_name(d) == seq!['i', '6', '4']
}

/// A backend dtype that has a tag in the registry.
pub open spec fn exposed(d: candle_core::DType) -> bool {
    DtypeTag::parse_spec(dtype_name(d)) is Some
}

/// The names that `DType::from_str` accepts.
pub open spec fn is_backend_dtype_name(s: Seq<char>) -> bool {
    s == seq!['u', '8'] || s == seq!['u', '3', '2'] || s == seq!['i', '1', '6']
        || s == seq!['i', '3', '2'] || s == seq!['i', '6', '4'] || s == seq!['b', 'f', '1', '6']
        || s == seq!['f', '1', '6'] || s == seq!['f', '3', '2'] || s == seq!['f', '6', '4']
        || s == seq!['f', '8', 'e', '4', 'm', '3'] || s == seq!['f', '6', 'e', '2', 'm', '3']
        || s == seq!['f', '6', 'e', '3', 'm', '2'] || s == seq!['f', '4']
        || s == seq!['f', '8', 'e', '8', 'm', '0']
}

/// The dimensions of a matrix product of tensors with dimensions `a` and `b`:
/// the batch dimensions of `a`, the rows of `a` and the columns of `b`.
pub open spec fn matmul_dims(a: Seq<usize>, b: Seq<usize>) -> Seq<usize>
    recommends
        a.len() >= 2,
        b.len() >= 2,
{
    a.take(a.len() - 2).push(a[a.len() - 2]).push(b[b.len() - 1])
}

/// Relies on `Clone` for tensors: the copy shares the source tensor's storage and
/// layout, so it has the same dimensions and dtype.
pub assume_specification[ <candle_core::Tensor as Clone>::clone ](t: &candle_core::Tensor) -> (r: candle_core::Tensor)
    ensures
        tensor_dims(r) == tensor_dims(*t),
        tensor_dtype(r) == tensor_dtype(*t),
;

/// Relies on `DType::from_str`: it accepts exactly the backend's dtype names,
/// and returns the dtype that `DType::as_str` names the same way.
#[verifier::external_body]
pub(crate) fn backend_dtype_from_name(s: &str) -> (r: Option<DType>)
    ensures
        r is Some <==> is_backend_dtype_name(s@),
        r matches Some(d) ==> dtype_name(d) == s@,
{
    DType::from_str(s).ok()
}

/// Relies on `DType::as_str`: the backend's name of a dtype; no two dtypes
/// share a name.
#[verifier::external_body]
pub(crate) fn backend_dtype_name(d: DType) -> (r: &'static str)
    ensures
        r@ == dtype_name(d),
        forall|e: DType| #[trigger] dtype_name(e) == r@ ==> e == d,
{
    d.as_str()
}

/// Relies on `Tensor::dims`: the dimension sizes, outermost first.
#[verifier::external_body]
pub(crate) fn backend_dims(t: &Tensor) -> (r: Vec<usize>)
    ensures
        r@ == tensor_dims(*t),
{
    t.dims().to_vec()
}

/// Relies on `Tensor::rank`: the number of dimensions.
#[verifier::external_body]
pub(crate) fn backend_rank(t: &Tensor) -> (r: usize)
    ensures
        r == tensor_dims(*t).len(),
{
    t.rank()
}

/// Relies on `Tensor::dtype`: the element type.
#[verifier::external_body]
pub(crate) fn backend_dtype(t: &Tensor) -> (r: DType)
    ensures
        r == tensor_dtype(*t),
{
    t.dtype()
}

/// Relies on `Tensor::ones` on the CPU: for a dtype of the registry it
/// succeeds, with a contiguous tensor of the requested dimensions and dtype. It counts and allocates the elements, so the
/// dimensions must fit.
#[verifier::external_body]
pub(crate) fn backend_ones(shape: &Vec<usize>, dtype: DType) -> (r: Result<Tensor, candle_core::Error>)
    requires
        shape_fits(shape@),
        exposed(dtype),
    ensures
        r is Ok,
        r matches Ok(t) ==> tensor_dims(t) == shape@ && tensor_dtype(t) == dtype
            && tensor_contiguous(t),
{
    Tensor::ones(shape.clone(), dtype, &Device::Cpu)
}

/// Relies on `Tensor::zeros` on the CPU: for a dtype of the registry it
/// succeeds, with a contiguous tensor of the requested dimensions and dtype. It counts and allocates the elements, so the
/// dimensions must fit.
#[verifier::external_body]
pub(crate) fn backend_zeros(shape: &Vec<usize>, dtype: DType) -> (r: Result<Tensor, candle_core::Error>)
    requires
        shape_fits(shape@),
        exposed(dtype),
    ensures
        r is Ok,
        r matches Ok(t) ==> tensor_dims(t) == shape@ && tensor_dtype(t) == dtype
            && tensor_contiguous(t),
{
    Tensor::zeros(shape.clone(), dtype, &Device::Cpu)
}

/// Relies on `Tensor::new` on the CPU for one `i64`: it always succeeds, with a
/// tensor of no dimensions and dtype `i64`.
#[verifier::external_body]
pub(crate) fn backend_scalar_i64(n: i64) -> (r: Result<Tensor, candle_core::Error>)
    ensures
        r is Ok,
        r matches Ok(t) ==> tensor_dims(t) == Seq::<usize>::empty() && dtype_name(tensor_dtype(t))
            == seq!['i', '6', '4'],
{
    Tensor::new(n, &Device::Cpu)
}

/// Relies on `Tensor::to_dtype`: the CPU casts between the registry's dtypes
/// and `i64` all succeed (plain `as` casts, saturating from floats), with the
/// same dimensions and the new dtype.
#[verifier::external_body]
pub(crate) fn backend_to_dtype(t: &Tensor, dtype: DType) -> (r: Result<Tensor, candle_core::Error>)
    requires
        shape_fits(tensor_dims(*t)),
        exposed(dtype),
    ensures
        castable(tensor_dtype(*t)) ==> r is Ok,
        r matches Ok(u) ==> tensor_dims(u) == tensor_dims(*t) && tensor_dtype(u) == dtype,
{
    t.to_dtype(dtype)
}

/// Relies on `Tensor::broadcast_as`: a tensor with no dimensions broadcasts to
/// any dimensions; on success the result has the requested dimensions and the
/// same dtype.
#[verifier::external_body]
pub(crate) fn backend_broadcast_as(t: &Tensor, shape: &Vec<usize>) -> (r: Result<Tensor, candle_core::Error>)
    ensures
        tensor_dims(*t).len() == 0 ==> r is Ok,
        r matches Ok(u) ==> tensor_dims(u) == shape@ && tensor_dtype(u) == tensor_dtype(*t),
{
    t.broadcast_as(shape.clone())
}

/// Relies on `Tensor::add`: operands of different dimensions are refused, and
/// so are operands of different dtypes unless there are no elements; operands
/// of equal dimensions and dtype succeed, keeping them. Integer kernels use
/// Rust's operators, which panic on overflow or a zero divisor, so they are
/// left out.
#[verifier::external_body]
pub(crate) fn backend_add(a: &Tensor, b: &Tensor) -> (r: Result<Tensor, candle_core::Error>)
    requires
        shape_fits(tensor_dims(*a)),
        exposed(tensor_dtype(*a)),
        float_dtype(tensor_dtype(*a)) || tensor_dims(*a) != tensor_dims(*b) || tensor_dtype(*a)
            != tensor_dtype(*b),
    ensures
        r is Ok ==> tensor_dims(*a) == tensor_dims(*b),
        tensor_dims(*a) == tensor_dims(*b) && tensor_dtype(*a) == tensor_dtype(*b) ==> r is Ok,
        tensor_dims(*a) == tensor_dims(*b) && tensor_dtype(*a) != tensor_dtype(*b) && shape_size(
            tensor_dims(*a),
        ) != 0 ==> r is Err,
        r matches Ok(u) ==> tensor_dims(u) == tensor_dims(*a) && tensor_dtype(u) == tensor_dtype(*a),
{
    a.add(b)
}

/// Relies on `Tensor::sub`: operands of different dimensions are refused, and
/// so are operands of different dtypes unless there are no elements; operands
/// of equal dimensions and dtype succeed, keeping them. Integer kernels use
/// Rust's operators, which panic on overflow or a zero divisor, so they are
/// left out.
#[verifier::external_body]
pub(crate) fn backend_sub(a: &Tensor, b: &Tensor) -> (r: Result<Tensor, candle_core::Error>)
    requires
        shape_fits(tensor_dims(*a)),
        exposed(tensor_dtype(*a)),
        float_dtype(tensor_dtype(*a)) || tensor_dims(*a) != tensor_dims(*b) || tensor_dtype(*a)
            != tensor_dtype(*b),
    ensures
        r is Ok ==> tensor_dims(*a) == tensor_dims(*b),
        tensor_dims(*a) == tensor_dims(*b) && tensor_dtype(*a) == tensor_dtype(*b) ==> r is Ok,
        tensor_dims(*a) == tensor_dims(*b) && tensor_dtype(*a) != tensor_dtype(*b) && shape_size(
            tensor_dims(*a),
        ) != 0 ==> r is Err,
        r matches Ok(u) ==> tensor_dims(u) == tensor_dims(*a) && tensor_dtype(u) == tensor_dtype(*a),
{
    a.sub(b)
}

/// Relies on `Tensor::mul`: operands of different dimensions are refused, and
/// so are operands of different dtypes unless there are no elements; operands
/// of equal dimensions and dtype succeed, keeping them. Integer kernels use
/// Rust's operators, which panic on overflow or a zero divisor, so they are
/// left out.
#[verifier::external_body]
pub(crate) fn backend_mul(a: &Tensor, b: &Tensor) -> (r: Result<Tensor, candle_core::Error>)
    requires
        shape_fits(tensor_dims(*a)),
        exposed(tensor_dtype(*a)),
        float_dtype(tensor_dtype(*a)) || tensor_dims(*a) != tensor_dims(*b) || tensor_dtype(*a)
            != tensor_dtype(*b),
    ensures
        r is Ok ==> tensor_dims(*a) == tensor_dims(*b),
        tensor_dims(*a) == tensor_dims(*b) && tensor_dtype(*a) == tensor_dtype(*b) ==> r is Ok,
        tensor_dims(*a) == tensor_dims(*b) && tensor_dtype(*a) != tensor_dtype(*b) && shape_size(
            tensor_dims(*a),
        ) != 0 ==> r is Err,
        r matches Ok(u) ==> tensor_dims(u) == tensor_dims(*a) && tensor_dtype(u) == tensor_dtype(*a),
{
    a.mul(b)
}

/// Relies on `Tensor::div`: operands of different dimensions are refused, and
/// so are operands of different dtypes unless there are no elements; operands
/// of equal dimensions and dtype succeed, keeping them. Integer kernels use
/// Rust's operators, which panic on overflow or a zero divisor, so they are
/// left out.
#[verifier::external_body]
pub(crate) fn backend_div(a: &Tensor, b: &Tensor) -> (r: Result<Tensor, candle_core::Error>)
    requires
        shape_fits(tensor_dims(*a)),
        exposed(tensor_dtype(*a)),
        float_dtype(tensor_dtype(*a)) || tensor_dims(*a) != tensor_dims(*b) || tensor_dtype(*a)
            != tensor_dtype(*b),
    ensures
        r is Ok ==> tensor_dims(*a) == tensor_dims(*b),
        tensor_dims(*a) == tensor_dims(*b) && tensor_dtype(*a) == tensor_dtype(*b) ==> r is Ok,
        tensor_dims(*a) == tensor_dims(*b) && tensor_dtype(*a) != tensor_dtype(*b) && shape_size(
            tensor_dims(*a),
        ) != 0 ==> r is Err,
        r matches Ok(u) ==> tensor_dims(u) == tensor_dims(*a) && tensor_dtype(u) == tensor_dtype(*a),
{
    a.div(b)
}

/// Relies on `Tensor::sum_all`: for a floating-point dtype it succeeds, with a
/// tensor of no dimensions and the same dtype. Integer sums use `+=`, which
/// panics on overflow, so they are left out.
#[verifier::external_body]
pub(crate) fn backend_sum_all(t: &Tensor) -> (r: Result<Tensor, candle_core::Error>)
    requires
        shape_fits(tensor_dims(*t)),
        exposed(tensor_dtype(*t)),
        float_dtype(tensor_dtype(*t)),
    ensures
        r is Ok,
        r matches Ok(u) ==> tensor_dims(u) == Seq::<usize>::empty() && tensor_dtype(u)
            == tensor_dtype(*t),
{
    t.sum_all()
}

/// Relies on `Tensor::matmul`: it needs equal ranks of at least two; on success
/// the result has the batch dimensions and rows of `a`, the columns of `b`, and
/// the dtype of `a`. Inner sizes that differ are refused, unless the product
/// is empty. It counts the result's elements before any other check. On the
/// CPU it succeeds for contiguous operands of rank two to four with equal
/// batch dimensions, equal inner sizes and one dtype among f16, f32 and f64.
#[verifier::external_body]
pub(crate) fn backend_matmul(a: &Tensor, b: &Tensor) -> (r: Result<Tensor, candle_core::Error>)
    requires
        shape_fits(tensor_dims(*a)),
        shape_fits(tensor_dims(*b)),
        exposed(tensor_dtype(*a)),
        tensor_dims(*a).len() >= 2 && tensor_dims(*b).len() == tensor_dims(*a).len() ==> shape_fits(
            matmul_dims(tensor_dims(*a), tensor_dims(*b)),
        ),
    ensures
        r is Ok ==> tensor_dims(*a).len() >= 2 && tensor_dims(*b).len() == tensor_dims(*a).len(),
        r matches Ok(u) ==> tensor_dims(u) == matmul_dims(tensor_dims(*a), tensor_dims(*b))
            && tensor_dtype(u) == tensor_dtype(*a),
        ({
            let (da, db) = (tensor_dims(*a), tensor_dims(*b));
            da.len() >= 2 && db.len() == da.len() && da[da.len() - 1] != db[db.len() - 2]
                && da[da.len() - 1] != 0 && shape_size(matmul_dims(da, db)) != 0 ==> r is Err
        }),
        ({
            let (da, db) = (tensor_dims(*a), tensor_dims(*b));
            2 <= da.len() <= 4 && db.len() == da.len() && da.take(da.len() - 2) == db.take(
                db.len() - 2,
            ) && da[da.len() - 1] == db[db.len() - 2] && tensor_dtype(*a) == tensor_dtype(*b)
                && matmul_dtype(tensor_dtype(*a)) && tensor_contiguous(*a) && tensor_contiguous(*b)
                ==> r is Ok
        }),
{
    a.matmul(b)
}

/// Relies on `Tensor::reshape`: a new element count is refused; the same count
/// succeeds (a view, or a copy for a strided tensor), with the requested
/// dimensions, the same dtype, and contiguous elements.
#[verifier::external_body]
pub(crate) fn backend_reshape(t: &Tensor, shape: &Vec<usize>) -> (r: Result<Tensor, candle_core::Error>)
    requires
        shape_fits(tensor_dims(*t)),
        shape_fits(shape@),
        exposed(tensor_dtype(*t)),
    ensures
        shape_size(shape@) != shape_size(tensor_dims(*t)) ==> r is Err,
        shape_size(shape@) == shape_size(tensor_dims(*t)) ==> r is Ok,
        r matches Ok(u) ==> tensor_dims(u) == shape@ && tensor_dtype(u) == tensor_dtype(*t),
{
    t.reshape(shape.clone())
}

/// Relies on `Tensor::contiguous` on the CPU: for a dtype of the registry it
/// succeeds, with the same dimensions and dtype and contiguous elements (the
/// tensor itself where it already was, else a copy).
#[verifier::external_body]
pub(crate) fn backend_contiguous(t: &Tensor) -> (r: Result<Tensor, candle_core::Error>)
    requires
        shape_fits(tensor_dims(*t)),
        exposed(tensor_dtype(*t)),
    ensures
        r is Ok,
        r matches Ok(u) ==> tensor_dims(u) == tensor_dims(*t) && tensor_dtype(u) == tensor_dtype(*t)
            && tensor_contiguous(u),
{
    t.contiguous()
}

/// Relies on the backend's `Display` for tensors: a rendering of the values,
/// ending in the dimensions and the dtype, never empty. It reads print
/// options that the process may change; under some of them (no edge items
/// for a summarised tensor) the text is that of an error instead, so no more
/// is stated of it.
#[verifier::external_body]
pub(crate) fn backend_render(t: &Tensor) -> (r: String)
    ensures
        r@.len() > 0,
{
    format!("{t}")
}

/// Relies on the backend's `Debug` for its error: a description of the
/// failure, which may hold the backtrace recorded with it.
#[verifier::external_body]
pub(crate) fn backend_error_text(e: &candle_core::Error) -> (r: String)
    ensures
        r@ == error_text(*e),
{
    format!("{e:?}")
}

} // verus!
