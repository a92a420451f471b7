//! The host-visible tensor handle: an immutable wrapper around one backend
//! tensor, whose operations each produce a new handle or an error.
use crate::backend::{
    backend_add, backend_broadcast_as, backend_contiguous, backend_dims, backend_div, backend_dtype,
    backend_matmul, backend_mul, backend_rank, backend_render, backend_reshape, backend_scalar_i64,
    backend_sub, backend_sum_all, backend_to_dtype, castable, dtype_name, float_dtype, matmul_dims,
    tensor_dims, tensor_dtype,
};
use crate::dtype::{lemma_parse_inverts_name, DtypeTag};
use crate::error::{wrap_err, BindingError};
use crate::shape::{checked_shape_size, lemma_empty_fits, shape_fits, shape_size};
use candle_core::{DType, Tensor};
use vstd::prelude::*;

verus! {

/// The tag of a backend tensor's dtype, where the binding exposes that dtype.
pub open spec fn tag_of(t: Tensor) -> Option<DtypeTag> {
    DtypeTag::parse_spec(dtype_name(tensor_dtype(t)))
}

/// A tensor as the host holds it. Its dtype is one of the registry's tags and
/// its element count fits; no operation changes it in place.
pub struct TensorHandle {
    inner: Tensor,
}

/// A second handle on the same tensor.
impl Clone for TensorHandle {
    fn clone(&self) -> (r: TensorHandle)
        ensures
            r.shape_view() == self.shape_view(),
            r.dtype_view() == self.dtype_view(),
    {
        proof {
            use_type_invariant(self);
        }
        TensorHandle { inner: self.inner.clone() }
    }
}

/// An arithmetic operator of the host.
#[derive(Clone, Copy, Debug, PartialEq, Eq, Structural)]
pub enum BinaryOp {
    Add,
    Sub,
    Mul,
    Div,
}

/// A host value, sorted once at the boundary into the kinds the binding acts
/// on. Host floating-point numbers reach the library already held by the
/// backend: a number as a tensor of no dimensions, a list of numbers as a
/// tensor of one dimension.
pub enum HostValue {
    Integer(i64),
    Number(TensorHandle),
    Sequence(TensorHandle),
    Tensor(TensorHandle),
    Other,
}

/// Applies one operator in the backend to two tensors. Integer operands of
/// equal dimensions and dtype never reach it: the backend's integer kernels
/// panic on overflow and on a zero divisor.
fn apply(op: BinaryOp, a: &Tensor, b: &Tensor) -> (r: Result<Tensor, candle_core::Error>)
    requires
        shape_fits(tensor_dims(*a)),
        tag_of(*a) is Some,
        float_dtype(tensor_dtype(*a)) || tensor_dims(*a) != tensor_dims(*b) || tensor_dtype(*a)
            != tensor_dtype(*b),
    ensures
        r is Ok ==> tensor_dims(*a) == tensor_dims(*b),
        tensor_dims(*a) == tensor_dims(*b) && tensor_dtype(*a) == tensor_dtype(*b) ==> r is Ok,
        tensor_dims(*a) == tensor_dims(*b) && tensor_dtype(*a) != tensor_dtype(*b) && shape_size(
            tensor_dims(*a),
        ) != 0 ==> r is Err,
        r matches Ok(u) ==> tensor_dims(u) == tensor_dims(*a) && tensor_dtype(u) == tensor_dtype(*a),
{
    match op {
        BinaryOp::Add => backend_add(a, b),
        BinaryOp::Sub => backend_sub(a, b),
        BinaryOp::Mul => backend_mul(a, b),
        BinaryOp::Div => backend_div(a, b),
    }
}

/// Applies an operator to `a` and to `b` of the same dimensions, computing in
/// f64: both are cast to f64, and the result is cast back to `a`'s dtype,
/// saturating at its bounds (a zero divisor gives the largest value, or zero
/// for zero over zero).
fn apply_widened(op: BinaryOp, a: &Tensor, b: &Tensor) -> (r: Result<Tensor, candle_core::Error>)
    requires
        shape_fits(tensor_dims(*a)),
        tag_of(*a) is Some,
        castable(tensor_dtype(*b)),
        tensor_dims(*a) == tensor_dims(*b),
    ensures
        r is Ok,
        r matches Ok(u) ==> tensor_dims(u) == tensor_dims(*a) && tensor_dtype(u) == tensor_dtype(*a),
{
    let wide = DtypeTag::F64.to_backend();
    proof {
        lemma_parse_inverts_name(DtypeTag::F64.name_spec(), DtypeTag::F64);
    }
    let a64 = backend_to_dtype(a, wide).unwrap();
    let b64 = backend_to_dtype(b, wide).unwrap();
    let r64 = apply(op, &a64, &b64).unwrap();
    backend_to_dtype(&r64, backend_dtype(a))
}

/// The scalar tensor `s` cast to `dtype` and broadcast to `dims`.
fn broadcast_scalar(s: &Tensor, dtype: DType, dims: &Vec<usize>) -> (r: Result<Tensor, candle_core::Error>)
    requires
        shape_fits(tensor_dims(*s)),
        castable(tensor_dtype(*s)),
        DtypeTag::parse_spec(dtype_name(dtype)) is Some,
    ensures
        tensor_dims(*s).len() == 0 ==> r is Ok,
        r matches Ok(u) ==> tensor_dims(u) == dims@ && tensor_dtype(u) == dtype,
{
    let cast = backend_to_dtype(s, dtype).unwrap();
    backend_broadcast_as(&cast, dims)
}

/// Equal dimension lists.
fn same_dims(a: &Vec<usize>, b: &Vec<usize>) -> (r: bool)
    ensures
        r == (a@ == b@),
{
    if a.len() != b.len() {
        return false;
    }
    let mut i: usize = 0;
    while i < a.len()
        invariant
            a@.len() == b@.len(),
            i <= a@.len(),
            forall|j: int| 0 <= j < i ==> a@[j] == b@[j],
        decreases a@.len() - i,
    {
        if a[i] != b[i] {
            return false;
        }
        i = i + 1;
    }
    assert(a@ =~= b@);
    true
}

impl TensorHandle {
    #[verifier::type_invariant]
    spec fn inv(self) -> bool {
        tag_of(self.inner) is Some && shape_fits(tensor_dims(self.inner))
    }

    /// The dimension sizes, outermost first.
    pub closed spec fn shape_view(self) -> Seq<usize> {
        tensor_dims(self.inner)
    }

    /// The element type.
    pub closed spec fn dtype_view(self) -> DtypeTag {
        tag_of(self.inner)->Some_0
    }

    /// The backend tensor held.
    pub closed spec fn tensor_view(self) -> Tensor {
        self.inner
    }

    /// Wraps a backend tensor known to meet the handle's invariant.
    pub(crate) fn from_parts(t: Tensor) -> (r: TensorHandle)
        requires
            tag_of(t) is Some,
            shape_fits(tensor_dims(t)),
        ensures
            r.tensor_view() == t,
            r.shape_view() == tensor_dims(t),
            r.dtype_view() == tag_of(t)->Some_0,
    {
        TensorHandle { inner: t }
    }

    /// Wraps a backend result: a tensor of the given dimensions and of the
    /// dtype tagged `d`, or the backend's failure.
    fn wrap_result(r: Result<Tensor, candle_core::Error>, Ghost(dims): Ghost<Seq<usize>>, Ghost(d): Ghost<DtypeTag>) -> (out: Result<TensorHandle, BindingError>)
        requires
            shape_fits(dims),
            r matches Ok(u) ==> tensor_dims(u) == dims && tag_of(u) == Some(d),
        ensures
            r is Ok <==> out is Ok,
            out matches Ok(h) ==> h.shape_view() == dims && h.dtype_view() == d,
            out matches Err(e) ==> e is Backend,
    {
        match r {
            Ok(u) => Ok(TensorHandle::from_parts(u)),
            Err(e) => Err(wrap_err(e)),
        }
    }

    /// Takes a backend tensor made outside the library. It is refused with
    /// `TypeConversion` where its dtype is not one of the registry's tags or
    /// its element count does not fit.
    pub fn from_tensor(t: Tensor) -> (r: Result<TensorHandle, BindingError>)
        ensures
            r is Ok <==> tag_of(t) is Some && shape_fits(tensor_dims(t)),
            r matches Ok(h) ==> h.tensor_view() == t && h.shape_view() == tensor_dims(t)
                && h.dtype_view() == tag_of(t)->Some_0,
            r matches Err(e) ==> e is TypeConversion,
    {
        let tag = DtypeTag::from_backend(backend_dtype(&t));
        let dims = backend_dims(&t);
        if tag.is_none() || checked_shape_size(&dims).is_none() {
            return Err(BindingError::TypeConversion);
        }
        Ok(TensorHandle::from_parts(t))
    }

    /// The backend tensor, for reading its values.
    pub fn as_tensor(&self) -> (r: &Tensor)
        ensures
            *r == self.tensor_view(),
            tensor_dims(*r) == self.shape_view(),
            tag_of(*r) == Some(self.dtype_view()),
    {
        proof {
            use_type_invariant(self);
        }
        &self.inner
    }

    /// The dimension sizes, outermost first.
    pub fn shape(&self) -> (r: Vec<usize>)
        ensures
            r@ == self.shape_view(),
    {
        backend_dims(&self.inner)
    }

    /// The number of dimensions.
    pub fn rank(&self) -> (r: usize)
        ensures
            r == self.shape_view().len(),
    {
        backend_rank(&self.inner)
    }

    /// The tag of the element type; no other backend dtype has its name.
    fn backend_tag(&self) -> (r: DtypeTag)
        ensures
            r == self.dtype_view(),
            dtype_name(tensor_dtype(self.inner)) == r.name_spec(),
            forall|e: DType| #[trigger] dtype_name(e) == dtype_name(tensor_dtype(self.inner)) ==> e
                == tensor_dtype(self.inner),
    {
        proof {
            use_type_invariant(self);
        }
        let r = DtypeTag::from_backend(backend_dtype(&self.inner)).unwrap();
        proof {
            lemma_parse_inverts_name(dtype_name(tensor_dtype(self.inner)), r);
        }
        r
    }

    /// The element type.
    pub fn dtype(&self) -> (r: DtypeTag)
        ensures
            r == self.dtype_view(),
    {
        self.backend_tag()
    }

    /// The backend's rendering of the values and the dtype; never empty.
    pub fn to_string(&self) -> (r: String)
        ensures
            r@.len() > 0,
    {
        backend_render(&self.inner)
    }

    /// What an arithmetic operator returns with this tensor on the left and
    /// `rhs` on the right. A tensor operand of the same dimensions and dtype,
    /// an integer, or a number of no dimensions give a tensor of this one's
    /// dimensions and dtype. A tensor operand of other dimensions, or of
    /// another dtype where there are elements, is refused by the backend; an
    /// operand of another kind fails with `InvariantViolation`.
    pub open spec fn binary_result(self, rhs: &HostValue, r: Result<TensorHandle, BindingError>) -> bool {
        &&& match rhs {
            HostValue::Tensor(b) => {
                &&& (r is Ok ==> b.shape_view() == self.shape_view())
                &&& (b.shape_view() != self.shape_view() ==> r is Err)
                &&& (b.shape_view() == self.shape_view() && b.dtype_view() == self.dtype_view() ==> r is Ok)
                &&& (b.shape_view() == self.shape_view() && b.dtype_view() != self.dtype_view()
                    && shape_size(self.shape_view()) != 0 ==> r is Err)
            },
            HostValue::Integer(_) => r is Ok,
            HostValue::Number(h) => h.shape_view().len() == 0 ==> r is Ok,
            _ => (r matches Err(BindingError::InvariantViolation)),
        }
        &&& r matches Ok(u) ==> u.shape_view() == self.shape_view() && u.dtype_view() == self.dtype_view()
        &&& r matches Err(e) ==> (e is Backend || e is InvariantViolation)
        &&& (rhs is Tensor || rhs is Integer || rhs is Number) ==> (r matches Err(e) ==> e is Backend)
    }

    /// Applies an arithmetic operator with this tensor on the left. A tensor on
    /// the right must have the same dimensions and dtype. An integer or a
    /// number is cast to this tensor's dtype and broadcast, so the dtype is
    /// kept. For the integer dtypes u8 and u32 the operator is computed in f64
    /// and cast back, saturating at the dtype's bounds: no overflow or zero
    /// divisor aborts. Any other right operand is refused with
    /// `InvariantViolation`.
    pub fn binary(&self, op: BinaryOp, rhs: &HostValue) -> (r: Result<TensorHandle, BindingError>)
        ensures
            self.binary_result(rhs, r),
    {
        proof {
            use_type_invariant(self);
        }
        let tag = self.backend_tag();
        let integer = tag == DtypeTag::U8 || tag == DtypeTag::U32;
        let dims = backend_dims(&self.inner);
        let wide = DtypeTag::F64.to_backend();
        proof {
            lemma_parse_inverts_name(DtypeTag::F64.name_spec(), DtypeTag::F64);
        }
        let out = match rhs {
            HostValue::Tensor(b) => {
                proof {
                    use_type_invariant(b);
                }
                let b_tag = b.backend_tag();
                if integer && same_dims(&dims, &b.shape()) && b_tag == tag {
                    apply_widened(op, &self.inner, &b.inner)
                } else {
                    apply(op, &self.inner, &b.inner)
                }
            },
            HostValue::Integer(n) => {
                let s = backend_scalar_i64(*n).unwrap();
                proof {
                    lemma_empty_fits(tensor_dims(s));
                }
                if integer {
                    let v = broadcast_scalar(&s, wide, &dims).unwrap();
                    apply_widened(op, &self.inner, &v)
                } else {
                    let v = broadcast_scalar(&s, backend_dtype(&self.inner), &dims).unwrap();
                    apply(op, &self.inner, &v)
                }
            },
            HostValue::Number(h) => {
                proof {
                    use_type_invariant(h);
                }
                let target = if integer { wide } else { backend_dtype(&self.inner) };
                match broadcast_scalar(&h.inner, target, &dims) {
                    Ok(v) => if integer {
                        apply_widened(op, &self.inner, &v)
                    } else {
                        apply(op, &self.inner, &v)
                    },
                    Err(e) => Err(e),
                }
            },
            _ => {
                return Err(BindingError::InvariantViolation);
            },
        };
        TensorHandle::wrap_result(out, Ghost(self.shape_view()), Ghost(self.dtype_view()))
    }

    /// Sums every element into a tensor of no dimensions, of the same dtype.
    /// For u8 and u32 the sum is computed in f64 and cast back, saturating at
    /// the dtype's bounds.
    pub fn sum_all(&self) -> (r: Result<TensorHandle, BindingError>)
        ensures
            r is Ok,
            r matches Ok(u) ==> u.shape_view() == Seq::<usize>::empty() && u.dtype_view()
                == self.dtype_view(),
    {
        proof {
            use_type_invariant(self);
            lemma_empty_fits(Seq::<usize>::empty());
        }
        let tag = self.backend_tag();
        let out = if tag == DtypeTag::U8 || tag == DtypeTag::U32 {
            let wide = DtypeTag::F64.to_backend();
            proof {
                lemma_parse_inverts_name(DtypeTag::F64.name_spec(), DtypeTag::F64);
            }
            let t64 = backend_to_dtype(&self.inner, wide).unwrap();
            let s64 = backend_sum_all(&t64).unwrap();
            proof {
                lemma_empty_fits(tensor_dims(s64));
            }
            backend_to_dtype(&s64, backend_dtype(&self.inner))
        } else {
            backend_sum_all(&self.inner)
        };
        TensorHandle::wrap_result(out, Ghost(Seq::<usize>::empty()), Ghost(self.dtype_view()))
    }

    /// Casts every element to the dtype tagged `dtype`, keeping the
    /// dimensions. This handle is unchanged.
    pub fn to(&self, dtype: DtypeTag) -> (r: Result<TensorHandle, BindingError>)
        ensures
            r is Ok,
            r matches Ok(u) ==> u.shape_view() == self.shape_view() && u.dtype_view() == dtype,
    {
        proof {
            use_type_invariant(self);
            lemma_parse_inverts_name(dtype.name_spec(), dtype);
        }
        TensorHandle::wrap_result(
            backend_to_dtype(&self.inner, dtype.to_backend()),
            Ghost(self.shape_view()),
            Ghost(dtype),
        )
    }

    /// The matrix product of this tensor and `other`, which must have the same
    /// rank, at least two. The result's element count must fit, else it is
    /// refused with `Shape`; inner sizes that differ are refused by the backend
    /// unless the product is empty. The backend computes products of rank two
    /// to four, with equal batch dimensions, of one dtype among f16, f32 and
    /// f64.
    pub fn matmul(&self, other: &TensorHandle) -> (r: Result<TensorHandle, BindingError>)
        ensures
            ({
                let (a, b) = (self.shape_view(), other.shape_view());
                &&& !(a.len() >= 2 && b.len() == a.len()) ==> (r matches Err(BindingError::Backend { .. }))
                &&& a.len() >= 2 && b.len() == a.len() && !shape_fits(matmul_dims(a, b)) ==> (r matches Err(BindingError::Shape))
                &&& a.len() >= 2 && b.len() == a.len() && shape_fits(matmul_dims(a, b))
                    && a[a.len() - 1] != b[b.len() - 2] && a[a.len() - 1] != 0
                    && shape_size(matmul_dims(a, b)) != 0 ==> (r matches Err(BindingError::Backend { .. }))
                &&& 2 <= a.len() <= 4 && b.len() == a.len() && a.take(a.len() - 2) == b.take(b.len() - 2)
                    && a[a.len() - 1] == b[b.len() - 2] && shape_fits(matmul_dims(a, b))
                    && other.dtype_view() == self.dtype_view() && (self.dtype_view() == DtypeTag::F16
                    || self.dtype_view() == DtypeTag::F32 || self.dtype_view() == DtypeTag::F64) ==> r is Ok
                &&& r matches Ok(u) ==> a.len() >= 2 && b.len() == a.len() && u.shape_view() == matmul_dims(a, b)
                    && u.dtype_view() == self.dtype_view()
            }),
            r matches Err(e) ==> (e is Backend || e is Shape),
    {
        proof {
            use_type_invariant(self);
            use_type_invariant(other);
        }
        let _ = self.backend_tag();
        let _ = other.backend_tag();
        let da = backend_dims(&self.inner);
        let db = backend_dims(&other.inner);
        let n = da.len();
        if n >= 2 && db.len() == n {
            let mut out = da.clone();
            out.set(n - 1, db[n - 1]);
            assert(out@ =~= matmul_dims(da@, db@));
            if checked_shape_size(&out).is_none() {
                return Err(BindingError::Shape);
            }
        }
        let a = backend_contiguous(&self.inner).unwrap();
        let b = backend_contiguous(&other.inner).unwrap();
        let res = backend_matmul(&a, &b);
        TensorHandle::wrap_result(res, Ghost(if n >= 2 && db.len() == n { matmul_dims(da@, db@) } else { da@ }), Ghost(self.dtype_view()))
    }

    /// The same elements under the dimensions `shape`. A list whose element
    /// count does not fit is refused with `Shape`; one with another element
    /// count than this tensor's is refused by the backend.
    pub fn reshape(&self, shape: Vec<usize>) -> (r: Result<TensorHandle, BindingError>)
        ensures
            !shape_fits(shape@) ==> (r matches Err(BindingError::Shape)),
            shape_fits(shape@) && shape_size(shape@) != shape_size(self.shape_view()) ==> (r matches Err(BindingError::Backend { .. })),
            shape_fits(shape@) && shape_size(shape@) == shape_size(self.shape_view()) ==> r is Ok,
            r matches Ok(u) ==> u.shape_view() == shape@ && u.dtype_view() == self.dtype_view(),
            r matches Err(e) ==> (e is Backend || e is Shape),
    {
        proof {
            use_type_invariant(self);
        }
        if checked_shape_size(&shape).is_none() {
            return Err(BindingError::Shape);
        }
        TensorHandle::wrap_result(
            backend_reshape(&self.inner, &shape),
            Ghost(shape@),
            Ghost(self.dtype_view()),
        )
    }
}

/// Adding a tensor and then subtracting it again, where both steps succeed,
/// gives a tensor of the left operand's dimensions and dtype. (The values are
/// floating point and are not modelled here.)
pub proof fn lemma_add_sub_keeps_layout(
    a: TensorHandle,
    b: HostValue,
    sum: TensorHandle,
    back: TensorHandle,
)
    requires
        a.binary_result(&b, Ok(sum)),
        sum.binary_result(&b, Ok(back)),
    ensures
        back.shape_view() == a.shape_view(),
        back.dtype_view() == a.dtype_view(),
{
}

} // verus!
