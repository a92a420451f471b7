//! Element counts of dimension lists, and the bound under which the backend
//! can count and allocate them.
use vstd::prelude::*;

verus! {

/// The largest element count a tensor may have: its bytes, at eight per
/// element, must stay within `isize::MAX`.
pub const MAX_ELEMS: usize = usize::MAX / 16;

/// The number of elements of a tensor with dimension sizes `s`: their product,
/// taken from the outermost dimension inwards.
pub open spec fn shape_size(s: Seq<usize>) -> nat
    decreases s.len(),
{
    if s.len() == 0 {
        1
    } else {
        shape_size(s.drop_last()) * (s.last() as nat)
    }
}

/// The product of every run of adjacent dimensions of `s` stays within
/// `MAX_ELEMS`. The backend multiplies such runs in either direction: the
/// element count from the outermost dimension, the strides of a row-major
/// layout from the innermost. None of these products can then overflow, and
/// the elements can be allocated.
pub open spec fn shape_fits(s: Seq<usize>) -> bool {
    forall|i: int, j: int|
        0 <= i <= j <= s.len() ==> #[trigger] shape_size(s.subrange(i, j)) <= MAX_ELEMS
}

/// A tensor of no dimensions has one element, which fits.
pub proof fn lemma_empty_fits(s: Seq<usize>)
    requires
        s.len() == 0,
    ensures
        shape_fits(s),
{
    assert forall|i: int, j: int| 0 <= i <= j <= s.len() implies #[trigger] shape_size(
        s.subrange(i, j),
    ) <= MAX_ELEMS by {
        assert(s.subrange(i, j) =~= Seq::<usize>::empty());
    }
}

/// Counts the elements of a tensor of shape `s`, or `None` where the product
/// of some run of adjacent dimensions exceeds `MAX_ELEMS`.
pub fn checked_shape_size(s: &Vec<usize>) -> (r: Option<usize>)
    ensures
        r is Some <==> shape_fits(s@),
        r matches Some(n) ==> n == shape_size(s@),
{
    let n = s.len();
    let mut total: usize = 1;
    let mut i: usize = n;
    // Runs are taken from each start, the innermost first, so that the run
    // from the outermost dimension to the end, the element count, comes last.
    while i > 0
        invariant
            i <= n == s@.len(),
            forall|a: int, b: int| i <= a <= b <= n ==> #[trigger] shape_size(s@.subrange(a, b)) <= MAX_ELEMS,
            i < n ==> total == shape_size(s@.subrange(i as int, n as int)),
            i == n ==> total == 1,
        decreases i,
    {
        i = i - 1;
        let mut acc: usize = 1;
        let mut j: usize = i;
        assert(s@.subrange(i as int, i as int) =~= Seq::<usize>::empty());
        while j < n
            invariant
                i <= j <= n == s@.len(),
                acc == shape_size(s@.subrange(i as int, j as int)),
                forall|b: int| i <= b <= j ==> #[trigger] shape_size(s@.subrange(i as int, b)) <= MAX_ELEMS,
            decreases n - j,
        {
            let d = s[j];
            assert(s@.subrange(i as int, j + 1).drop_last() =~= s@.subrange(i as int, j as int));
            assert(s@.subrange(i as int, j + 1).last() == d);
            if d != 0 && acc > MAX_ELEMS / d {
                assert(shape_size(s@.subrange(i as int, j + 1)) > MAX_ELEMS) by (nonlinear_arith)
                    requires
                        shape_size(s@.subrange(i as int, j + 1)) == acc * d,
                        d != 0,
                        acc > MAX_ELEMS / d,
                ;
                return None;
            }
            assert(acc * d <= MAX_ELEMS) by (nonlinear_arith)
                requires
                    d == 0 || acc <= MAX_ELEMS / d,
            ;
            acc = acc * d;
            j = j + 1;
        }
        total = acc;
        assert forall|a: int, b: int| i <= a <= b <= n implies #[trigger] shape_size(s@.subrange(a, b)) <= MAX_ELEMS by {
            if a == i {
            } else {
                assert(i + 1 <= a);
            }
        }
    }
    assert(s@.subrange(0, n as int) =~= s@);
    if n == 0 {
        assert(s@ =~= Seq::<usize>::empty());
    }
    Some(total)
}

} // verus!
