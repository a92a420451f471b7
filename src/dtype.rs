//! The registry of element types: six tags, their names, and their backend
//! counterparts.
use crate::backend::{backend_dtype_from_name, backend_dtype_name, dtype_name};
use crate::error::BindingError;
use candle_core::DType;
use vstd::prelude::*;

verus! {

/// An element type that the binding exposes.
#[derive(Clone, Copy, Debug, PartialEq, Eq, Structural)]
pub enum DtypeTag {
    U8,
    U32,
    BF16,
    F16,
    F32,
    F64,
}

/// Equal strings, compared by their characters.
fn same_text(a: &str, b: &str) -> (r: bool)
    ensures
        r == (a@ == b@),
{
    a.to_owned() == b.to_owned()
}

impl DtypeTag {
    /// The canonical lowercase name of a tag.
    pub open spec fn name_spec(self) -> Seq<char> {
        match self {
            DtypeTag::U8 => seq!['u', '8'],
            DtypeTag::U32 => seq!['u', '3', '2'],
            DtypeTag::BF16 => seq!['b', 'f', '1', '6'],
            DtypeTag::F16 => seq!['f', '1', '6'],
            DtypeTag::F32 => seq!['f', '3', '2'],
            DtypeTag::F64 => seq!['f', '6', '4'],
        }
    }

    /// The tag whose name is `s`, if any.
    pub open spec fn parse_spec(s: Seq<char>) -> Option<DtypeTag> {
        if s == seq!['u', '8'] {
            Some(DtypeTag::U8)
        } else if s == seq!['u', '3', '2'] {
            Some(DtypeTag::U32)
        } else if s == seq!['b', 'f', '1', '6'] {
            Some(DtypeTag::BF16)
        } else if s == seq!['f', '1', '6'] {
            Some(DtypeTag::F16)
        } else if s == seq!['f', '3', '2'] {
            Some(DtypeTag::F32)
        } else if s == seq!['f', '6', '4'] {
            Some(DtypeTag::F64)
        } else {
            None
        }
    }

    /// The canonical lowercase name of this tag.
    pub fn name(self) -> (r: &'static str)
        ensures
            r@ == self.name_spec(),
    {
        match self {
            DtypeTag::U8 => {
                proof { reveal_strlit("u8"); }
                "u8"
            },
            DtypeTag::U32 => {
                proof { reveal_strlit("u32"); }
                "u32"
            },
            DtypeTag::BF16 => {
                proof { reveal_strlit("bf16"); }
                "bf16"
            },
            DtypeTag::F16 => {
                proof { reveal_strlit("f16"); }
                "f16"
            },
            DtypeTag::F32 => {
                proof { reveal_strlit("f32"); }
                "f32"
            },
            DtypeTag::F64 => {
                proof { reveal_strlit("f64"); }
                "f64"
            },
        }
    }

    /// The tag named `s`, or `None` where no tag has that name.
    pub fn from_name(s: &str) -> (r: Option<DtypeTag>)
        ensures
            r == DtypeTag::parse_spec(s@),
    {
        let tags = DtypeTag::all();
        let mut i: usize = 0;
        while i < tags.len()
            invariant
                tags@ == seq![DtypeTag::U8, DtypeTag::U32, DtypeTag::BF16, DtypeTag::F16, DtypeTag::F32, DtypeTag::F64],
                i <= tags@.len(),
                forall|j: int| 0 <= j < i ==> tags@[j].name_spec() != s@,
            decreases tags@.len() - i,
        {
            let t = tags[i];
            if same_text(t.name(), s) {
                return Some(t);
            }
            i = i + 1;
        }
        assert(tags@[0].name_spec() != s@ && tags@[1].name_spec() != s@);
        assert(tags@[2].name_spec() != s@ && tags@[3].name_spec() != s@);
        assert(tags@[4].name_spec() != s@ && tags@[5].name_spec() != s@);
        None
    }

    /// Parses a dtype name; a name that no tag has is refused with
    /// `InvalidDtype`, carrying the name.
    pub fn parse(s: &str) -> (r: Result<DtypeTag, BindingError>)
        ensures
            DtypeTag::parse_spec(s@) matches Some(t) ==> r == Ok::<DtypeTag, BindingError>(t),
            DtypeTag::parse_spec(s@) is None ==> (r matches Err(BindingError::InvalidDtype { name })
                && name@ == s@),
    {
        match DtypeTag::from_name(s) {
            Some(t) => Ok(t),
            None => Err(BindingError::InvalidDtype { name: s.to_owned() }),
        }
    }

    /// Every tag, each once, in the registry's order.
    pub fn all() -> (r: Vec<DtypeTag>)
        ensures
            r@ == seq![DtypeTag::U8, DtypeTag::U32, DtypeTag::BF16, DtypeTag::F16, DtypeTag::F32, DtypeTag::F64],
    {
        vec![DtypeTag::U8, DtypeTag::U32, DtypeTag::BF16, DtypeTag::F16, DtypeTag::F32, DtypeTag::F64]
    }

    /// The backend's dtype of the same name.
    pub fn to_backend(self) -> (r: DType)
        ensures
            dtype_name(r) == self.name_spec(),
    {
        backend_dtype_from_name(self.name()).unwrap()
    }

    /// The tag of the same name as a backend dtype, or `None` for a backend
    /// dtype that the binding does not expose. No other backend dtype has the
    /// name of `d`.
    pub fn from_backend(d: DType) -> (r: Option<DtypeTag>)
        ensures
            r == DtypeTag::parse_spec(dtype_name(d)),
            forall|e: DType| #[trigger] dtype_name(e) == dtype_name(d) ==> e == d,
    {
        DtypeTag::from_name(backend_dtype_name(d))
    }
}

/// The tag used where the host gives none: 64-bit floating point.
impl Default for DtypeTag {
    fn default() -> (r: DtypeTag)
        ensures
            r == DtypeTag::F64,
    {
        DtypeTag::F64
    }
}

} // verus!

verus! {

/// A name parses to a tag exactly when it is that tag's name: every tag's name
/// parses back to the tag, and any other string parses to no tag.
pub proof fn lemma_parse_inverts_name(s: Seq<char>, t: DtypeTag)
    ensures
        DtypeTag::parse_spec(s) == Some(t) <==> t.name_spec() == s,
{
}

} // verus!
