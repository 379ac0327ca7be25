//! The permalink structure of a site: the tags a post's address is made of.

use vstd::prelude::*;

use crate::strings::{joined_by, split_at_slashes};
use crate::wp_rewrite::rewrite_code::RewriteCode;

verus! {

/// The tags of a site's permalinks, in order. Without tags a post is
/// addressed as `/?p=123`.
#[derive(Debug, PartialEq, Eq)]
pub struct PermalinkStructure {
    pub rewrite_codes: Option<Vec<RewriteCode>>,
}

/// A structure with a part that is no tag.
#[derive(Debug, PartialEq, Eq)]
pub struct PermalinkStructureParseError(pub String);

impl PermalinkStructureParseError {
    /// The message: what went wrong and why.
    pub open spec fn message(self) -> Seq<char> {
        "Could not parse structure: "@ + self.0@
    }

    pub fn to_string(&self) -> (r: String)
        ensures
            r@ == self.message(),
    {
        let mut out = "Could not parse structure: ".to_owned();
        out.append(self.0.as_str());
        out
    }
}

/// The parts that are not empty, in order.
pub open spec fn non_empty(parts: Seq<&str>) -> Seq<&str>
    decreases parts.len(),
{
    if parts.len() == 0 {
        Seq::empty()
    } else if parts.last()@.len() > 0 {
        non_empty(parts.drop_last()).push(parts.last())
    } else {
        non_empty(parts.drop_last())
    }
}

/// Whether the part may stand in a structure: it is empty or writes a tag.
pub open spec fn is_admitted(part: &str) -> bool {
    part@.len() == 0 || RewriteCode::is_tag(part@)
}

/// Whether `r` is what reading the parts gives: the tags of the parts that
/// are not empty, in order, where each of them writes a tag; otherwise an
/// error that names the first part that writes none.
pub open spec fn is_reading_of(
    r: Result<PermalinkStructure, PermalinkStructureParseError>,
    parts: Seq<&str>,
) -> bool {
    &&& r is Ok <==> forall|i: int| 0 <= i < parts.len() ==> is_admitted(#[trigger] parts[i])
    &&& r is Ok ==> {
        &&& r->Ok_0.rewrite_codes is Some
        &&& r->Ok_0.rewrite_codes->0@.len() == non_empty(parts).len()
        &&& forall|k: int|
            0 <= k < non_empty(parts).len() ==> (
            #[trigger] r->Ok_0.rewrite_codes->0@[k]).is_written(non_empty(parts)[k]@)
    }
    &&& r is Err ==> exists|i: int|
        0 <= i < parts.len() && !is_admitted(#[trigger] parts[i]) && r->Err_0.0@
            == "Could not convert rewrite code: "@ + parts[i]@ && forall|j: int|
            0 <= j < i ==> is_admitted(#[trigger] parts[j])
}

/// Whether the parts are what stands between the slashes of `s`, empty
/// parts included.
pub open spec fn is_split_of(parts: Seq<&str>, s: Seq<char>) -> bool {
    &&& parts.len() >= 1
    &&& joined_by(parts, '/') == s
    &&& forall|i: int, j: int| 0 <= i < parts.len() && 0 <= j < parts[i]@.len() ==> parts[i]@[j] != '/'
}

impl PermalinkStructure {
    /// The structure without tags.
    pub fn new() -> (r: Self)
        ensures
            r.rewrite_codes is None,
    {
        Self { rewrite_codes: None }
    }

    /// Reads the tags from parts that are already split. Succeeds exactly
    /// when every part that is not empty writes a tag; the tags then stand
    /// in the order of their parts. Otherwise the error names the first part
    /// that writes none.
    pub fn from_parts(parts: &Vec<&str>) -> (r: Result<
        PermalinkStructure,
        PermalinkStructureParseError,
    >)
        ensures
            is_reading_of(r, parts@),
    {
        let mut codes: Vec<RewriteCode> = Vec::new();
        let mut i: usize = 0;
        proof {
            assert(parts@.take(0) =~= Seq::<&str>::empty());
        }
        while i < parts.len()
            invariant
                i <= parts@.len(),
                forall|j: int| 0 <= j < i ==> is_admitted(#[trigger] parts@[j]),
                codes@.len() == non_empty(parts@.take(i as int)).len(),
                forall|k: int|
                    0 <= k < codes@.len() ==> (#[trigger] codes@[k]).is_written(
                        non_empty(parts@.take(i as int))[k]@,
                    ),
            decreases parts@.len() - i,
        {
            let part = parts[i];
            proof {
                assert(parts@.take(i + 1).drop_last() =~= parts@.take(i as int));
            }
            if part.unicode_len() > 0 {
                match RewriteCode::parse(part) {
                    Ok(code) => {
                        codes.push(code);
                    },
                    Err(e) => {
                        assert(!is_admitted(parts@[i as int]));
                        return Err(PermalinkStructureParseError(e.to_string()));
                    },
                }
            }
            i = i + 1;
        }
        proof {
            assert(parts@.take(i as int) =~= parts@);
        }
        Ok(PermalinkStructure { rewrite_codes: Some(codes) })
    }

    /// Reads a structure such as `/%year%/%monthnum%/%postname%/`: tags
    /// separated by slashes. Slashes at either end or in a row are of no
    /// account.
    pub fn parse(s: &str) -> (r: Result<PermalinkStructure, PermalinkStructureParseError>)
        ensures
            exists|parts: Seq<&str>| is_split_of(parts, s@) && is_reading_of(r, parts),
    {
        let parts = split_at_slashes(s);
        let r = Self::from_parts(&parts);
        assert(is_split_of(parts@, s@) && is_reading_of(r, parts@));
        r
    }
}

impl TryFrom<&str> for PermalinkStructure {
    type Error = PermalinkStructureParseError;

    fn try_from(s: &str) -> (r: Result<PermalinkStructure, PermalinkStructureParseError>)
        ensures
            exists|parts: Seq<&str>| is_split_of(parts, s@) && is_reading_of(r, parts),
    {
        PermalinkStructure::parse(s)
    }
}

impl vstd::std_specs::convert::TryFromSpecImpl<&str> for PermalinkStructure {
    open spec fn obeys_try_from_spec() -> bool {
        false
    }

    open spec fn try_from_spec(s: &str) -> Result<
        PermalinkStructure,
        PermalinkStructureParseError,
    > {
        Ok(PermalinkStructure { rewrite_codes: None })
    }
}

} // verus!
