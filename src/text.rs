//! Attribute values read case-insensitively.
use vstd::prelude::*;

verus! {

/// What `str::to_lowercase` makes of a string.
pub uninterp spec fn lower_of(s: Seq<char>) -> Seq<char>;

/// Relies on `str::to_lowercase`: the result depends on the characters alone.
#[verifier::external_body]
pub(crate) fn lowercase(s: &str) -> (r: String)
    ensures
        r@ == lower_of(s@),
{
    s.to_lowercase()
}

/// A lowercased `aria-hidden` value that hides the element.
pub fn is_true_value(lowered: &String) -> (r: bool)
    ensures
        r == (lowered@ == "true"@),
{
    let t = "true".to_owned();
    proof {
        reveal_strlit("true");
    }
    *lowered == t
}

/// A lowercased `dir` value that sets right-to-left.
pub fn is_rtl_value(lowered: &String) -> (r: bool)
    ensures
        r == (lowered@ == "rtl"@),
{
    let t = "rtl".to_owned();
    proof {
        reveal_strlit("rtl");
    }
    *lowered == t
}

} // verus!
