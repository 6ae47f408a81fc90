//! Small helpers: ids in base 36, boundary markers, ignored elements.
use vstd::prelude::*;
use crate::consts::{position_code, SysDummyInputsPositions};
use crate::tree::{Tag, Tree};
use crate::types::SysProps;

verus! {

pub open spec fn base36_digit(d: int) -> char {
    seq![
        '0', '1', '2', '3', '4', '5', '6', '7', '8', '9', 'A', 'B', 'C', 'D', 'E', 'F', 'G', 'H',
        'I', 'J', 'K', 'L', 'M', 'N', 'O', 'P', 'Q', 'R', 'S', 'T', 'U', 'V', 'W', 'X', 'Y', 'Z',
    ][d]
}

/// The base-36 digits of `n`, most significant first, upper case.
pub open spec fn base36(n: nat) -> Seq<char>
    decreases n,
{
    if n < 36 {
        seq![base36_digit(n as int)]
    } else {
        base36(n / 36).push(base36_digit((n % 36) as int))
    }
}

/// Relies on `FromIterator<char> for String`: the string holds the
/// characters in order.
#[verifier::external_body]
fn string_of_chars(v: &Vec<char>) -> (r: String)
    ensures
        r@ == v@,
{
    v.iter().collect()
}

/// `num` written in base 36 with digits `0-9A-Z`.
pub fn to_base36(num: u32) -> (r: String)
    ensures
        r@ == base36(num as nat),
{
    let table = vec![
        '0', '1', '2', '3', '4', '5', '6', '7', '8', '9', 'A', 'B', 'C', 'D', 'E', 'F', 'G', 'H',
        'I', 'J', 'K', 'L', 'M', 'N', 'O', 'P', 'Q', 'R', 'S', 'T', 'U', 'V', 'W', 'X', 'Y', 'Z',
    ];
    assert(forall|d: int| 0 <= d < 36 ==> #[trigger] table@[d] == base36_digit(d));
    let mut digits: Vec<char> = Vec::new();
    if num == 0 {
        digits.push(table[0]);
        return string_of_chars(&digits);
    }
    let mut n = num;
    while n > 0
        invariant
            table@.len() == 36,
            forall|d: int| 0 <= d < 36 ==> #[trigger] table@[d] == base36_digit(d),
            num > 0,
            n > 0 ==> base36(num as nat) == base36(n as nat) + digits@,
            n == 0 ==> base36(num as nat) == digits@,
        decreases n,
    {
        let rem = n % 36;
        let ghost old_digits = digits@;
        digits.insert(0, table[rem as usize]);
        assert(digits@ == seq![base36_digit(rem as int)] + old_digits);
        if n < 36 {
            assert(base36(n as nat) == seq![base36_digit(n as int)]);
        } else {
            assert(base36(n as nat) == base36((n / 36) as nat).push(base36_digit(rem as int)));
        }
        n = n / 36;
        assert(n > 0 ==> base36(num as nat) == base36(n as nat) + digits@);
    }
    string_of_chars(&digits)
}

/// The element is flagged to be passed over by focus searches.
pub fn should_ignore_focus(t: &Tree, i: usize) -> (r: bool)
    requires
        t.wf(),
        i < t.len(),
    ensures
        r == t.nodes@[i as int].ignore_focus,
{
    t.nodes[i].ignore_focus
}

/// For a boundary marker, the container it guards.
pub fn get_dummy_input_container(t: &Tree, i: usize) -> (r: Option<usize>)
    requires
        t.wf(),
        i < t.len(),
    ensures
        r == t.nodes@[i as int].dummy_for,
{
    t.nodes[i].dummy_for
}

/// Boundary markers go outside the container: as forced by the placement
/// hint, else for lists and tables (and when the behavior places them outside
/// by default), but never for list items and table cells.
pub open spec fn dummies_outside(tag: Tag, sys: Option<SysProps>, outside_by_default: bool) -> bool {
    match sys {
        Some(s) if s.dummy_inputs_position.is_some() => s.dummy_inputs_position.unwrap()
            == position_code(SysDummyInputsPositions::Outside),
        _ => (outside_by_default || tag == Tag::Ul || tag == Tag::Ol || tag == Tag::Table) && !(tag
            == Tag::Li || tag == Tag::Td || tag == Tag::Th),
    }
}

/// See `dummies_outside`.
pub fn dummy_inputs_outside(tag: Tag, sys: Option<SysProps>, outside_by_default: bool) -> (r: bool)
    ensures
        r == dummies_outside(tag, sys, outside_by_default),
{
    let forced = match sys {
        Some(s) => s.dummy_inputs_position,
        None => None,
    };
    match forced {
        Some(f) => f == SysDummyInputsPositions::Outside.value(),
        None => (outside_by_default || tag == Tag::Ul || tag == Tag::Ol || tag == Tag::Table) && !(tag
            == Tag::Li || tag == Tag::Td || tag == Tag::Th),
    }
}

/// Options of a boundary marker.
#[derive(Clone, Copy, Debug, PartialEq, Eq, Structural)]
pub struct DummyInputProps {
    /// Used once and removed when focused.
    pub is_phantom: Option<bool>,
    /// Placed before the content it guards.
    pub is_first: bool,
}

} // verus!

verus! {

/// What the host's layout reports of an element and its parent.
#[derive(Clone, Debug)]
pub struct StyleFacts {
    pub is_html_element: bool,
    pub has_offset_parent: bool,
    pub is_body: bool,
    /// Computed `position`, `visibility` and `display`.
    pub position: String,
    pub visibility: String,
    pub display: String,
    /// The parent exists and has an offset parent.
    pub parent_has_offset_parent: bool,
    pub parent_is_body: bool,
    /// The body's box is not empty.
    pub body_has_size: bool,
}

/// Hidden from layout: out of the offset tree without being the body or
/// fixed; `visibility: hidden`; or fixed and either `display: none` or under a
/// parent out of the offset tree that is not the body.
pub open spec fn display_none_spec(f: StyleFacts) -> bool {
    ||| ((!f.is_html_element || !f.has_offset_parent) && !f.is_body && f.position@ != "fixed"@)
    ||| f.visibility@ == "hidden"@
    ||| (f.position@ == "fixed"@ && (f.display@ == "none"@ || (!f.parent_has_offset_parent
        && !f.parent_is_body)))
}

/// See `display_none_spec`.
pub fn is_display_none(f: &StyleFacts) -> (r: bool)
    ensures
        r == display_none_spec(*f),
{
    let fixed = "fixed".to_owned();
    let hidden = "hidden".to_owned();
    let none = "none".to_owned();
    proof {
        reveal_strlit("fixed");
        reveal_strlit("hidden");
        reveal_strlit("none");
    }
    let is_fixed = f.position == fixed;
    if (!f.is_html_element || !f.has_offset_parent) && !f.is_body && !is_fixed {
        return true;
    }
    if f.visibility == hidden {
        return true;
    }
    if is_fixed {
        if f.display == none {
            return true;
        }
        if !f.parent_has_offset_parent && !f.parent_is_body {
            return true;
        }
    }
    false
}

/// Shown: not hidden from layout, in a body with a non-empty box.
pub fn is_visible(f: &StyleFacts) -> (r: bool)
    ensures
        r == (!display_none_spec(*f) && f.body_has_size),
{
    !is_display_none(f) && f.body_has_size
}

} // verus!
