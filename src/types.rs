use vstd::prelude::*;

verus! {

/// Per-key flags that suppress the built-in handling of a key.
#[derive(Clone, Copy, Debug, Default, PartialEq, Eq, Structural)]
pub struct IgnoreKeydown {
    pub tab: Option<bool>,
}

impl IgnoreKeydown {
    /// The flag recorded for `key` (only "tab" is tracked).
    pub fn get(&self, key: &str) -> (r: Option<bool>)
        ensures
            key@ == "tab"@ ==> r == self.tab,
            key@ != "tab"@ ==> r.is_none(),
    {
        let k = key.to_owned();
        let tab = "tab".to_owned();
        proof {
            reveal_strlit("tab");
        }
        if k == tab {
            self.tab
        } else {
            None
        }
    }

    /// Overwrites the flags that `other` declares; keeps the others.
    pub fn assign(&mut self, other: Self)
        ensures
            final(self).tab == (if other.tab.is_some() { other.tab } else { old(self).tab }),
    {
        if other.tab.is_some() {
            self.tab = other.tab;
        }
    }
}

/// Properties of an element as a focusable.
#[derive(Clone, Copy, Debug, Default, PartialEq, Eq, Structural)]
pub struct FocusableProps {
    pub is_default: Option<bool>,
    /// Do not judge focusability by the disabled state.
    pub ignore_aria_disabled: Option<bool>,
    /// Exclude the element and its subtree from list navigation.
    pub exclude_from_mover: Option<bool>,
    /// Keys whose built-in handling is suppressed.
    pub ignore_keydown: Option<IgnoreKeydown>,
}

/// Properties of an opaque subtree.
#[derive(Clone, Copy, Debug, Default, PartialEq, Eq, Structural)]
pub struct UncontrolledProps {
    /// The subtree takes full control of Tab handling.
    pub completely: Option<bool>,
}

/// Placement hints for boundary markers.
#[derive(Clone, Copy, Debug, Default, PartialEq, Eq, Structural)]
pub struct SysProps {
    /// A code of `SysDummyInputsPositions`.
    pub dummy_inputs_position: Option<u8>,
}

/// Properties of a list.
#[derive(Clone, Copy, Debug, Default, PartialEq, Eq, Structural)]
pub struct MoverProps {
    pub direction: Option<u8>,
    pub memorize_current: Option<bool>,
    pub tabbable: Option<bool>,
    /// Wrap around at the ends.
    pub cyclic: Option<bool>,
    pub track_state: Option<bool>,
    /// A visibility level: entering from outside goes to an element at least that visible.
    pub visibility_aware: Option<u8>,
    /// Look for a default element first (true when absent).
    pub has_default: Option<bool>,
}

/// Properties of a trap.
#[derive(Clone, Copy, Debug, Default, PartialEq, Eq, Structural)]
pub struct ModalizerProps {
    pub is_always_accessible: Option<bool>,
    /// Keep focus inside when tabbing past the ends.
    pub is_trapped: Option<bool>,
}

/// Properties of a group.
#[derive(Clone, Copy, Debug, Default, PartialEq, Eq, Structural)]
pub struct GroupperProps {
    /// A code of `GroupperTabbabilities`.
    pub tabbability: Option<u8>,
    /// Entering needs an explicit action on the first element.
    pub delegated: Option<bool>,
}

/// Priorities used when focus has to be restored.
#[derive(Clone, Copy, Debug, Default, PartialEq, Eq, Structural)]
pub struct RestoreFocusOrder {
    pub history: u32,
    pub deloser_default: u32,
    pub root_default: u32,
    pub deloser_first: u32,
    pub root_first: u32,
}

/// Properties of a scope.
#[derive(Clone, Copy, Debug, Default, PartialEq, Eq, Structural)]
pub struct RootProps {
    pub restore_focus_order: Option<RestoreFocusOrder>,
}

/// The behaviors declared on an element.
#[derive(Clone, Copy, Debug, Default, PartialEq, Eq, Structural)]
pub struct TabsterAttributeProps {
    pub root: Option<RootProps>,
    pub groupper: Option<GroupperProps>,
    pub sys: Option<SysProps>,
    pub mover: Option<MoverProps>,
}

impl TabsterAttributeProps {
    /// No scope, group, list or placement hint is declared.
    pub fn is_empty(&self) -> (r: bool)
        ensures
            r == (self.root.is_none() && self.mover.is_none() && self.groupper.is_none()
                && self.sys.is_none()),
    {
        self.root.is_none() && self.mover.is_none() && self.groupper.is_none() && self.sys.is_none()
    }
}

/// What a tree walk does with a candidate.
#[derive(Clone, Copy, Debug, PartialEq, Eq, Structural)]
pub enum NodeFilterEnum {
    FilterAccept,
    FilterReject,
    FilterSkip,
    ShowElement,
}

impl NodeFilterEnum {
    /// The numeric code a DOM tree walker uses.
    pub fn value(&self) -> (r: u32)
        ensures
            *self == NodeFilterEnum::FilterAccept ==> r == 1,
            *self == NodeFilterEnum::FilterReject ==> r == 2,
            *self == NodeFilterEnum::FilterSkip ==> r == 3,
            *self == NodeFilterEnum::ShowElement ==> r == 1,
    {
        match self {
            NodeFilterEnum::FilterAccept => 1,
            NodeFilterEnum::FilterReject => 2,
            NodeFilterEnum::FilterSkip => 3,
            NodeFilterEnum::ShowElement => 1,
        }
    }
}

/// The outcome of a next/previous query.
#[derive(Clone, Copy, Debug, PartialEq, Eq, Structural)]
pub struct NextTabbable {
    pub element: Option<usize>,
    pub uncontrolled: Option<usize>,
    pub out_of_dom_order: Option<bool>,
}

/// Side results of a search.
#[derive(Clone, Copy, Debug, Default, PartialEq, Eq, Structural)]
pub struct FindFocusableOutputProps {
    /// Some focusable was skipped, or the search had no origin.
    pub out_of_dom_order: Option<bool>,
    /// The opaque subtree the found element lies in.
    pub uncontrolled: Option<usize>,
}

} // verus!

verus! {

/// The fixed inputs of one search, as each candidate decision reads them.
#[derive(Clone, Debug)]
pub struct FocusableAcceptElementState {
    pub container: usize,
    /// The element the search starts from (the container when none).
    pub from: usize,
    /// The trap the search is limited to; `None` for outside every trap.
    pub modalizer_user_id: Option<String>,
    pub is_backward: bool,
    pub ignore_accessibility: bool,
    pub include_programmatically_focusable: bool,
    pub is_find_all: bool,
    /// A keyboard navigation is in progress.
    pub tabbing: bool,
    /// Everything in this subtree is rejected.
    pub reject_elements_from: Option<usize>,
}

/// The decision on one candidate.
#[derive(Clone, Copy, Debug, PartialEq, Eq, Structural)]
pub struct Verdict {
    /// `FilterAccept`, `FilterReject` or `FilterSkip`.
    pub filter: NodeFilterEnum,
    /// The search ends with this element, whatever comes later.
    pub found: Option<usize>,
    /// Reject this subtree from now on.
    pub reject_from: Option<usize>,
    /// A focusable element was passed over.
    pub skipped: bool,
}

pub open spec fn verdict(filter: NodeFilterEnum, skipped: bool) -> Verdict {
    Verdict { filter, found: None, reject_from: None, skipped }
}

pub fn make_verdict(filter: NodeFilterEnum, skipped: bool) -> (r: Verdict)
    ensures
        r == verdict(filter, skipped),
{
    Verdict { filter, found: None, reject_from: None, skipped }
}

} // verus!

verus! {

/// An optional flag that is set to true.
pub fn flag(o: Option<bool>) -> (r: bool)
    ensures
        r == (o == Some(true)),
{
    match o {
        Some(b) => b,
        None => false,
    }
}

} // verus!
