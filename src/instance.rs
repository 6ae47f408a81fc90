//! Attaching and detaching behaviors from an element's declaration.
use vstd::prelude::*;
use crate::tree::{index_ok, links_kept, links_match, GroupperState, MoverState, Tree};
use crate::types::TabsterAttributeProps;

verus! {

/// The group an element carries after its declaration changes: declared
/// groups keep their entry state and take the new properties.
pub open spec fn next_groupper(old: Option<GroupperState>, p: Option<TabsterAttributeProps>) -> Option<
    GroupperState,
> {
    match p {
        Some(props) => match props.groupper {
            Some(gp) => match old {
                Some(g) => Some(GroupperState { props: gp, ..g }),
                None => Some(GroupperState { props: gp, should_tab_inside: false, first: None }),
            },
            None => None,
        },
        None => None,
    }
}

/// The list an element carries after its declaration changes: declared
/// lists keep their memorized element and take the new properties.
pub open spec fn next_mover(old: Option<MoverState>, p: Option<TabsterAttributeProps>) -> Option<MoverState> {
    match p {
        Some(props) => match props.mover {
            Some(mp) => match old {
                Some(m) => Some(MoverState { props: mp, ..m }),
                None => Some(MoverState { props: mp, current: None }),
            },
            None => None,
        },
        None => None,
    }
}

/// Replaces the scope flag, the group and the list attached to element `i`.
pub(crate) fn replace_behaviors(
    t: &mut Tree,
    i: usize,
    root: bool,
    groupper: Option<GroupperState>,
    mover: Option<MoverState>,
)
    requires
        old(t).wf(),
        i < old(t).len(),
        groupper matches Some(g) ==> index_ok(g.first, old(t).len()),
        mover matches Some(m) ==> index_ok(m.current, old(t).len()),
    ensures
        final(t).wf(),
        links_match(*old(t)) ==> links_match(*final(t)),
        final(t).len() == old(t).len(),
        forall|j: int| 0 <= j < old(t).len() && j != i ==> #[trigger] final(t).nodes@[j] == old(t).nodes@[j],
        final(t).nodes@[i as int] == (crate::tree::Element { root, groupper, mover, ..old(t).nodes@[i as int] }),
{
    let ghost t0 = *t;
    t.nodes[i].root = root;
    t.nodes[i].groupper = groupper;
    t.nodes[i].mover = mover;
    proof {
        assert(forall|j: int| 0 <= j < t0.len() && j != i ==> #[trigger] t.nodes@[j] == t0.nodes@[j]);
        assert(forall|j: int| 0 <= j < t0.len() ==> #[trigger] t.end(j) == t0.end(j));
        assert(forall|j: int| 0 <= j < t0.len() ==> #[trigger] t.nodes@[j].parent == t0.nodes@[j].parent);
        if links_match(t0) {
            links_kept(t0, *t);
        }
        assert forall|j: int| 0 <= j < t.len() implies crate::tree::refs_ok(#[trigger] t.nodes@[j], t.len()) by {
            assert(crate::tree::refs_ok(t0.nodes@[j], t0.len()));
        }
        assert forall|j: int| 0 <= j < t.len() implies match #[trigger] t.nodes@[j].parent {
            Some(p) => p < j && j < t.end(p as int),
            None => true,
        } by {
            match t0.nodes@[j].parent {
                Some(p) => {
                    assert(t0.end(p as int) == t.end(p as int));
                },
                None => {},
            }
        }
    }
}

/// Applies the behaviors declared on element `i` (`None` when the
/// declaration is removed): a declared scope, group or list is attached,
/// one left out is detached. Nothing else changes.
pub fn update_tabster_by_attribute(t: &mut Tree, i: usize, new_props: Option<TabsterAttributeProps>)
    requires
        old(t).wf(),
        i < old(t).len(),
    ensures
        final(t).wf(),
        links_match(*old(t)) ==> links_match(*final(t)),
        final(t).len() == old(t).len(),
        forall|j: int| 0 <= j < old(t).len() && j != i ==> #[trigger] final(t).nodes@[j] == old(t).nodes@[j],
        final(t).nodes@[i as int] == (crate::tree::Element {
            root: new_props matches Some(p) && p.root.is_some(),
            groupper: next_groupper(old(t).nodes@[i as int].groupper, new_props),
            mover: next_mover(old(t).nodes@[i as int].mover, new_props),
            ..old(t).nodes@[i as int]
        }),
{
    let ghost t0 = *t;
    let old_g = t.nodes[i].groupper;
    let old_m = t.nodes[i].mover;
    let (root, groupper, mover) = match new_props {
        Some(p) => {
            let g = match p.groupper {
                Some(gp) => match old_g {
                    Some(g) => Some(GroupperState { props: gp, ..g }),
                    None => Some(GroupperState { props: gp, should_tab_inside: false, first: None }),
                },
                None => None,
            };
            let m = match p.mover {
                Some(mp) => match old_m {
                    Some(m) => Some(MoverState { props: mp, ..m }),
                    None => Some(MoverState { props: mp, current: None }),
                },
                None => None,
            };
            (p.root.is_some(), g, m)
        },
        None => (false, None, None),
    };
    t.nodes[i].root = root;
    t.nodes[i].groupper = groupper;
    t.nodes[i].mover = mover;
    proof {
        assert(forall|j: int| 0 <= j < t0.len() && j != i ==> #[trigger] t.nodes@[j] == t0.nodes@[j]);
        assert(forall|j: int| 0 <= j < t0.len() ==> #[trigger] t.end(j) == t0.end(j));
        assert(forall|j: int| 0 <= j < t0.len() ==> #[trigger] t.nodes@[j].parent == t0.nodes@[j].parent);
        if links_match(t0) {
            links_kept(t0, *t);
        }
        assert forall|j: int| 0 <= j < t.len() implies crate::tree::refs_ok(#[trigger] t.nodes@[j], t.len()) by {
            assert(crate::tree::refs_ok(t0.nodes@[j], t0.len()));
        }
        assert forall|j: int| 0 <= j < t.len() implies match #[trigger] t.nodes@[j].parent {
            Some(p) => p < j && j < t.end(p as int),
            None => true,
        } by {
            assert(t.nodes@[j].parent == t0.nodes@[j].parent);
            match t0.nodes@[j].parent {
                Some(p) => {
                    assert(t0.end(p as int) == t.end(p as int));
                },
                None => {},
            }
        }
    }
}

} // verus!
