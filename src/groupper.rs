//! Groups: containers that must be entered before their content is tabbable.
use vstd::prelude::*;
use crate::engine::{env_fits, TabsterCore};
use crate::focusable::{first_focusable_from, first_focusable_in, is_focusable, is_focusable_spec};
use crate::mover::accepts;
use crate::root::{RootAPI, context_of, GetTabsterContextOptions, TabsterContext};
use crate::instance::replace_behaviors;
use crate::tree::{links_match, same_index, GroupperState, Tree};
use crate::search::{bounded, navigate, navigation_search};
use crate::types::{
    flag, FocusableAcceptElementState, GroupperProps, NextTabbable, NodeFilterEnum, Verdict,
};

verus! {

/// Every group on the strict ancestor chain of `i` has been entered.
pub open spec fn parents_active(t: Tree, i: int) -> bool
    decreases i,
{
    if i < 0 || i >= t.len() {
        true
    } else {
        match t.nodes@[i].parent {
            Some(p) => p >= i || ((t.nodes@[p as int].groupper matches Some(g)
                ==> g.should_tab_inside) && parents_active(t, p as int)),
            None => true,
        }
    }
}

/// The element a group is entered through: the group element itself when
/// it is focusable (and `or_container`), else the memorized first element
/// when it lies inside the group, else the first focusable descendant.
pub open spec fn groupper_first(t: Tree, env: TabsterCore, g: int, or_container: bool) -> Option<
    usize,
> {
    if or_container && is_focusable_spec(t, env, g, false, false, false) {
        Some(g as usize)
    } else {
        match t.nodes@[g].groupper {
            Some(gs) => if gs.first matches Some(f) && f != g && t.contains(g, f as int) {
                gs.first
            } else {
                first_focusable_from(t, env, g, g + 1)
            },
            None => first_focusable_from(t, env, g, g + 1),
        }
    }
}

/// Whether the group at `g` is entered: `None` when an enclosing group is not,
/// else whether it is tabbable and entered (and, with `no_if_first_is_focused`,
/// its entry element is not the focused one).
pub open spec fn groupper_is_active(
    t: Tree,
    env: TabsterCore,
    g: int,
    no_if_first_is_focused: bool,
) -> Option<bool> {
    let gs = t.nodes@[g].groupper.unwrap();
    if !parents_active(t, g) {
        None
    } else {
        let base = gs.props.tabbability.unwrap_or(0) > 0 && gs.should_tab_inside;
        if base && no_if_first_is_focused {
            Some(env.focused != groupper_first(t, env, g, true))
        } else {
            Some(base)
        }
    }
}

/// A group, named by the element it is attached to.
#[derive(Clone, Copy, Debug, PartialEq, Eq, Structural)]
pub struct Groupper {
    pub element: usize,
}

impl Groupper {
    pub open spec fn valid(&self, t: Tree) -> bool {
        t.wf() && self.element < t.len() && t.nodes@[self.element as int].groupper.is_some()
    }

    pub fn get_element(&self) -> (r: usize)
        ensures
            r == self.element,
    {
        self.element
    }

    /// See `groupper_is_active`.
    pub fn is_active(&self, t: &Tree, env: &TabsterCore, no_if_first_is_focused: bool) -> (r: Option<
        bool,
    >)
        requires
            self.valid(*t),
        ensures
            r == groupper_is_active(*t, *env, self.element as int, no_if_first_is_focused),
    {
        let g = self.element;
        let mut is_parent_active = true;
        let mut cur = g;
        loop
            invariant
                t.wf(),
                cur < t.len(),
                parents_active(*t, g as int) == (is_parent_active && parents_active(*t, cur as int)),
            ensures
                parents_active(*t, g as int) == is_parent_active,
            decreases cur,
        {
            match t.nodes[cur].parent {
                Some(p) => {
                    match t.nodes[p].groupper {
                        Some(pg) => {
                            if !pg.should_tab_inside {
                                is_parent_active = false;
                            }
                        },
                        None => {},
                    }
                    cur = p;
                },
                None => {
                    break ;
                },
            }
        }
        if !is_parent_active {
            return None;
        }
        let gs = t.nodes[g].groupper.unwrap();
        let tabbability = match gs.props.tabbability {
            Some(x) => x,
            None => 0,
        };
        let base = tabbability > 0 && gs.should_tab_inside;
        if base && no_if_first_is_focused {
            let first = self.get_first(t, env, true);
            Some(!same_index(env.focused, first))
        } else {
            Some(base)
        }
    }

    /// See `groupper_first`.
    pub fn get_first(&self, t: &Tree, env: &TabsterCore, or_container: bool) -> (r: Option<usize>)
        requires
            self.valid(*t),
        ensures
            r == groupper_first(*t, *env, self.element as int, or_container),
            r matches Some(j) ==> j < t.len(),
    {
        let g = self.element;
        if or_container && is_focusable(t, env, g, false, false, false) {
            return Some(g);
        }
        match t.nodes[g].groupper {
            Some(gs) => if gs.first.is_some() && gs.first.unwrap() != g && t.node_contains(
                g,
                gs.first.unwrap(),
            ) {
                proof {
                    assert(crate::tree::refs_ok(t.nodes@[g as int], t.len()));
                }
                gs.first
            } else {
                first_focusable_in(t, env, g)
            },
            None => first_focusable_in(t, env, g),
        }
    }
}

} // verus!

verus! {

/// The context of the parent of `g`, if it has one.
pub open spec fn parent_context(t: Tree, env: TabsterCore, g: int) -> Option<TabsterContext> {
    match t.nodes@[g].parent {
        Some(pe) => context_of(t, env, pe as int, GetTabsterContextOptions { check_rtl: false, reference_element: None }),
        None => None,
    }
}

/// An entered-check on a group named by a context.
pub open spec fn inactive(t: Tree, env: TabsterCore, g: int) -> bool {
    groupper_is_active(t, env, g, true) != Some(true)
}

/// The group's opinion on candidate `c`. It rejects what lies in an
/// inactive enclosing group inside the search scope, rejects the content of
/// an inactive group, and when the search reaches an inactive group itself,
/// ends it at the group's entry element (rejecting it when the search starts
/// there).
pub open spec fn groupper_accept_spec(
    t: Tree,
    env: TabsterCore,
    s: FocusableAcceptElementState,
    g: int,
    c: int,
) -> Option<Verdict> {
    let pctx = parent_context(t, env, g);
    let pcg = match pctx {
        Some(pc) => pc.groupper,
        None => None,
    };
    let pg = match pctx {
        Some(pc) => if pc.groupper_before_mover == Some(true) {
            pc.groupper
        } else {
            None
        },
        None => None,
    };
    let reject = Verdict {
        filter: NodeFilterEnum::FilterReject,
        found: None,
        reject_from: None,
        skipped: true,
    };
    if pg matches Some(x) && inactive(t, env, x as int) && s.container != x && t.contains(
        s.container as int,
        x as int,
    ) {
        Some(reject)
    } else if inactive(t, env, g) {
        let pge = if pg.is_some() {
            pg
        } else {
            pcg
        };
        if c == g && pcg.is_some() && (pge matches Some(x) && inactive(t, env, pcg.unwrap() as int)
            && t.contains(s.container as int, x as int) && x != s.container) {
            Some(reject)
        } else if g != c && t.contains(g, c) {
            Some(reject)
        } else {
            match groupper_first(t, env, g, true) {
                Some(f) => if accepts(t, env, s, f as int) {
                    if f != s.from {
                        Some(
                            Verdict {
                                filter: NodeFilterEnum::FilterAccept,
                                found: Some(f),
                                reject_from: Some(g as usize),
                                skipped: true,
                            },
                        )
                    } else {
                        Some(Verdict { reject_from: Some(g as usize), ..reject })
                    }
                } else {
                    None
                },
                None => None,
            }
        }
    } else {
        None
    }
}

impl Groupper {
    /// See `groupper_accept_spec`.
    pub fn accept_element(
        &self,
        t: &Tree,
        env: &TabsterCore,
        c: usize,
        state: &FocusableAcceptElementState,
    ) -> (r: Option<Verdict>)
        requires
            self.valid(*t),
            c < t.len(),
            env_fits(*t, *env),
        ensures
            r == groupper_accept_spec(*t, *env, *state, self.element as int, c as int),
            r matches Some(v) ==> (v.found matches Some(f) ==> f < t.len()) && (
            v.reject_from matches Some(x) ==> x < t.len()),
    {
        let g = self.element;
        let pctx = match t.nodes[g].parent {
            Some(pe) => RootAPI::get_tabster_context(
                t,
                env,
                pe,
                GetTabsterContextOptions { check_rtl: false, reference_element: None },
            ),
            None => None,
        };
        let pcg = match pctx {
            Some(pc) => pc.groupper,
            None => None,
        };
        let pg = match pctx {
            Some(pc) => if flag(pc.groupper_before_mover) {
                pc.groupper
            } else {
                None
            },
            None => None,
        };
        let reject = Verdict {
            filter: NodeFilterEnum::FilterReject,
            found: None,
            reject_from: None,
            skipped: true,
        };
        match pg {
            Some(x) => {
                let px = Groupper { element: x };
                if px.is_active(t, env, true) != Some(true) && state.container != x
                    && t.node_contains(state.container, x) {
                    return Some(reject);
                }
            },
            None => {},
        }
        if self.is_active(t, env, true) == Some(true) {
            return None;
        }
        let pge = if pg.is_some() {
            pg
        } else {
            pcg
        };
        if c == g {
            match (pcg, pge) {
                (Some(y), Some(x)) => {
                    let py = Groupper { element: y };
                    if py.is_active(t, env, true) != Some(true) && t.node_contains(state.container, x)
                        && x != state.container {
                        return Some(reject);
                    }
                },
                _ => {},
            }
        }
        if g != c && t.node_contains(g, c) {
            return Some(reject);
        }
        match self.get_first(t, env, true) {
            Some(f) => {
                if is_focusable(
                    t,
                    env,
                    f,
                    state.include_programmatically_focusable,
                    false,
                    state.ignore_accessibility,
                ) {
                    if f != state.from {
                        Some(
                            Verdict {
                                filter: NodeFilterEnum::FilterAccept,
                                found: Some(f),
                                reject_from: Some(g),
                                skipped: true,
                            },
                        )
                    } else {
                        Some(Verdict { reject_from: Some(g), ..reject })
                    }
                } else {
                    None
                }
            },
            None => None,
        }
    }
}

} // verus!

verus! {

/// Where tabbing goes from `current` as far as the group at `g` decides:
/// nowhere (out of order) from inside a group not entered; to the entry
/// element from outside (or from its boundary marker); within the group when
/// it is entered, cycling through it when it traps focus.
pub open spec fn groupper_next_spec(
    t: Tree,
    env: TabsterCore,
    g: int,
    current: Option<usize>,
    reference: Option<usize>,
    backward: bool,
    ignore_accessibility: Option<bool>,
) -> Option<NextTabbable> {
    let gs = t.nodes@[g].groupper.unwrap();
    let dummy = current matches Some(c) && t.nodes@[c as int].dummy_for == Some(g as usize);
    let inside = current matches Some(c) && t.contains(g, c as int);
    if !gs.should_tab_inside && inside && !dummy {
        Some(NextTabbable { element: None, uncontrolled: None, out_of_dom_order: Some(true) })
    } else if !inside || dummy {
        Some(
            NextTabbable {
                element: groupper_first(t, env, g, true),
                uncontrolled: None,
                out_of_dom_order: Some(true),
            },
        )
    } else if gs.should_tab_inside && groupper_first(t, env, g, true).is_some() {
        let first_try = navigation_search(
            t,
            env,
            bounded(g as usize, current, reference, ignore_accessibility, backward),
        );
        if first_try.0.is_none() && gs.props.tabbability == Some(2u8) {
            let wrap = navigation_search(
                t,
                env,
                bounded(g as usize, None, None, ignore_accessibility, backward),
            );
            Some(
                NextTabbable {
                    element: wrap.0,
                    uncontrolled: wrap.1.uncontrolled,
                    out_of_dom_order: Some(true),
                },
            )
        } else {
            Some(
                NextTabbable {
                    element: first_try.0,
                    uncontrolled: first_try.1.uncontrolled,
                    out_of_dom_order: Some(first_try.1.out_of_dom_order == Some(true)),
                },
            )
        }
    } else {
        Some(NextTabbable { element: None, uncontrolled: None, out_of_dom_order: Some(false) })
    }
}

impl Groupper {
    /// See `groupper_next_spec`.
    pub fn find_next_tabbable(
        &self,
        t: &Tree,
        env: &TabsterCore,
        current: Option<usize>,
        reference: Option<usize>,
        is_backward: bool,
        ignore_accessibility: Option<bool>,
    ) -> (r: Option<NextTabbable>)
        requires
            self.valid(*t),
            env_fits(*t, *env),
            current matches Some(x) ==> x < t.len(),
            reference matches Some(x) ==> x < t.len(),
        ensures
            r == groupper_next_spec(
                *t,
                *env,
                self.element as int,
                current,
                reference,
                is_backward,
                ignore_accessibility,
            ),
            r matches Some(n) ==> (n.element matches Some(x) ==> x < t.len()),
    {
        let g = self.element;
        let gs = t.nodes[g].groupper.unwrap();
        let dummy = match current {
            Some(c) => same_index(t.nodes[c].dummy_for, Some(g)),
            None => false,
        };
        let inside = match current {
            Some(c) => t.node_contains(g, c),
            None => false,
        };
        if !gs.should_tab_inside && inside && !dummy {
            return Some(NextTabbable { element: None, uncontrolled: None, out_of_dom_order: Some(true) });
        }
        let first = self.get_first(t, env, true);
        if !inside || dummy {
            return Some(NextTabbable { element: first, uncontrolled: None, out_of_dom_order: Some(true) });
        }
        if gs.should_tab_inside && first.is_some() {
            let first_try = navigate(t, env, g, current, reference, ignore_accessibility, is_backward);
            let traps = match gs.props.tabbability {
                Some(x) => x == 2,
                None => false,
            };
            if first_try.0.is_none() && traps {
                let wrap = navigate(t, env, g, None, None, ignore_accessibility, is_backward);
                Some(
                    NextTabbable {
                        element: wrap.0,
                        uncontrolled: wrap.1.uncontrolled,
                        out_of_dom_order: Some(true),
                    },
                )
            } else {
                Some(
                    NextTabbable {
                        element: first_try.0,
                        uncontrolled: first_try.1.uncontrolled,
                        out_of_dom_order: Some(flag(first_try.1.out_of_dom_order)),
                    },
                )
            }
        } else {
            Some(NextTabbable { element: None, uncontrolled: None, out_of_dom_order: Some(false) })
        }
    }
}

} // verus!

verus! {

/// The group service.
#[derive(Clone, Copy, Debug, PartialEq, Eq, Structural)]
pub struct GroupperAPI {}

impl GroupperAPI {
    /// Attaches a group with `props` to `element`: not entered, with no
    /// memorized first element. Nothing else changes.
    pub fn create_groupper(t: &mut Tree, element: usize, props: GroupperProps) -> (r: Groupper)
        requires
            old(t).wf(),
            element < old(t).len(),
        ensures
            final(t).wf(),
            links_match(*old(t)) ==> links_match(*final(t)),
            final(t).len() == old(t).len(),
            forall|j: int|
                0 <= j < old(t).len() && j != element ==> #[trigger] final(t).nodes@[j] == old(t).nodes@[j],
            final(t).nodes@[element as int] == (crate::tree::Element {
                groupper: Some(GroupperState { props, should_tab_inside: false, first: None }),
                ..old(t).nodes@[element as int]
            }),
            r.element == element,
            r.valid(*final(t)),
    {
        let root = t.nodes[element].root;
        let mover = t.nodes[element].mover;
        proof {
            assert(crate::tree::refs_ok(t.nodes@[element as int], t.len()));
        }
        replace_behaviors(
            t,
            element,
            root,
            Some(GroupperState { props, should_tab_inside: false, first: None }),
            mover,
        );
        Groupper { element }
    }
}

} // verus!
