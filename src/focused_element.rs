//! The navigation orchestrator: what is next or previous from an element.
use vstd::prelude::*;
use crate::engine::{env_fits, TabsterCore};
use crate::groupper::{groupper_next_spec, Groupper};
use crate::modalizer::{modalizer_next_spec, Modalizer};
use crate::mover::{mover_next_spec, Mover};
use crate::root::{RootAPI, context_of, context_sound, GetTabsterContextOptions, TabsterContext};
use crate::search::{bounded, navigate, navigation_search};
use crate::tree::Tree;
use crate::types::{flag, NextTabbable};

verus! {

/// The behavior that governs navigation in a context.
#[derive(Clone, Copy, Debug, PartialEq, Eq, Structural)]
pub enum What {
    Groupper(usize),
    Mover(usize),
    Modalizer(usize),
}

/// Group and list by the resolver's tie-break when both apply, else
/// whichever applies, else the trap.
pub open spec fn chosen(ctx: TabsterContext) -> Option<What> {
    if ctx.groupper.is_some() && ctx.mover.is_some() {
        if ctx.groupper_before_mover == Some(true) {
            Some(What::Groupper(ctx.groupper.unwrap()))
        } else {
            Some(What::Mover(ctx.mover.unwrap()))
        }
    } else if ctx.groupper.is_some() {
        Some(What::Groupper(ctx.groupper.unwrap()))
    } else if ctx.mover.is_some() {
        Some(What::Mover(ctx.mover.unwrap()))
    } else if ctx.modalizer.is_some() {
        Some(What::Modalizer(ctx.modalizer.unwrap()))
    } else {
        None
    }
}

pub open spec fn what_element(w: What) -> usize {
    match w {
        What::Groupper(e) => e,
        What::Mover(e) => e,
        What::Modalizer(e) => e,
    }
}

/// Escalation goes to behaviors strictly above the exhausted one.
pub open spec fn rank(ctx: TabsterContext) -> int {
    match chosen(ctx) {
        Some(w) => what_element(w) + 1,
        None => 0,
    }
}

pub open spec fn what_next(
    t: Tree,
    env: TabsterCore,
    w: What,
    current: Option<usize>,
    reference: Option<usize>,
    backward: bool,
    ignore_accessibility: Option<bool>,
) -> Option<NextTabbable> {
    match w {
        What::Groupper(e) => groupper_next_spec(t, env, e as int, current, reference, backward, ignore_accessibility),
        What::Mover(e) => mover_next_spec(t, env, e as int, current, reference, backward, ignore_accessibility),
        What::Modalizer(e) => modalizer_next_spec(t, env, e as int, current, reference, backward, ignore_accessibility),
    }
}

/// The next (or previous) element from `current` in context `ctx`. The
/// governing behavior decides; when it finds nothing for a group or a list,
/// the query escalates to the context of the behavior's parent, continuing
/// from the end of the behavior's subtree (or from its element when going
/// backward), and the result is marked out of order. With no behavior, a
/// plain search runs over the container (the scope by default).
pub open spec fn next_tabbable_spec(
    t: Tree,
    env: TabsterCore,
    ctx: TabsterContext,
    container: Option<usize>,
    current: Option<usize>,
    reference: Option<usize>,
    backward: bool,
    ignore_accessibility: Option<bool>,
) -> Option<NextTabbable>
    decreases rank(ctx),
{
    match chosen(ctx) {
        None => {
            let actual = match container {
                Some(c) => c,
                None => ctx.root,
            };
            let r = navigation_search(t, env, bounded(actual, current, reference, ignore_accessibility, backward));
            Some(
                NextTabbable {
                    element: r.0,
                    uncontrolled: r.1.uncontrolled,
                    out_of_dom_order: r.1.out_of_dom_order,
                },
            )
        },
        Some(w) => {
            let next = what_next(t, env, w, current, reference, backward, ignore_accessibility);
            if current.is_none() || next.is_none() || next.unwrap().element.is_some() {
                next
            } else {
                match w {
                    What::Modalizer(_) => next,
                    _ => {
                        let e = what_element(w);
                        match t.nodes@[e as int].parent {
                            None => next,
                            Some(pe) => match context_of(
                                t,
                                env,
                                current.unwrap() as int,
                                GetTabsterContextOptions { check_rtl: false, reference_element: Some(pe) },
                            ) {
                                None => next,
                                Some(pctx) => if rank(pctx) < rank(ctx) {
                                    let new_current = if backward {
                                        e
                                    } else if t.end(e as int) > e + 1 {
                                        (t.end(e as int) - 1) as usize
                                    } else {
                                        e
                                    };
                                    match next_tabbable_spec(
                                        t,
                                        env,
                                        pctx,
                                        container,
                                        Some(new_current),
                                        Some(pe),
                                        backward,
                                        ignore_accessibility,
                                    ) {
                                        Some(n) => Some(NextTabbable { out_of_dom_order: Some(true), ..n }),
                                        None => None,
                                    }
                                } else {
                                    next
                                },
                            },
                        }
                    },
                }
            }
        },
    }
}

/// Focus state and keyboard navigation.
#[derive(Clone, Copy, Debug, PartialEq, Eq, Structural)]
pub struct FocusedElementState {
    pub focused: Option<usize>,
}

impl FocusedElementState {
    pub fn new(focused: Option<usize>) -> (r: FocusedElementState)
        ensures
            r.focused == focused,
    {
        FocusedElementState { focused }
    }

    pub fn get_focused_element(&self) -> (r: Option<usize>)
        ensures
            r == self.focused,
    {
        self.focused
    }

    /// See `next_tabbable_spec`.
    pub fn find_next_tabbable(
        t: &Tree,
        env: &TabsterCore,
        ctx: TabsterContext,
        container: Option<usize>,
        current: Option<usize>,
        reference: Option<usize>,
        is_backward: bool,
        ignore_accessibility: Option<bool>,
    ) -> (r: Option<NextTabbable>)
        requires
            t.wf(),
            env_fits(*t, *env),
            context_sound(*t, ctx),
            container matches Some(x) ==> x < t.len(),
            current matches Some(x) ==> x < t.len(),
            reference matches Some(x) ==> x < t.len(),
        ensures
            r == next_tabbable_spec(
                *t,
                *env,
                ctx,
                container,
                current,
                reference,
                is_backward,
                ignore_accessibility,
            ),
        decreases rank(ctx),
    {
        let w = if ctx.groupper.is_some() && ctx.mover.is_some() {
            if flag(ctx.groupper_before_mover) {
                Some(What::Groupper(ctx.groupper.unwrap()))
            } else {
                Some(What::Mover(ctx.mover.unwrap()))
            }
        } else if ctx.groupper.is_some() {
            Some(What::Groupper(ctx.groupper.unwrap()))
        } else if ctx.mover.is_some() {
            Some(What::Mover(ctx.mover.unwrap()))
        } else if ctx.modalizer.is_some() {
            Some(What::Modalizer(ctx.modalizer.unwrap()))
        } else {
            None
        };
        let w = match w {
            None => {
                let actual = match container {
                    Some(c) => c,
                    None => ctx.root,
                };
                let r = navigate(t, env, actual, current, reference, ignore_accessibility, is_backward);
                return Some(
                    NextTabbable {
                        element: r.0,
                        uncontrolled: r.1.uncontrolled,
                        out_of_dom_order: r.1.out_of_dom_order,
                    },
                );
            },
            Some(w) => w,
        };
        let next = match w {
            What::Groupper(e) => Groupper { element: e }.find_next_tabbable(
                t,
                env,
                current,
                reference,
                is_backward,
                ignore_accessibility,
            ),
            What::Mover(e) => Mover { element: e }.find_next_tabbable(
                t,
                env,
                current,
                reference,
                is_backward,
                ignore_accessibility,
            ),
            What::Modalizer(e) => Modalizer { element: e }.find_next_tabbable(
                t,
                env,
                current,
                reference,
                is_backward,
                ignore_accessibility,
            ),
        };
        let cur = match current {
            None => {
                return next;
            },
            Some(c) => c,
        };
        match next {
            None => {
                return next;
            },
            Some(n) => {
                if n.element.is_some() {
                    return next;
                }
            },
        }
        let e = match w {
            What::Modalizer(_) => {
                return next;
            },
            What::Groupper(e) => e,
            What::Mover(e) => e,
        };
        let pe = match t.nodes[e].parent {
            None => {
                return next;
            },
            Some(pe) => pe,
        };
        let pctx = match RootAPI::get_tabster_context(
            t,
            env,
            cur,
            GetTabsterContextOptions { check_rtl: false, reference_element: Some(pe) },
        ) {
            None => {
                return next;
            },
            Some(x) => x,
        };
        let pw = if pctx.groupper.is_some() && pctx.mover.is_some() {
            if flag(pctx.groupper_before_mover) {
                pctx.groupper
            } else {
                pctx.mover
            }
        } else if pctx.groupper.is_some() {
            pctx.groupper
        } else if pctx.mover.is_some() {
            pctx.mover
        } else {
            pctx.modalizer
        };
        let lower = match pw {
            Some(x) => x < e,
            None => true,
        };
        if !lower {
            return next;
        }
        let new_current = if is_backward {
            e
        } else {
            match t.get_last_child(e) {
                Some(l) => l,
                None => e,
            }
        };
        match FocusedElementState::find_next_tabbable(
            t,
            env,
            pctx,
            container,
            Some(new_current),
            Some(pe),
            is_backward,
            ignore_accessibility,
        ) {
            Some(n) => Some(NextTabbable { out_of_dom_order: Some(true), ..n }),
            None => None,
        }
    }
}

} // verus!
