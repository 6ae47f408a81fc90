//! Lists: containers with their own traversal and a preferred entry element.
use vstd::prelude::*;
use crate::consts::{VISIBILITY_PARTIALLY_VISIBLE, VISIBILITY_VISIBLE};
use crate::engine::{env_fits, TabsterCore};
use crate::focusable::{is_focusable, is_focusable_spec, is_scan_candidate, scan_candidate};
use crate::root::TabsterContext;
use crate::search::{bounded, navigate, navigation_search};
use crate::instance::replace_behaviors;
use crate::tree::{links_kept, links_match, same_index, MoverState, Tree};
use crate::types::{
    flag, FocusableAcceptElementState, MoverProps, NextTabbable, NodeFilterEnum, Verdict,
};

verus! {

/// The search's own acceptance test.
pub open spec fn accepts(t: Tree, env: TabsterCore, s: FocusableAcceptElementState, i: int) -> bool {
    is_focusable_spec(t, env, i, s.include_programmatically_focusable, false, s.ignore_accessibility)
}

/// The first element after `j - 1` in the subtree of `m` that is focusable
/// and marked as the default.
pub open spec fn default_from(t: Tree, env: TabsterCore, m: int, j: int) -> Option<usize>
    decreases t.end(m) - j,
{
    if j >= t.end(m) || j < 0 || j >= t.len() {
        None
    } else if scan_candidate(t.nodes@[j]) && is_focusable_spec(t, env, j, false, false, false) && (t.nodes@[j].focusable matches Some(
        f,
    ) && f.is_default == Some(true)) {
        Some(j as usize)
    } else {
        default_from(t, env, m, j + 1)
    }
}

/// Visible enough for a list that asks for `level`.
pub open spec fn visible_enough(v: u8, level: u8) -> bool {
    v == VISIBILITY_VISIBLE || (v == VISIBILITY_PARTIALLY_VISIBLE && level
        == VISIBILITY_PARTIALLY_VISIBLE)
}

/// The first element after `j - 1` in the subtree of `m` that the search
/// accepts and that is visible enough.
pub open spec fn visible_from(
    t: Tree,
    env: TabsterCore,
    s: FocusableAcceptElementState,
    m: int,
    level: u8,
    j: int,
) -> Option<usize>
    decreases t.end(m) - j,
{
    if j >= t.end(m) || j < 0 || j >= t.len() {
        None
    } else if scan_candidate(t.nodes@[j]) && accepts(t, env, s, j) && visible_enough(t.nodes@[j].visibility, level) {
        Some(j as usize)
    } else {
        visible_from(t, env, s, m, level, j + 1)
    }
}

/// The element a list hands focus to when entered from outside: the
/// memorized one if it lies inside the list and the search still accepts it,
/// else the default one, else a visible one.
pub open spec fn mover_target(t: Tree, env: TabsterCore, s: FocusableAcceptElementState, m: int) -> Option<
    usize,
> {
    let ms = t.nodes@[m].mover.unwrap();
    let p = ms.props;
    let memorized = if p.memorize_current == Some(true) && (ms.current matches Some(x) && x != m
        && t.contains(m, x as int) && accepts(t, env, s, x as int)) {
        ms.current
    } else {
        None
    };
    let with_default = if memorized.is_none() && p.has_default.unwrap_or(true) {
        default_from(t, env, m, m + 1)
    } else {
        memorized
    };
    if with_default.is_none() && p.visibility_aware.unwrap_or(0) != 0 {
        visible_from(t, env, s, m, p.visibility_aware.unwrap_or(0), m + 1)
    } else {
        with_default
    }
}

/// The list's opinion on a candidate. Outside keyboard navigation it only
/// rejects elements excluded from lists. During navigation, when the search
/// comes from outside the list (or from its boundary marker) and the list
/// has an entry preference, the search ends at the list's target and the rest
/// of the list is rejected.
pub open spec fn mover_accept_spec(
    t: Tree,
    env: TabsterCore,
    s: FocusableAcceptElementState,
    m: int,
    ctx: TabsterContext,
) -> Option<Verdict> {
    let p = t.nodes@[m].mover.unwrap().props;
    if !s.tabbing {
        if ctx.excluded_from_mover == Some(true) {
            Some(
                Verdict {
                    filter: NodeFilterEnum::FilterReject,
                    found: None,
                    reject_from: None,
                    skipped: false,
                },
            )
        } else {
            None
        }
    } else if (p.memorize_current == Some(true) || p.visibility_aware.unwrap_or(0) != 0
        || p.has_default.unwrap_or(true)) && (!t.contains(m, s.from as int) || t.nodes@[
        s.from as int].dummy_for == Some(m as usize)) {
        match mover_target(t, env, s, m) {
            Some(f) => Some(
                Verdict {
                    filter: NodeFilterEnum::FilterAccept,
                    found: Some(f),
                    reject_from: Some(m as usize),
                    skipped: true,
                },
            ),
            None => None,
        }
    } else {
        None
    }
}

/// A list, named by the element it is attached to.
#[derive(Clone, Copy, Debug, PartialEq, Eq, Structural)]
pub struct Mover {
    pub element: usize,
}

impl Mover {
    pub open spec fn valid(&self, t: Tree) -> bool {
        t.wf() && self.element < t.len() && t.nodes@[self.element as int].mover.is_some()
    }

    pub fn get_element(&self) -> (r: usize)
        ensures
            r == self.element,
    {
        self.element
    }

    fn find_default(&self, t: &Tree, env: &TabsterCore) -> (r: Option<usize>)
        requires
            self.valid(*t),
        ensures
            r == default_from(*t, *env, self.element as int, self.element + 1),
            r matches Some(j) ==> j < t.len(),
    {
        let m = self.element;
        let end = t.nodes[m].end;
        assert(m < t.end(m as int) <= t.len());
        let mut j = m + 1;
        while j < end
            invariant
                t.wf(),
                m < t.len(),
                m == self.element,
                end == t.end(m as int),
                end <= t.len(),
                m + 1 <= j <= end,
                default_from(*t, *env, m as int, m + 1) == default_from(*t, *env, m as int, j as int),
            decreases end - j,
        {
            let is_default = match t.nodes[j].focusable {
                Some(f) => flag(f.is_default),
                None => false,
            };
            if is_scan_candidate(&t.nodes[j]) && is_focusable(t, env, j, false, false, false) && is_default {
                return Some(j);
            }
            j = j + 1;
        }
        None
    }

    fn find_visible(&self, t: &Tree, env: &TabsterCore, s: &FocusableAcceptElementState, level: u8) -> (r:
        Option<usize>)
        requires
            self.valid(*t),
        ensures
            r == visible_from(*t, *env, *s, self.element as int, level, self.element + 1),
            r matches Some(j) ==> j < t.len(),
    {
        let m = self.element;
        let end = t.nodes[m].end;
        assert(m < t.end(m as int) <= t.len());
        let mut j = m + 1;
        while j < end
            invariant
                t.wf(),
                m < t.len(),
                m == self.element,
                end == t.end(m as int),
                end <= t.len(),
                m + 1 <= j <= end,
                visible_from(*t, *env, *s, m as int, level, m + 1) == visible_from(
                    *t,
                    *env,
                    *s,
                    m as int,
                    level,
                    j as int,
                ),
            decreases end - j,
        {
            let v = t.nodes[j].visibility;
            let enough = v == VISIBILITY_VISIBLE || (v == VISIBILITY_PARTIALLY_VISIBLE && level
                == VISIBILITY_PARTIALLY_VISIBLE);
            if is_scan_candidate(&t.nodes[j]) && is_focusable(
                t,
                env,
                j,
                s.include_programmatically_focusable,
                false,
                s.ignore_accessibility,
            ) && enough {
                return Some(j);
            }
            j = j + 1;
        }
        None
    }

    /// See `mover_target`.
    pub fn get_target(&self, t: &Tree, env: &TabsterCore, s: &FocusableAcceptElementState) -> (r:
        Option<usize>)
        requires
            self.valid(*t),
        ensures
            r == mover_target(*t, *env, *s, self.element as int),
            r matches Some(j) ==> j < t.len(),
    {
        let m = self.element;
        let ms = t.nodes[m].mover.unwrap();
        let p = ms.props;
        proof {
            assert(crate::tree::refs_ok(t.nodes@[m as int], t.len()));
        }
        let mut found: Option<usize> = None;
        if flag(p.memorize_current) {
            match ms.current {
                Some(x) => {
                    if x != m && t.node_contains(m, x) && is_focusable(
                        t,
                        env,
                        x,
                        s.include_programmatically_focusable,
                        false,
                        s.ignore_accessibility,
                    ) {
                        found = Some(x);
                    }
                },
                None => {},
            }
        }
        let has_default = match p.has_default {
            Some(b) => b,
            None => true,
        };
        if found.is_none() && has_default {
            found = self.find_default(t, env);
        }
        let level = match p.visibility_aware {
            Some(v) => v,
            None => 0,
        };
        if found.is_none() && level != 0 {
            found = self.find_visible(t, env, s, level);
        }
        found
    }

    /// See `mover_accept_spec`.
    pub fn accept_element(
        &self,
        t: &Tree,
        env: &TabsterCore,
        state: &FocusableAcceptElementState,
        ctx: &TabsterContext,
    ) -> (r: Option<Verdict>)
        requires
            self.valid(*t),
            state.from < t.len(),
        ensures
            r == mover_accept_spec(*t, *env, *state, self.element as int, *ctx),
            r matches Some(v) ==> (v.found matches Some(f) ==> f < t.len()) && (
            v.reject_from matches Some(x) ==> x < t.len()),
    {
        let m = self.element;
        if !state.tabbing {
            if flag(ctx.excluded_from_mover) {
                return Some(
                    Verdict {
                        filter: NodeFilterEnum::FilterReject,
                        found: None,
                        reject_from: None,
                        skipped: false,
                    },
                );
            } else {
                return None;
            }
        }
        let p = t.nodes[m].mover.unwrap().props;
        let wants = flag(p.memorize_current) || (match p.visibility_aware {
            Some(v) => v != 0,
            None => false,
        }) || (match p.has_default {
            Some(b) => b,
            None => true,
        });
        let from_outside = !t.node_contains(m, state.from) || crate::tree::same_index(
            t.nodes[state.from].dummy_for,
            Some(m),
        );
        if wants && from_outside {
            match self.get_target(t, env, state) {
                Some(f) => {
                    return Some(
                        Verdict {
                            filter: NodeFilterEnum::FilterAccept,
                            found: Some(f),
                            reject_from: Some(m),
                            skipped: true,
                        },
                    );
                },
                None => {},
            }
        }
        None
    }
}

} // verus!

verus! {

/// Where tabbing goes from `current` as far as the list at `m` decides:
/// from inside a list that is not tabbable, nowhere (out of order); from
/// inside a tabbable list, to the next element within it, wrapping around
/// when the list is cyclic; from outside (or from its boundary marker), into
/// the list.
pub open spec fn mover_next_spec(
    t: Tree,
    env: TabsterCore,
    m: int,
    current: Option<usize>,
    reference: Option<usize>,
    backward: bool,
    ignore_accessibility: Option<bool>,
) -> Option<NextTabbable> {
    let p = t.nodes@[m].mover.unwrap().props;
    let dummy = current matches Some(c) && t.nodes@[c as int].dummy_for == Some(m as usize);
    let inside = current matches Some(c) && t.contains(m, c as int) && !dummy;
    let first_try = navigation_search(
        t,
        env,
        bounded(m as usize, current, reference, ignore_accessibility, backward),
    );
    if inside && p.tabbable != Some(true) {
        Some(NextTabbable { element: None, uncontrolled: None, out_of_dom_order: Some(true) })
    } else if inside && first_try.0.is_none() && p.cyclic == Some(true) {
        let wrap = navigation_search(
            t,
            env,
            bounded(m as usize, None, None, ignore_accessibility, backward),
        );
        Some(
            NextTabbable {
                element: wrap.0,
                uncontrolled: wrap.1.uncontrolled,
                out_of_dom_order: Some(true),
            },
        )
    } else {
        Some(
            NextTabbable {
                element: first_try.0,
                uncontrolled: first_try.1.uncontrolled,
                out_of_dom_order: Some(first_try.1.out_of_dom_order == Some(true)),
            },
        )
    }
}

impl Mover {
    /// See `mover_next_spec`.
    pub fn find_next_tabbable(
        &self,
        t: &Tree,
        env: &TabsterCore,
        current: Option<usize>,
        reference: Option<usize>,
        is_backward: bool,
        ignore_accessibility: Option<bool>,
    ) -> (r: Option<NextTabbable>)
        requires
            self.valid(*t),
            env_fits(*t, *env),
            current matches Some(x) ==> x < t.len(),
            reference matches Some(x) ==> x < t.len(),
        ensures
            r == mover_next_spec(
                *t,
                *env,
                self.element as int,
                current,
                reference,
                is_backward,
                ignore_accessibility,
            ),
            r matches Some(n) ==> (n.element matches Some(x) ==> x < t.len()),
    {
        let m = self.element;
        let p = t.nodes[m].mover.unwrap().props;
        let dummy = match current {
            Some(c) => same_index(t.nodes[c].dummy_for, Some(m)),
            None => false,
        };
        let inside = match current {
            Some(c) => t.node_contains(m, c) && !dummy,
            None => false,
        };
        if inside && !flag(p.tabbable) {
            return Some(NextTabbable { element: None, uncontrolled: None, out_of_dom_order: Some(true) });
        }
        let first_try = navigate(t, env, m, current, reference, ignore_accessibility, is_backward);
        if inside && first_try.0.is_none() && flag(p.cyclic) {
            let wrap = navigate(t, env, m, None, None, ignore_accessibility, is_backward);
            Some(
                NextTabbable {
                    element: wrap.0,
                    uncontrolled: wrap.1.uncontrolled,
                    out_of_dom_order: Some(true),
                },
            )
        } else {
            Some(
                NextTabbable {
                    element: first_try.0,
                    uncontrolled: first_try.1.uncontrolled,
                    out_of_dom_order: Some(flag(first_try.1.out_of_dom_order)),
                },
            )
        }
    }
}

} // verus!

verus! {

/// `t2` differs from `t1` in list state only.
pub open spec fn same_but_movers(t1: Tree, t2: Tree) -> bool {
    &&& t1.len() == t2.len()
    &&& forall|j: int|
        0 <= j < t1.len() ==> #[trigger] t2.nodes@[j] == (crate::tree::Element {
            mover: t2.nodes@[j].mover,
            ..t1.nodes@[j]
        })
}

proof fn accessible_ignores_movers(t1: Tree, t2: Tree, env: TabsterCore, i: int)
    requires
        same_but_movers(t1, t2),
    ensures
        crate::focusable::is_accessible_spec(t1, env, i) == crate::focusable::is_accessible_spec(
            t2,
            env,
            i,
        ),
    decreases i,
{
    if 0 <= i < t1.len() {
        assert(t2.nodes@[i].parent == t1.nodes@[i].parent);
        match t1.nodes@[i].parent {
            Some(p) => if p < i {
                accessible_ignores_movers(t1, t2, env, p as int);
            },
            None => {},
        }
    }
}

/// List state plays no part in focusability.
pub proof fn focusable_ignores_movers(t1: Tree, t2: Tree, env: TabsterCore, i: int)
    requires
        same_but_movers(t1, t2),
        0 <= i < t1.len(),
    ensures
        is_focusable_spec(t1, env, i, false, false, false) == is_focusable_spec(
            t2,
            env,
            i,
            false,
            false,
            false,
        ),
{
    accessible_ignores_movers(t1, t2, env, i);
    match t1.nodes@[i].parent {
        Some(p) => {
            if 0 <= p < t1.len() {
                assert(t2.nodes@[p as int].tag == t1.nodes@[p as int].tag);
            }
        },
        None => {},
    }
}

/// Focusable with no relaxation.
#[verifier::opaque]
pub open spec fn plain_focusable(t: Tree, env: TabsterCore, i: int) -> bool {
    is_focusable_spec(t, env, i, false, false, false)
}

/// One step of `focus_assignment` at an element other than `k`.
proof fn focus_assignment_step(
    t: Tree,
    env: TabsterCore,
    el: int,
    deepest: usize,
    pending: bool,
    k: int,
)
    requires
        0 <= el < t.len(),
    ensures
        el == k ==> focus_assignment(t, env, el, deepest, pending, k) == (if t.nodes@[el].mover.is_some() {
            Some(deepest)
        } else {
            None
        }),
        el != k ==> focus_assignment(t, env, el, deepest, pending, k) == ({
            let pending_here = if t.nodes@[el].mover.is_some() {
                false
            } else {
                pending
            };
            let next_deepest = if !pending_here && plain_focusable(t, env, el) {
                el as usize
            } else {
                deepest
            };
            let next_pending = pending_here || plain_focusable(t, env, el);
            match t.nodes@[el].parent {
                Some(p) => if p < el {
                    focus_assignment(t, env, p as int, next_deepest, next_pending, k)
                } else {
                    None
                },
                None => None,
            }
        }),
{
    reveal(focus_assignment);
}

/// The element that the list at `k` memorizes when focus lands below it:
/// going up from the focused element, each list takes the deepest element
/// seen so far that is focusable and not inside a nearer list; `None` when
/// `k` is no list on the way up from `el`.
#[verifier::opaque]
pub open spec fn focus_assignment(
    t: Tree,
    env: TabsterCore,
    el: int,
    deepest: usize,
    pending: bool,
    k: int,
) -> Option<usize>
    decreases el,
{
    if el < 0 || el >= t.len() {
        None
    } else {
        let e = t.nodes@[el];
        if el == k {
            if e.mover.is_some() {
                Some(deepest)
            } else {
                None
            }
        } else {
            let pending_here = if e.mover.is_some() {
                false
            } else {
                pending
            };
            let next_deepest = if !pending_here && plain_focusable(t, env, el) {
                el as usize
            } else {
                deepest
            };
            let next_pending = pending_here || plain_focusable(t, env, el);
            match e.parent {
                Some(p) => if p < el {
                    focus_assignment(t, env, p as int, next_deepest, next_pending, k)
                } else {
                    None
                },
                None => None,
            }
        }
    }
}

proof fn focus_assignment_below(
    t: Tree,
    env: TabsterCore,
    el: int,
    deepest: usize,
    pending: bool,
    k: int,
)
    requires
        k > el,
    ensures
        focus_assignment(t, env, el, deepest, pending, k).is_none(),
    decreases el,
{
    reveal(focus_assignment);
    if 0 <= el < t.len() {
        let e = t.nodes@[el];
        let pending_here = if e.mover.is_some() {
            false
        } else {
            pending
        };
        let next_deepest = if !pending_here && plain_focusable(t, env, el) {
            el as usize
        } else {
            deepest
        };
        let next_pending = pending_here || plain_focusable(t, env, el);
        match e.parent {
            Some(p) => if p < el {
                focus_assignment_below(t, env, p as int, next_deepest, next_pending, k);
            },
            None => {},
        }
    }
}

/// The list state of element `k` once focus has landed on `element`.
pub open spec fn memorized_after_focus(t: Tree, env: TabsterCore, element: int, k: int) -> Option<
    MoverState,
> {
    let start = t.nodes@[element].parent;
    let assigned = match start {
        Some(p) => if p < element {
            focus_assignment(t, env, p as int, element as usize, true, k)
        } else {
            None
        },
        None => None,
    };
    match t.nodes@[k].mover {
        Some(ms) => match assigned {
            Some(v) => Some(MoverState { current: Some(v), ..ms }),
            None => Some(ms),
        },
        None => None,
    }
}

/// Sets the memorized element of the list at `k`.
fn set_current(t: &mut Tree, k: usize, v: usize)
    requires
        old(t).wf(),
        k < old(t).len(),
        v < old(t).len(),
        old(t).nodes@[k as int].mover.is_some(),
    ensures
        final(t).wf(),
        same_but_movers(*old(t), *final(t)),
        final(t).nodes@[k as int].mover == Some(
            MoverState { current: Some(v), ..old(t).nodes@[k as int].mover.unwrap() },
        ),
        forall|j: int| 0 <= j < old(t).len() && j != k ==> #[trigger] final(t).nodes@[j] == old(t).nodes@[j],
{
    let ghost t0 = *t;
    let ms = t.nodes[k].mover.unwrap();
    t.nodes[k].mover = Some(MoverState { current: Some(v), ..ms });
    proof {
        assert(forall|j: int| 0 <= j < t0.len() && j != k ==> #[trigger] t.nodes@[j] == t0.nodes@[j]);
        assert(forall|j: int| 0 <= j < t0.len() ==> #[trigger] t.end(j) == t0.end(j));
        assert forall|j: int| 0 <= j < t.len() implies crate::tree::refs_ok(#[trigger] t.nodes@[j], t.len()) by {
            assert(crate::tree::refs_ok(t0.nodes@[j], t0.len()));
        }
        assert forall|j: int| 0 <= j < t.len() implies match #[trigger] t.nodes@[j].parent {
            Some(p) => p < j && j < t.end(p as int),
            None => true,
        } by {
            assert(t.nodes@[j].parent == t0.nodes@[j].parent);
            match t0.nodes@[j].parent {
                Some(p) => {
                    assert(t0.end(p as int) == t.end(p as int));
                },
                None => {},
            }
        }
    }
}

/// Records in every list above the newly focused `element` the element it
/// should return to.
pub fn on_focus(t: &mut Tree, env: &TabsterCore, element: usize)
    requires
        old(t).wf(),
        element < old(t).len(),
    ensures
        final(t).wf(),
        links_match(*old(t)) ==> links_match(*final(t)),
        same_but_movers(*old(t), *final(t)),
        forall|k: int|
            0 <= k < old(t).len() ==> #[trigger] final(t).nodes@[k].mover == memorized_after_focus(
                *old(t),
                *env,
                element as int,
                k,
            ),
{
    let ghost t0 = *t;
    let mut deepest = element;
    let mut pending = true;
    let mut cur_opt = t.nodes[element].parent;
    proof {
        assert(same_but_movers(t0, *t));
        assert forall|k: int| 0 <= k < t0.len() implies #[trigger] t.nodes@[k].mover
            == memorized_after_focus(t0, *env, element as int, k) || (cur_opt matches Some(c) && k
            <= c) by {
            match t0.nodes@[element as int].parent {
                Some(p) => {
                    if k > p {
                        focus_assignment_below(t0, *env, p as int, element, true, k);
                    }
                },
                None => {},
            }
        }
    }
    while cur_opt.is_some()
        invariant
            t0.wf(),
            t.wf(),
            element < t0.len(),
            same_but_movers(t0, *t),
            deepest < t0.len(),
            cur_opt matches Some(c) ==> c < element,
            forall|k: int|
                0 <= k < t0.len() ==> (#[trigger] t.nodes@[k].mover == memorized_after_focus(
                    t0,
                    *env,
                    element as int,
                    k,
                ) || (cur_opt matches Some(c) && k <= c)),
            forall|k: int|
                0 <= k < t0.len() && (cur_opt matches Some(c) && k <= c) ==> #[trigger] t.nodes@[k].mover
                    == t0.nodes@[k].mover,
            forall|k: int|
                0 <= k < t0.len() && (cur_opt matches Some(c) && k <= c) ==> memorized_after_focus(
                    t0,
                    *env,
                    element as int,
                    k,
                ) == match t0.nodes@[k].mover {
                    Some(ms) => match focus_assignment(
                        t0,
                        *env,
                        cur_opt.unwrap() as int,
                        deepest,
                        pending,
                        k,
                    ) {
                        Some(v) => Some(MoverState { current: Some(v), ..ms }),
                        None => Some(ms),
                    },
                    None => None,
                },
        decreases match cur_opt {
            Some(c) => c + 1,
            None => 0,
        },
    {
        let cur = cur_opt.unwrap();
        let ghost deepest0 = deepest;
        let ghost pending0 = pending;
        let has_mover = t.nodes[cur].mover.is_some();
        if has_mover {
            set_current(t, cur, deepest);
            pending = false;
        }
        proof {
            assert(same_but_movers(t0, *t));
            focusable_ignores_movers(t0, *t, *env, cur as int);
        }
        let focusable = is_focusable(t, env, cur, false, false, false);
        assert(focusable == plain_focusable(t0, *env, cur as int)) by {
            reveal(plain_focusable);
        }
        if !pending && focusable {
            deepest = cur;
        }
        pending = pending || focusable;
        let next = t.nodes[cur].parent;
        proof {
            assert forall|k: int| 0 <= k < t0.len() && k < cur implies focus_assignment(
                t0,
                *env,
                cur as int,
                deepest0,
                pending0,
                k,
            ) == match next {
                Some(p) => focus_assignment(t0, *env, p as int, deepest, pending, k),
                None => None,
            } by {
                focus_assignment_step(t0, *env, cur as int, deepest0, pending0, k);
            }
            focus_assignment_step(t0, *env, cur as int, deepest0, pending0, cur as int);
            assert forall|k: int| 0 <= k < t0.len() && match next {
                Some(p) => p < k && k < cur,
                None => k < cur,
            } implies focus_assignment(t0, *env, cur as int, deepest0, pending0, k).is_none() by {
                focus_assignment_step(t0, *env, cur as int, deepest0, pending0, k);
                match next {
                    Some(p) => {
                        focus_assignment_below(t0, *env, p as int, deepest, pending, k);
                    },
                    None => {},
                }
            }
        }
        cur_opt = next;
    }
    proof {
        if links_match(t0) {
            assert forall|k: int| 0 <= k < t0.len() implies #[trigger] t.nodes@[k].parent
                == t0.nodes@[k].parent by {
                assert(t.nodes@[k] == (crate::tree::Element { mover: t.nodes@[k].mover, ..t0.nodes@[k] }));
            }
            assert forall|k: int| 0 <= k < t0.len() implies #[trigger] t.end(k) == t0.end(k) by {
                assert(t.nodes@[k] == (crate::tree::Element { mover: t.nodes@[k].mover, ..t0.nodes@[k] }));
            }
            links_kept(t0, *t);
        }
    }
}

} // verus!

verus! {

/// The list service.
#[derive(Clone, Copy, Debug, PartialEq, Eq, Structural)]
pub struct MoverAPI {}

impl MoverAPI {
    /// Attaches a list with `props` to `element`, with no memorized element.
    /// Nothing else changes.
    pub fn create_mover(t: &mut Tree, element: usize, props: MoverProps) -> (r: Mover)
        requires
            old(t).wf(),
            element < old(t).len(),
        ensures
            final(t).wf(),
            links_match(*old(t)) ==> links_match(*final(t)),
            final(t).len() == old(t).len(),
            forall|j: int|
                0 <= j < old(t).len() && j != element ==> #[trigger] final(t).nodes@[j] == old(t).nodes@[j],
            final(t).nodes@[element as int] == (crate::tree::Element {
                mover: Some(MoverState { props, current: None }),
                ..old(t).nodes@[element as int]
            }),
            r.element == element,
            r.valid(*final(t)),
    {
        let root = t.nodes[element].root;
        let groupper = t.nodes[element].groupper;
        proof {
            assert(crate::tree::refs_ok(t.nodes@[element as int], t.len()));
        }
        replace_behaviors(t, element, root, groupper, Some(MoverState { props, current: None }));
        Mover { element }
    }
}

impl Mover {
    /// The list's id: the index of its element.
    pub fn id(&self) -> (r: usize)
        ensures
            r == self.element,
    {
        self.element
    }
}

} // verus!
