//! Facts about the decision and the searches, proved from their definitions.
use vstd::prelude::*;
use crate::engine::{ModalizerAPI, TabsterCore};
use crate::focusable::{
    checked_radio_before, decide, decide_managed, first_focusable_from, is_accessible_spec,
    is_focusable_spec, is_hidden_spec, is_radio_spec, select_behaviors,
};
use crate::mover::{accepts, default_from, visible_from};
use crate::groupper::{groupper_first, groupper_next_spec, inactive};
use crate::modalizer::{holds_active_part, modalizer_accept_spec};
use crate::focused_element::{chosen, What};
use crate::root::{
    context_of, empty_walk, id_view, user_id_at, walk_from, walk_step, ContextWalk,
    GetTabsterContextOptions, TabsterContext,
};
use crate::search::{initial_state, search_result, walk_all, FindAllProps, FindFocusableProps};
use crate::tree::{is_ancestor_or_self, Tag, Tree};
use crate::types::{FocusableAcceptElementState, NodeFilterEnum};

verus! {

pub open spec fn plain_options() -> GetTabsterContextOptions {
    GetTabsterContextOptions { check_rtl: false, reference_element: None }
}

/// Every decision is one of accept, reject and skip, and the search
/// container itself is never accepted.
pub proof fn decide_is_total(t: Tree, env: TabsterCore, s: FocusableAcceptElementState, c: int)
    ensures
        decide(t, env, s, c).filter == NodeFilterEnum::FilterAccept || decide(t, env, s, c).filter
            == NodeFilterEnum::FilterReject || decide(t, env, s, c).filter
            == NodeFilterEnum::FilterSkip,
        c == s.container ==> decide(t, env, s, c).filter == NodeFilterEnum::FilterSkip,
{
    reveal(decide);
}

/// A search on a fixed tree with fixed inputs gives the same result every
/// time it runs.
pub proof fn search_is_deterministic(
    t: Tree,
    env: TabsterCore,
    p: FindFocusableProps,
    q: FindFocusableProps,
    tabbing: bool,
)
    requires
        p == q,
    ensures
        search_result(t, env, p, tabbing) == search_result(t, env, q, tabbing),
{
}

proof fn checked_radio_is_checked(t: Tree, name: Seq<char>, k: int)
    requires
        t.wf(),
    ensures
        checked_radio_before(t, name, k) matches Some(x) ==> 0 <= x < t.len() && t.nodes@[
            x as int].checked,
    decreases k,
{
    if k > 0 && k <= t.len() {
        checked_radio_is_checked(t, name, k - 1);
    }
}

/// An unchecked radio whose group has a checked radio is never accepted as
/// itself by a single search: browsers stop only on the checked one.
pub proof fn unchecked_radio_is_passed_over(
    t: Tree,
    env: TabsterCore,
    s: FocusableAcceptElementState,
    c: int,
)
    requires
        t.wf(),
        0 <= c < t.len(),
        !s.is_find_all,
        is_radio_spec(t.nodes@[c]),
        !t.nodes@[c].checked,
        checked_radio_before(t, t.nodes@[c].name@, t.len()).is_some(),
    ensures
        !(decide(t, env, s, c).filter == NodeFilterEnum::FilterAccept && decide(
            t,
            env,
            s,
            c,
        ).found.is_none()),
{
    reveal(decide);
    checked_radio_is_checked(t, t.nodes@[c].name@, t.len());
}

/// Below a hidden element nothing is accessible.
pub proof fn hidden_ancestor_blocks_access(t: Tree, env: TabsterCore, a: int, c: int)
    requires
        0 <= a < t.len(),
        is_ancestor_or_self(t, a, c),
        is_hidden_spec(env, t.nodes@[a]),
    ensures
        !is_accessible_spec(t, env, c),
    decreases c,
{
    if c != a {
        let p = t.nodes@[c].parent.unwrap();
        hidden_ancestor_blocks_access(t, env, a, p as int);
    }
}

/// An element under a hidden ancestor (one whose hidden state no trap takes
/// over) is never accepted by a search that checks accessibility, however
/// focusable it is itself; embedded frames are the one kind accepted whole.
pub proof fn hidden_subtree_is_excluded(
    t: Tree,
    env: TabsterCore,
    s: FocusableAcceptElementState,
    c: int,
    a: int,
)
    requires
        0 <= c < t.len(),
        0 <= a < t.len(),
        is_ancestor_or_self(t, a, c),
        is_hidden_spec(env, t.nodes@[a]),
        !s.ignore_accessibility,
        t.nodes@[c].tag != Tag::IFrame,
        t.nodes@[c].tag != Tag::WebView,
    ensures
        decide(t, env, s, c).filter != NodeFilterEnum::FilterAccept,
{
    reveal(decide);
    hidden_ancestor_blocks_access(t, env, a, c);
}

/// While a trap is active and the search is limited to it, an element of
/// another trap that is not always accessible is never accepted.
pub proof fn other_trap_is_excluded(
    t: Tree,
    env: TabsterCore,
    s: FocusableAcceptElementState,
    c: int,
    ctx: TabsterContext,
)
    requires
        env.modalizer.is_some(),
        s.modalizer_user_id.is_some(),
        id_view(s.modalizer_user_id) == id_view(env.active_id()),
        context_of(t, env, c, plain_options()) == Some(ctx),
        ctx.modalizer matches Some(m) && t.nodes@[m as int].modalizer matches Some(ms)
            && ms.props.is_always_accessible != Some(true),
        id_view(user_id_at(t, ctx.modalizer)) != id_view(s.modalizer_user_id),
    ensures
        decide(t, env, s, c).filter != NodeFilterEnum::FilterAccept,
{
    reveal(decide);
    if c != s.container && t.contains(s.container as int, c) && t.nodes@[c].dummy_for.is_none() && !(
    s.reject_elements_from matches Some(r) && t.contains(r as int, c)) && !t.nodes@[c].ignore_focus
        && t.nodes@[c].tag != Tag::IFrame && t.nodes@[c].tag != Tag::WebView && (
    s.ignore_accessibility || is_accessible_spec(t, env, c)) {
        let api = env.modalizer.unwrap();
        assert(modalizer_accept_spec(t, api, s, c, ctx).is_some());
        assert(decide_managed(t, env, s, c, ctx).filter != NodeFilterEnum::FilterAccept);
    }
}

/// The traps never reject an element of an always-accessible trap, whichever
/// trap is active, when the search is limited to no trap or to the active
/// one: they only pass over an element that holds part of the active trap,
/// to look inside it.
pub proof fn always_accessible_trap_is_open(
    t: Tree,
    api: ModalizerAPI,
    s: FocusableAcceptElementState,
    c: int,
    ctx: TabsterContext,
)
    requires
        s.modalizer_user_id.is_none() || id_view(s.modalizer_user_id) == id_view(api.active_id),
        ctx.modalizer matches Some(m) && t.nodes@[m as int].modalizer matches Some(ms)
            && ms.props.is_always_accessible == Some(true),
    ensures
        modalizer_accept_spec(t, api, s, c, ctx) == (if s.modalizer_user_id.is_some()
            && holds_active_part(t, api, c) {
            Some(NodeFilterEnum::FilterSkip)
        } else {
            None
        }),
{
}

/// Entering a group from outside (or from its boundary marker) lands on the
/// group's entry element: the group element when it is focusable, else its
/// memorized first element, else its first focusable descendant.
pub proof fn group_is_entered_through_its_first(
    t: Tree,
    env: TabsterCore,
    g: int,
    current: Option<usize>,
    reference: Option<usize>,
    backward: bool,
    ignore_accessibility: Option<bool>,
)
    requires
        current matches Some(x) ==> !t.contains(g, x as int),
    ensures
        groupper_next_spec(t, env, g, current, reference, backward, ignore_accessibility)
            == Some(
            crate::types::NextTabbable {
                element: groupper_first(t, env, g, true),
                uncontrolled: None,
                out_of_dom_order: Some(true),
            },
        ),
{
}

/// A search never stops inside a group that is not entered: an element
/// below such a group, whose context names the group, is rejected when the
/// group lies inside the search container and neither a trap nor a list has
/// a say.
pub proof fn inactive_group_content_is_rejected(
    t: Tree,
    env: TabsterCore,
    s: FocusableAcceptElementState,
    c: int,
    g: int,
    ctx: TabsterContext,
)
    requires
        env.modalizer.is_none(),
        c != s.container,
        t.contains(s.container as int, c),
        t.nodes@[c].dummy_for.is_none(),
        s.reject_elements_from.is_none(),
        !t.nodes@[c].ignore_focus,
        t.nodes@[c].tag != Tag::IFrame,
        t.nodes@[c].tag != Tag::WebView,
        s.ignore_accessibility || is_accessible_spec(t, env, c),
        context_of(t, env, c, plain_options()) == Some(ctx),
        ctx.groupper == Some(g as usize),
        ctx.mover.is_none(),
        context_of(t, env, s.from as int, plain_options()) matches Some(fc) ==> fc.mover.is_none(),
        g != s.container,
        t.contains(s.container as int, g),
        g != c,
        t.contains(g, c),
        inactive(t, env, g),
    ensures
        decide(t, env, s, c).filter == NodeFilterEnum::FilterReject,
{
    reveal(decide);
}

} // verus!

verus! {

/// A scope, a trap, a group or a list is attached.
pub open spec fn structural(e: crate::tree::Element) -> bool {
    e.root || e.groupper.is_some() || e.mover.is_some() || e.modalizer.is_some()
}

/// From `x` up to `stop` by parent links, no element before `stop` carries a
/// scope, a trap, a group or a list (other declarations may be there).
pub open spec fn plain_path(t: Tree, x: int, stop: int) -> bool
    decreases x,
{
    if x == stop {
        true
    } else if x < 0 || x >= t.len() || structural(t.nodes@[x]) {
        false
    } else {
        match t.nodes@[x].parent {
            Some(p) => p < x && plain_path(t, p as int, stop),
            None => false,
        }
    }
}

/// The parent of `x` starts a plain path up to `stop`.
pub open spec fn plain_above(t: Tree, x: int, stop: int) -> bool {
    0 <= x < t.len() && match t.nodes@[x].parent {
        Some(p) => p < x && plain_path(t, p as int, stop),
        None => false,
    }
}

/// The part of a context walk that names behaviors.
pub open spec fn walk_key(w: ContextWalk) -> (
    Option<usize>,
    Option<usize>,
    Option<usize>,
    Option<usize>,
    Option<bool>,
) {
    (w.root, w.modalizer, w.groupper, w.mover, w.groupper_before_mover)
}

/// Which behaviors a walk ends with depends only on which it started with.
pub proof fn walk_key_congruent(
    t: Tree,
    env: TabsterCore,
    element: int,
    w1: ContextWalk,
    w2: ContextWalk,
    y: int,
)
    requires
        walk_key(w1) == walk_key(w2),
    ensures
        walk_key(walk_from(t, env, element, false, w1, y)) == walk_key(
            walk_from(t, env, element, false, w2, y),
        ),
    decreases y,
{
    if !(y < 0 || y >= t.len() || w1.root.is_some()) {
        let a = walk_step(t, env, element, false, w1, y);
        let b = walk_step(t, env, element, false, w2, y);
        assert(walk_key(a) == walk_key(b));
        match t.nodes@[y].parent {
            Some(p) => if p < y {
                walk_key_congruent(t, env, element, a, b, p as int);
            },
            None => {},
        }
    }
}

/// Elements without a scope, trap, group or list leave the behaviors a
/// context walk names as they are.
pub proof fn plain_path_keeps_walk(
    t: Tree,
    env: TabsterCore,
    element: int,
    w: ContextWalk,
    x: int,
    stop: int,
)
    requires
        plain_path(t, x, stop),
        w.root.is_none(),
    ensures
        walk_key(walk_from(t, env, element, false, w, x)) == walk_key(
            walk_from(t, env, element, false, w, stop),
        ),
    decreases x,
{
    if x != stop {
        let p = t.nodes@[x].parent.unwrap();
        let w2 = walk_step(t, env, element, false, w, x);
        assert(walk_key(w2) == walk_key(w));
        assert(walk_from(t, env, element, false, w, x) == walk_from(t, env, element, false, w2, p as int));
        plain_path_keeps_walk(t, env, element, w2, p as int, stop);
        walk_key_congruent(t, env, element, w2, w, stop);
    }
}

/// A plain path climbs through ancestors.
pub proof fn plain_path_contains(t: Tree, x: int, stop: int)
    requires
        t.wf(),
        0 <= x < t.len(),
        plain_path(t, x, stop),
    ensures
        t.contains(stop, x),
    decreases x,
{
    if x != stop {
        let p = t.nodes@[x].parent.unwrap() as int;
        assert(p < x && x < t.end(p));
        plain_path_contains(t, p, stop);
        if stop < p {
            assert(t.end(p) <= t.end(stop));
        }
    } else {
        assert(x < t.end(x));
    }
}

/// Only a group is attached.
pub open spec fn group_only(t: Tree, i: int) -> bool {
    let e = t.nodes@[i];
    e.groupper.is_some() && e.mover.is_none() && e.modalizer.is_none() && !e.root
}

/// Only a list is attached.
pub open spec fn list_only(t: Tree, i: int) -> bool {
    let e = t.nodes@[i];
    e.mover.is_some() && e.groupper.is_none() && e.modalizer.is_none() && !e.root
}

/// Only a scope is attached.
pub open spec fn scope_only(t: Tree, i: int) -> bool {
    let e = t.nodes@[i];
    e.root && e.mover.is_none() && e.groupper.is_none() && e.modalizer.is_none()
}

/// For an element below a group and a list (on two elements, one above the
/// other) and a scope above both, with no other scope, trap, group or list
/// from the element up to the scope (other declarations may be there), the
/// context names the scope, the group and the list, and navigation is
/// governed by whichever of group and list is nearer to the element.
pub proof fn nearer_of_group_and_list_governs(
    t: Tree,
    env: TabsterCore,
    e: int,
    near: int,
    far: int,
    scope: int,
    near_is_group: bool,
)
    requires
        t.wf(),
        0 <= e < t.len(),
        plain_path(t, e, near),
        plain_above(t, near, far),
        plain_above(t, far, scope),
        0 <= scope < t.len(),
        near != e,
        if near_is_group {
            group_only(t, near) && list_only(t, far)
        } else {
            list_only(t, near) && group_only(t, far)
        },
        scope_only(t, scope),
    ensures
        context_of(t, env, e, plain_options()) matches Some(ctx) && ctx.root == scope
            && ctx.groupper == Some((if near_is_group {
            near
        } else {
            far
        }) as usize) && ctx.mover == Some((if near_is_group {
            far
        } else {
            near
        }) as usize) && chosen(ctx) == Some(
            if near_is_group {
                What::Groupper(near as usize)
            } else {
                What::Mover(near as usize)
            },
        ),
{
    let w0 = empty_walk();
    plain_path_keeps_walk(t, env, e, w0, e, near);
    plain_path_contains(t, e, near);
    let pn = t.nodes@[near].parent.unwrap() as int;
    plain_path_contains(t, pn, far);
    assert(t.contains(far, e)) by {
        assert(pn < near && near < t.end(pn));
        if far < pn {
            assert(t.end(pn) <= t.end(far));
        }
        if far < near {
            assert(t.end(near) <= t.end(far));
        }
    }
    let w1 = walk_step(t, env, e, false, w0, near);
    assert(walk_from(t, env, e, false, w0, near) == walk_from(t, env, e, false, w1, pn));
    plain_path_keeps_walk(t, env, e, w1, pn, far);
    let pf = t.nodes@[far].parent.unwrap() as int;
    let w2 = walk_step(t, env, e, false, w1, far);
    assert(walk_from(t, env, e, false, w1, far) == walk_from(t, env, e, false, w2, pf));
    plain_path_keeps_walk(t, env, e, w2, pf, scope);
    let w3 = walk_step(t, env, e, false, w2, scope);
    assert(w3.root == Some(scope as usize));
    match t.nodes@[scope].parent {
        Some(ps) => {
            assert(walk_from(t, env, e, false, w3, ps as int) == w3);
        },
        None => {},
    }
    assert(walk_from(t, env, e, false, w2, scope) == w3);
    assert(walk_key(walk_from(t, env, e, false, w0, e)) == walk_key(w3));
}

} // verus!

verus! {

/// What a search that checks accessibility may hand out: an accessible
/// element, or an embedded frame taken whole.
pub open spec fn may_be_found(t: Tree, env: TabsterCore, f: int) -> bool {
    is_accessible_spec(t, env, f) || t.nodes@[f].tag == Tag::IFrame || t.nodes@[f].tag
        == Tag::WebView
}

proof fn default_is_focusable(t: Tree, env: TabsterCore, m: int, j: int)
    ensures
        default_from(t, env, m, j) matches Some(x) ==> is_focusable_spec(
            t,
            env,
            x as int,
            false,
            false,
            false,
        ),
    decreases t.end(m) - j,
{
    if !(j >= t.end(m) || j < 0 || j >= t.len()) {
        default_is_focusable(t, env, m, j + 1);
    }
}

proof fn visible_is_accepted(
    t: Tree,
    env: TabsterCore,
    s: FocusableAcceptElementState,
    m: int,
    level: u8,
    j: int,
)
    ensures
        visible_from(t, env, s, m, level, j) matches Some(x) ==> accepts(t, env, s, x as int),
    decreases t.end(m) - j,
{
    if !(j >= t.end(m) || j < 0 || j >= t.len()) {
        visible_is_accepted(t, env, s, m, level, j + 1);
    }
}

/// Whatever a decision accepts, directly or by handing the search to
/// another element, may be found.
pub proof fn accepted_may_be_found(t: Tree, env: TabsterCore, s: FocusableAcceptElementState, c: int)
    requires
        t.wf(),
        0 <= c < t.len(),
        !s.ignore_accessibility,
        decide(t, env, s, c).filter == NodeFilterEnum::FilterAccept,
    ensures
        may_be_found(
            t,
            env,
            match decide(t, env, s, c).found {
                Some(f) => f as int,
                None => c,
            },
        ),
{
    reveal(decide);
    let opts = GetTabsterContextOptions { check_rtl: false, reference_element: None };
    match context_of(t, env, c, opts) {
        Some(ctx) => {
            let from_mover = match context_of(t, env, s.from as int, opts) {
                Some(fc) => fc.mover,
                None => None,
            };
            let (g, m) = select_behaviors(t, s.container as int, ctx.groupper, ctx.mover, from_mover);
            match m {
                Some(mm) => {
                    let ms = t.nodes@[mm as int].mover.unwrap();
                    default_is_focusable(t, env, mm as int, mm + 1);
                    visible_is_accepted(
                        t,
                        env,
                        s,
                        mm as int,
                        ms.props.visibility_aware.unwrap_or(0),
                        mm + 1,
                    );
                },
                None => {},
            }
        },
        None => {},
    }
}

/// Every element a collecting walk gathers may be found, when the walk
/// checks accessibility.
pub proof fn collected_may_be_found(
    t: Tree,
    env: TabsterCore,
    s: FocusableAcceptElementState,
    i: int,
    descend: bool,
    acc: Seq<usize>,
    skipped: bool,
)
    requires
        t.wf(),
        !s.ignore_accessibility,
        forall|k: int| 0 <= k < acc.len() ==> may_be_found(t, env, #[trigger] acc[k] as int),
    ensures
        forall|k: int|
            0 <= k < walk_all(t, env, s, i, descend, acc, skipped).0.len() ==> may_be_found(
                t,
                env,
                #[trigger] walk_all(t, env, s, i, descend, acc, skipped).0[k] as int,
            ),
    decreases t.len() - i,
{
    if i < 0 || i >= t.len() || s.container >= t.len() {
        assert(walk_all(t, env, s, i, descend, acc, skipped).0 == acc);
    } else {
        let next = if descend && i + 1 < t.end(i) {
            i + 1
        } else {
            t.end(i)
        };
        if next <= i || next >= t.end(s.container as int) || next >= t.len() {
            assert(walk_all(t, env, s, i, descend, acc, skipped).0 == acc);
        } else {
            let v = decide(t, env, s, next);
            let sk = skipped || v.skipped;
            if v.filter == NodeFilterEnum::FilterAccept {
                let f = match v.found {
                    Some(f) => f,
                    None => next as usize,
                };
                accepted_may_be_found(t, env, s, next);
                let s2 = FocusableAcceptElementState {
                    from: f,
                    reject_elements_from: if v.reject_from.is_some() {
                        v.reject_from
                    } else {
                        s.reject_elements_from
                    },
                    ..s
                };
                let acc2 = acc.push(f);
                assert forall|k: int| 0 <= k < acc2.len() implies may_be_found(t, env, #[trigger] acc2[k] as int) by {
                    if k < acc.len() {
                        assert(acc2[k] == acc[k]);
                    }
                }
                collected_may_be_found(t, env, s2, next, true, acc2, sk);
                assert(walk_all(t, env, s, i, descend, acc, skipped) == walk_all(
                    t,
                    env,
                    s2,
                    next,
                    true,
                    acc2,
                    sk,
                ));
            } else if v.filter == NodeFilterEnum::FilterReject {
                collected_may_be_found(t, env, s, next, false, acc, sk);
                assert(walk_all(t, env, s, i, descend, acc, skipped) == walk_all(
                    t,
                    env,
                    s,
                    next,
                    false,
                    acc,
                    sk,
                ));
            } else {
                collected_may_be_found(t, env, s, next, true, acc, sk);
                assert(walk_all(t, env, s, i, descend, acc, skipped) == walk_all(
                    t,
                    env,
                    s,
                    next,
                    true,
                    acc,
                    sk,
                ));
            }
        }
    }
}

/// `find_all` never returns an element under a hidden ancestor (one whose
/// hidden state no trap takes over), however focusable the element is
/// itself; embedded frames are the one kind taken whole.
pub proof fn hidden_subtree_is_absent_from_find_all(
    t: Tree,
    env: TabsterCore,
    options: FindAllProps,
    tabbing: bool,
    c: int,
    a: int,
)
    requires
        t.wf(),
        0 <= c < t.len(),
        0 <= a < t.len(),
        is_ancestor_or_self(t, a, c),
        is_hidden_spec(env, t.nodes@[a]),
        t.nodes@[c].tag != Tag::IFrame,
        t.nodes@[c].tag != Tag::WebView,
    ensures
        !walk_all(
            t,
            env,
            initial_state(t, env, FindFocusableProps::from_all_spec(options), true, tabbing),
            options.container as int,
            true,
            Seq::empty(),
            true,
        ).0.contains(c as usize),
{
    let s = initial_state(t, env, FindFocusableProps::from_all_spec(options), true, tabbing);
    hidden_ancestor_blocks_access(t, env, a, c);
    collected_may_be_found(t, env, s, options.container as int, true, Seq::empty(), true);
    let r = walk_all(t, env, s, options.container as int, true, Seq::empty(), true).0;
    if r.contains(c as usize) {
        let k = choose|k: int| 0 <= k < r.len() && r[k] == c as usize;
        assert(may_be_found(t, env, r[k] as int));
    }
}

} // verus!

verus! {

/// From `x` up to `stop` by parent links, no element before `stop` carries a
/// trap, a group or a scope.
pub open spec fn trap_free_path(t: Tree, x: int, stop: int) -> bool
    decreases x,
{
    if x == stop {
        true
    } else if x < 0 || x >= t.len() {
        false
    } else {
        let e = t.nodes@[x];
        e.modalizer.is_none() && e.groupper.is_none() && !e.root && match e.parent {
            Some(p) => p < x && trap_free_path(t, p as int, stop),
            None => false,
        }
    }
}

proof fn trap_kept_above(t: Tree, env: TabsterCore, element: int, w: ContextWalk, x: int, m: usize)
    requires
        w.modalizer == Some(m),
        w.groupper.is_none(),
        x < m,
    ensures
        walk_from(t, env, element, false, w, x).modalizer == Some(m),
    decreases x,
{
    if !(x < 0 || x >= t.len() || (w.root.is_some())) {
        let w2 = walk_step(t, env, element, false, w, x);
        assert(w2.modalizer == Some(m) && w2.groupper.is_none());
        match t.nodes@[x].parent {
            Some(p) => if p < x {
                trap_kept_above(t, env, element, w2, p as int, m);
            },
            None => {},
        }
    }
}

proof fn trap_found_below(t: Tree, env: TabsterCore, element: int, w: ContextWalk, x: int, m: int)
    requires
        t.wf(),
        0 <= m < t.len(),
        trap_free_path(t, x, m),
        w.modalizer.is_none(),
        w.groupper.is_none(),
        w.root.is_none(),
        t.nodes@[m].modalizer.is_some(),
        t.nodes@[m].groupper.is_none(),
    ensures
        walk_from(t, env, element, false, w, x).modalizer == Some(m as usize),
    decreases x,
{
    let w2 = walk_step(t, env, element, false, w, x);
    if x == m {
        assert(t.nodes@[x].has_behaviors());
        assert(w2.modalizer == Some(m as usize) && w2.groupper.is_none());
        match t.nodes@[x].parent {
            Some(p) => if p < x {
                trap_kept_above(t, env, element, w2, p as int, m as usize);
            },
            None => {},
        }
    } else {
        assert(w2.modalizer.is_none() && w2.groupper.is_none() && w2.root.is_none());
        let p = t.nodes@[x].parent.unwrap();
        trap_found_below(t, env, element, w2, p as int, m);
    }
}

/// The nearest trap above an element stays in its context: when the
/// elements from the element up to the trap's element carry no other trap,
/// no group and no scope (and the trap's element carries no group), the
/// context names that trap, whatever groups lie farther up.
pub proof fn nearest_trap_is_kept(t: Tree, env: TabsterCore, e: int, m: int)
    requires
        t.wf(),
        0 <= m < t.len(),
        trap_free_path(t, e, m),
        t.nodes@[m].modalizer.is_some(),
        t.nodes@[m].groupper.is_none(),
    ensures
        context_of(t, env, e, plain_options()) matches Some(ctx) ==> ctx.modalizer == Some(
            m as usize,
        ),
{
    trap_found_below(t, env, e, empty_walk(), e, m);
}

} // verus!

verus! {

proof fn default_in_range(t: Tree, env: TabsterCore, m: int, j: int)
    ensures
        default_from(t, env, m, j) matches Some(x) ==> j <= x < t.end(m) && x < t.len(),
    decreases t.end(m) - j,
{
    if !(j >= t.end(m) || j < 0 || j >= t.len()) {
        default_in_range(t, env, m, j + 1);
    }
}

proof fn visible_in_range(
    t: Tree,
    env: TabsterCore,
    s: FocusableAcceptElementState,
    m: int,
    level: u8,
    j: int,
)
    ensures
        visible_from(t, env, s, m, level, j) matches Some(x) ==> j <= x < t.end(m) && x < t.len(),
    decreases t.end(m) - j,
{
    if !(j >= t.end(m) || j < 0 || j >= t.len()) {
        visible_in_range(t, env, s, m, level, j + 1);
    }
}

proof fn first_in_range(t: Tree, env: TabsterCore, g: int, j: int)
    ensures
        first_focusable_from(t, env, g, j) matches Some(x) ==> j <= x < t.end(g) && x < t.len(),
    decreases t.end(g) - j,
{
    if !(j >= t.end(g) || j < 0 || j >= t.len()) {
        first_in_range(t, env, g, j + 1);
    }
}

/// Whatever a decision accepts, directly or by handing the search to
/// another element, lies strictly inside the search container.
pub proof fn accepted_lies_inside(t: Tree, env: TabsterCore, s: FocusableAcceptElementState, c: int)
    requires
        t.wf(),
        0 <= c < t.len(),
        s.container < t.len(),
        decide(t, env, s, c).filter == NodeFilterEnum::FilterAccept,
    ensures
        ({
            let f = match decide(t, env, s, c).found {
                Some(f) => f as int,
                None => c,
            };
            t.contains(s.container as int, f) && f != s.container
        }),
{
    reveal(decide);
    let k = s.container as int;
    let opts = GetTabsterContextOptions { check_rtl: false, reference_element: None };
    match context_of(t, env, c, opts) {
        Some(ctx) => {
            let from_mover = match context_of(t, env, s.from as int, opts) {
                Some(fc) => fc.mover,
                None => None,
            };
            let (g, m) = select_behaviors(t, k, ctx.groupper, ctx.mover, from_mover);
            match m {
                Some(mm) => {
                    let mi = mm as int;
                    let ms = t.nodes@[mi].mover.unwrap();
                    default_in_range(t, env, mi, mi + 1);
                    visible_in_range(t, env, s, mi, ms.props.visibility_aware.unwrap_or(0), mi + 1);
                    if t.contains(k, mi) && k < mi {
                        assert(t.end(mi) <= t.end(k));
                    }
                },
                None => match g {
                    Some(gg) => {
                        let gi = gg as int;
                        first_in_range(t, env, gi, gi + 1);
                        if t.contains(k, gi) && k < gi {
                            assert(t.end(gi) <= t.end(k));
                        }
                    },
                    None => {},
                },
            }
        },
        None => {},
    }
}

proof fn collected_inside(
    t: Tree,
    env: TabsterCore,
    s: FocusableAcceptElementState,
    i: int,
    descend: bool,
    acc: Seq<usize>,
    skipped: bool,
)
    requires
        t.wf(),
        s.container < t.len(),
        forall|k: int|
            0 <= k < acc.len() ==> t.contains(s.container as int, #[trigger] acc[k] as int) && acc[k]
                != s.container,
    ensures
        forall|k: int|
            0 <= k < walk_all(t, env, s, i, descend, acc, skipped).0.len() ==> t.contains(
                s.container as int,
                #[trigger] walk_all(t, env, s, i, descend, acc, skipped).0[k] as int,
            ) && walk_all(t, env, s, i, descend, acc, skipped).0[k] != s.container,
    decreases t.len() - i,
{
    if i < 0 || i >= t.len() || s.container >= t.len() {
        assert(walk_all(t, env, s, i, descend, acc, skipped).0 == acc);
    } else {
        let next = if descend && i + 1 < t.end(i) {
            i + 1
        } else {
            t.end(i)
        };
        if next <= i || next >= t.end(s.container as int) || next >= t.len() {
            assert(walk_all(t, env, s, i, descend, acc, skipped).0 == acc);
        } else {
            let v = decide(t, env, s, next);
            let sk = skipped || v.skipped;
            if v.filter == NodeFilterEnum::FilterAccept {
                let f = match v.found {
                    Some(f) => f,
                    None => next as usize,
                };
                accepted_lies_inside(t, env, s, next);
                let s2 = FocusableAcceptElementState {
                    from: f,
                    reject_elements_from: if v.reject_from.is_some() {
                        v.reject_from
                    } else {
                        s.reject_elements_from
                    },
                    ..s
                };
                let acc2 = acc.push(f);
                assert forall|k: int| 0 <= k < acc2.len() implies t.contains(
                    s.container as int,
                    #[trigger] acc2[k] as int,
                ) && acc2[k] != s.container by {
                    if k < acc.len() {
                        assert(acc2[k] == acc[k]);
                    }
                }
                collected_inside(t, env, s2, next, true, acc2, sk);
                assert(walk_all(t, env, s, i, descend, acc, skipped) == walk_all(
                    t,
                    env,
                    s2,
                    next,
                    true,
                    acc2,
                    sk,
                ));
            } else if v.filter == NodeFilterEnum::FilterReject {
                collected_inside(t, env, s, next, false, acc, sk);
                assert(walk_all(t, env, s, i, descend, acc, skipped) == walk_all(
                    t,
                    env,
                    s,
                    next,
                    false,
                    acc,
                    sk,
                ));
            } else {
                collected_inside(t, env, s, next, true, acc, sk);
                assert(walk_all(t, env, s, i, descend, acc, skipped) == walk_all(
                    t,
                    env,
                    s,
                    next,
                    true,
                    acc,
                    sk,
                ));
            }
        }
    }
}

/// Every element `find_all` returns lies strictly inside its container.
pub proof fn find_all_stays_inside(t: Tree, env: TabsterCore, options: FindAllProps, tabbing: bool)
    requires
        t.wf(),
        options.container < t.len(),
    ensures
        ({
            let r = walk_all(
                t,
                env,
                initial_state(t, env, FindFocusableProps::from_all_spec(options), true, tabbing),
                options.container as int,
                true,
                Seq::empty(),
                true,
            ).0;
            forall|k: int|
                0 <= k < r.len() ==> t.contains(options.container as int, #[trigger] r[k] as int)
                    && r[k] != options.container
        }),
{
    let s = initial_state(t, env, FindFocusableProps::from_all_spec(options), true, tabbing);
    collected_inside(t, env, s, options.container as int, true, Seq::empty(), true);
}

} // verus!
