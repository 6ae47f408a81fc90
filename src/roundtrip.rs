//! Facts about whole searches: what a forward search can land on, and
//! going forward and then back returns to the start.
use vstd::prelude::*;
use crate::engine::TabsterCore;
use crate::focusable::decide;
use crate::search::{
    chain_check, initial_state, search_result, walk_backward, walk_forward, Chain, FindFocusableProps,
    FindNextProps,
};
use crate::focusable::{checked_radio_before, is_radio_spec};
use crate::root::{context_of, id_view, user_id_at, TabsterContext};
use crate::theorems::{other_trap_is_excluded, plain_options, unchecked_radio_is_passed_over};
use crate::tree::{is_ancestor_or_self, links_match, Tree};
use crate::types::{FocusableAcceptElementState, NodeFilterEnum};

verus! {

/// The decision on `a` rejects it, and with it its subtree.
pub open spec fn rejects(t: Tree, env: TabsterCore, s: FocusableAcceptElementState, a: int) -> bool {
    decide(t, env, s, a).filter == NodeFilterEnum::FilterReject
}

/// The forward walk from `i` passes over `j`: `j` lies in the subtree of a
/// rejected element after `i`, or in `i`'s own subtree when the walk does
/// not descend into it.
pub open spec fn passed_over(
    t: Tree,
    env: TabsterCore,
    s: FocusableAcceptElementState,
    i: int,
    descend: bool,
    j: int,
) -> bool {
    (exists|a: int| i < a < j && j < t.end(a) && #[trigger] rejects(t, env, s, a)) || (!descend && j
        < t.end(i))
}

/// No decision hands the search to another element.
pub open spec fn no_redirects(t: Tree, env: TabsterCore, s: FocusableAcceptElementState) -> bool {
    forall|j: int| #[trigger] decide(t, env, s, j).found.is_none()
}

proof fn forward_found(
    t: Tree,
    env: TabsterCore,
    s: FocusableAcceptElementState,
    i: int,
    descend: bool,
    sk: bool,
    y: usize,
)
    requires
        t.wf(),
        0 <= i < t.len(),
        no_redirects(t, env, s),
        walk_forward(t, env, s, i, descend, sk).0 == Some(y),
    ensures
        i < y < t.len(),
        y < t.end(s.container as int),
        decide(t, env, s, y as int).filter == NodeFilterEnum::FilterAccept,
        forall|j: int|
            i < j < y ==> decide(t, env, s, j).filter != NodeFilterEnum::FilterAccept || passed_over(
                t,
                env,
                s,
                i,
                descend,
                j,
            ),
        !passed_over(t, env, s, i, descend, y as int),
    decreases t.len() - i,
{
    let next = if descend && i + 1 < t.end(i) {
        i + 1
    } else {
        t.end(i)
    };
    assert(i < t.end(i) <= t.len());
    let v = decide(t, env, s, next);
    let sk2 = sk || v.skipped;
    assert(v.found.is_none());
    assert forall|j: int| i < j < next implies passed_over(t, env, s, i, descend, j) by {
        if descend {
            assert(t.end(i) == i + 1);
        }
    }
    assert(!(exists|a: int| i < a < next && next < t.end(a) && #[trigger] rejects(t, env, s, a))) by {
        if exists|a: int| i < a < next && next < t.end(a) && #[trigger] rejects(t, env, s, a) {
            let a = choose|a: int| i < a < next && next < t.end(a) && #[trigger] rejects(t, env, s, a);
            assert(t.end(a) <= t.end(i));
        }
    }
    if v.filter == NodeFilterEnum::FilterAccept {
        assert(y == next);
    } else {
        let d2 = v.filter != NodeFilterEnum::FilterReject;
        assert(walk_forward(t, env, s, i, descend, sk) == walk_forward(t, env, s, next, d2, sk2));
        forward_found(t, env, s, next, d2, sk2, y);
        assert forall|j: int|
            i < j < y implies decide(t, env, s, j).filter != NodeFilterEnum::FilterAccept
            || passed_over(t, env, s, i, descend, j) by {
            if next < j && decide(t, env, s, j).filter == NodeFilterEnum::FilterAccept {
                assert(passed_over(t, env, s, next, d2, j));
                if exists|a: int| next < a < j && j < t.end(a) && #[trigger] rejects(t, env, s, a) {
                    let a = choose|a: int|
                        next < a < j && j < t.end(a) && #[trigger] rejects(t, env, s, a);
                    assert(i < a < j && j < t.end(a) && rejects(t, env, s, a));
                } else {
                    assert(rejects(t, env, s, next));
                    assert(i < next < j && j < t.end(next));
                }
            }
        }
        assert(!passed_over(t, env, s, i, descend, y as int)) by {
            if exists|a: int| i < a < y && y < t.end(a) && #[trigger] rejects(t, env, s, a) {
                let a = choose|a: int| i < a < y && y < t.end(a) && #[trigger] rejects(t, env, s, a);
                if a > next {
                    assert(passed_over(t, env, s, next, d2, y as int));
                } else if a == next {
                    assert(!d2);
                } else {
                    assert(t.end(a) <= t.end(i));
                }
            }
        }
    }
}

proof fn chain_contains(t: Tree, a: int, p: int)
    requires
        t.wf(),
        0 <= p < t.len(),
        is_ancestor_or_self(t, a, p),
    ensures
        t.contains(a, p),
    decreases p,
{
    if p != a {
        let q = t.nodes@[p].parent.unwrap() as int;
        assert(q < p && p < t.end(q));
        chain_contains(t, a, q);
        if a < q {
            assert(t.end(q) <= t.end(a));
        }
    } else {
        assert(p < t.end(p));
    }
}

proof fn chain_verdict(
    t: Tree,
    env: TabsterCore,
    s: FocusableAcceptElementState,
    p: int,
    start: int,
    a: int,
)
    requires
        t.wf(),
        0 <= p < t.len(),
        0 <= start < t.len(),
        no_redirects(t, env, s),
        is_ancestor_or_self(t, a, p),
        a > s.container,
        !(a <= start && start < t.end(a)),
    ensures
        chain_check(t, env, s, p, start).0 == Chain::Clear ==> !rejects(t, env, s, a),
        !(chain_check(t, env, s, p, start).0 is Found),
    decreases p,
{
    chain_contains(t, a, p);
    if p <= s.container || (p <= start && start < t.end(p)) {
        if p <= start && start < t.end(p) && a < p {
            assert(t.end(p) <= t.end(a));
        }
    } else {
        let v = decide(t, env, s, p);
        assert(v.found.is_none());
        if p != a {
            let q = t.nodes@[p].parent.unwrap() as int;
            chain_verdict(t, env, s, q, start, a);
        } else {
            match t.nodes@[p].parent {
                Some(q) => {
                    if q < p && q > s.container && !(q <= start && start < t.end(q as int)) {
                        chain_verdict(t, env, s, q as int, start, q as int);
                    }
                    chain_not_found(t, env, s, q as int, start);
                },
                None => {},
            }
        }
    }
}

proof fn chain_not_found(t: Tree, env: TabsterCore, s: FocusableAcceptElementState, p: int, start: int)
    requires
        no_redirects(t, env, s),
    ensures
        !(chain_check(t, env, s, p, start).0 is Found),
    decreases p,
{
    if !(p <= s.container || p < 0 || p >= t.len() || (p <= start && start < t.end(p))) {
        assert(decide(t, env, s, p).found.is_none());
        match t.nodes@[p].parent {
            Some(q) => if q < p {
                chain_not_found(t, env, s, q as int, start);
            },
            None => {},
        }
    }
}

proof fn chain_blocks_at(t: Tree, env: TabsterCore, s: FocusableAcceptElementState, p: int, start: int)
    requires
        t.wf(),
        0 <= p < t.len(),
    ensures
        chain_check(t, env, s, p, start).0 matches Chain::Blocked(b) ==> s.container < b <= p
            && is_ancestor_or_self(t, b as int, p) && rejects(t, env, s, b as int),
    decreases p,
{
    if !(p <= s.container || (p <= start && start < t.end(p))) {
        match t.nodes@[p].parent {
            Some(q) => {
                chain_blocks_at(t, env, s, q as int, start);
            },
            None => {},
        }
    }
}

proof fn backward_reaches(
    t: Tree,
    env: TabsterCore,
    s: FocusableAcceptElementState,
    x: int,
    y: int,
    j: int,
    sk: bool,
)
    requires
        t.wf(),
        links_match(t),
        s.container < x <= j < y < t.len(),
        y < t.end(s.container as int),
        no_redirects(t, env, s),
        decide(t, env, s, x).filter == NodeFilterEnum::FilterAccept,
        forall|a: int| s.container < a < x && x < t.end(a) ==> !#[trigger] rejects(t, env, s, a),
        forall|k: int|
            x < k <= j ==> decide(t, env, s, k).filter != NodeFilterEnum::FilterAccept || exists|
                a: int,
            |
                x < a < k && k < t.end(a) && y >= t.end(a) && #[trigger] rejects(t, env, s, a),
    ensures
        walk_backward(t, env, s, j, y, sk).0 == Some(x as usize),
    decreases j,
{
    assert(j < t.end(s.container as int));
    assert(t.nodes@[j].parent is Some);
    let p = t.nodes@[j].parent.unwrap() as int;
    assert(p < j);
    let up = chain_check(t, env, s, p, y);
    chain_not_found(t, env, s, p, y);
    chain_blocks_at(t, env, s, p, y);
    match up.0 {
        Chain::Blocked(b) => {
            chain_contains(t, b as int, p);
            assert(b > x) by {
                assert(p < j && j < t.end(p));
                if b < p {
                    assert(t.end(p) <= t.end(b as int));
                }
                assert(j < t.end(b as int));
                assert(rejects(t, env, s, b as int));
                if b < x {
                    assert(s.container < b < x && x < t.end(b as int));
                }
            }
            assert(walk_backward(t, env, s, j, y, sk) == walk_backward(
                t,
                env,
                s,
                b - 1,
                y,
                sk || up.1,
            ));
            backward_reaches(t, env, s, x, y, b - 1, sk || up.1);
            assert(walk_backward(t, env, s, j, y, sk).0 == Some(x as usize));
        },
        Chain::Clear => {
            let v = decide(t, env, s, j);
            if j == x {
                assert(v.found.is_none());
                assert(walk_backward(t, env, s, j, y, sk).0 == Some(j as usize));
            } else {
                if v.filter == NodeFilterEnum::FilterAccept {
                    let a = choose|a: int|
                        x < a < j && j < t.end(a) && y >= t.end(a) && #[trigger] rejects(t, env, s, a);
                    assert(t.nodes@[j].parent matches Some(q) && is_ancestor_or_self(t, a, q as int));
                    chain_verdict(t, env, s, p, y, a);
                }
                assert(walk_backward(t, env, s, j, y, sk) == walk_backward(
                    t,
                    env,
                    s,
                    j - 1,
                    y,
                    sk || up.1 || v.skipped,
                ));
                backward_reaches(t, env, s, x, y, j - 1, sk || up.1 || v.skipped);
            }
        },
        _ => {},
    }
}

/// Going to the next element and then back to the previous one returns to
/// the start `x`. This holds when the links of the tree agree with its
/// subtrees, when no decision hands the search to another element or
/// depends on where the search starts, and when no element inside the
/// container that encloses `x` is rejected.
pub proof fn next_then_prev_returns(
    t: Tree,
    env: TabsterCore,
    o: FindNextProps,
    tabbing: bool,
    y: usize,
)
    requires
        t.wf(),
        links_match(t),
        o.current_element matches Some(x) && o.container < x && t.contains(o.container as int, x as int)
            && ({
            let sf = initial_state(t, env, FindFocusableProps::from_next_spec(o, false), false, tabbing);
            let sb = initial_state(
                t,
                env,
                FindFocusableProps::from_next_spec(FindNextProps { current_element: Some(y), ..o }, true),
                false,
                tabbing,
            );
            &&& forall|j: int| #[trigger] decide(t, env, sf, j) == decide(t, env, sb, j)
            &&& no_redirects(t, env, sf)
            &&& decide(t, env, sf, x as int).filter == NodeFilterEnum::FilterAccept
            &&& forall|a: int| o.container < a < x && x < t.end(a) ==> !#[trigger] rejects(t, env, sf, a)
        }),
        search_result(t, env, FindFocusableProps::from_next_spec(o, false), tabbing).0 == Some(y),
    ensures
        search_result(
            t,
            env,
            FindFocusableProps::from_next_spec(FindNextProps { current_element: Some(y), ..o }, true),
            tabbing,
        ).0 == o.current_element,
{
    let x = o.current_element.unwrap();
    let sf = initial_state(t, env, FindFocusableProps::from_next_spec(o, false), false, tabbing);
    let ob = FindNextProps { current_element: Some(y), ..o };
    let sb = initial_state(t, env, FindFocusableProps::from_next_spec(ob, true), false, tabbing);
    assert(sf.container == o.container && sb.container == o.container);
    forward_found(t, env, sf, x as int, true, false, y);
    assert(forall|j: int| #[trigger] decide(t, env, sb, j).found.is_none()) by {
        assert forall|j: int| #[trigger] decide(t, env, sb, j).found.is_none() by {
            assert(decide(t, env, sf, j) == decide(t, env, sb, j));
            assert(decide(t, env, sf, j).found.is_none());
        }
    }
    assert forall|a: int| sb.container < a < x && x < t.end(a) implies !#[trigger] rejects(t, env, sb, a) by {
        assert(decide(t, env, sf, a) == decide(t, env, sb, a));
        assert(!rejects(t, env, sf, a));
    }
    assert forall|k: int|
        x < k <= y - 1 implies decide(t, env, sb, k).filter != NodeFilterEnum::FilterAccept || exists|
            a: int,
        | x < a < k && k < t.end(a) && y >= t.end(a) && #[trigger] rejects(t, env, sb, a) by {
        assert(decide(t, env, sf, k) == decide(t, env, sb, k));
        if decide(t, env, sf, k).filter == NodeFilterEnum::FilterAccept {
            assert(passed_over(t, env, sf, x as int, true, k));
            let a = choose|a: int| x < a < k && k < t.end(a) && #[trigger] rejects(t, env, sf, a);
            assert(decide(t, env, sf, a) == decide(t, env, sb, a));
            if y < t.end(a) {
                assert(passed_over(t, env, sf, x as int, true, y as int));
            }
            assert(x < a < k && k < t.end(a) && y >= t.end(a) && rejects(t, env, sb, a));
        }
    }
    assert(decide(t, env, sf, x as int) == decide(t, env, sb, x as int));
    backward_reaches(t, env, sb, x as int, y as int, y - 1, false);
    assert(t.contains(o.container as int, y as int));
}

/// With no redirects, `find_next` lands only on an element that its own
/// decision accepts.
pub proof fn find_next_lands_on_accepted(
    t: Tree,
    env: TabsterCore,
    o: FindNextProps,
    tabbing: bool,
    y: usize,
)
    requires
        t.wf(),
        o.current_element matches Some(x) && t.contains(o.container as int, x as int),
        no_redirects(
            t,
            env,
            initial_state(t, env, FindFocusableProps::from_next_spec(o, false), false, tabbing),
        ),
        search_result(t, env, FindFocusableProps::from_next_spec(o, false), tabbing).0 == Some(y),
    ensures
        decide(
            t,
            env,
            initial_state(t, env, FindFocusableProps::from_next_spec(o, false), false, tabbing),
            y as int,
        ).filter == NodeFilterEnum::FilterAccept,
{
    let x = o.current_element.unwrap();
    let sf = initial_state(t, env, FindFocusableProps::from_next_spec(o, false), false, tabbing);
    forward_found(t, env, sf, x as int, true, false, y);
}

/// With no redirects, `find_next` never lands on an unchecked radio whose
/// group has a checked radio.
pub proof fn find_next_passes_unchecked_radio(
    t: Tree,
    env: TabsterCore,
    o: FindNextProps,
    tabbing: bool,
    c: usize,
)
    requires
        t.wf(),
        c < t.len(),
        o.current_element matches Some(x) && t.contains(o.container as int, x as int),
        no_redirects(
            t,
            env,
            initial_state(t, env, FindFocusableProps::from_next_spec(o, false), false, tabbing),
        ),
        is_radio_spec(t.nodes@[c as int]),
        !t.nodes@[c as int].checked,
        checked_radio_before(t, t.nodes@[c as int].name@, t.len()).is_some(),
    ensures
        search_result(t, env, FindFocusableProps::from_next_spec(o, false), tabbing).0 != Some(c),
{
    let sf = initial_state(t, env, FindFocusableProps::from_next_spec(o, false), false, tabbing);
    if search_result(t, env, FindFocusableProps::from_next_spec(o, false), tabbing).0 == Some(c) {
        find_next_lands_on_accepted(t, env, o, tabbing, c);
        unchecked_radio_is_passed_over(t, env, sf, c as int);
        assert(decide(t, env, sf, c as int).found.is_none());
    }
}

/// While a trap is active, `find_next` limited to the active trap, with no
/// redirects, never lands on an element of another trap that is not always
/// accessible.
pub proof fn find_next_skips_other_trap(
    t: Tree,
    env: TabsterCore,
    o: FindNextProps,
    tabbing: bool,
    c: usize,
    ctx: TabsterContext,
)
    requires
        t.wf(),
        c < t.len(),
        o.current_element matches Some(x) && t.contains(o.container as int, x as int),
        o.use_active_modalizer == Some(true),
        env.modalizer.is_some(),
        env.active_id().is_some(),
        no_redirects(
            t,
            env,
            initial_state(t, env, FindFocusableProps::from_next_spec(o, false), false, tabbing),
        ),
        context_of(t, env, c as int, plain_options()) == Some(ctx),
        ctx.modalizer matches Some(m) && t.nodes@[m as int].modalizer matches Some(ms)
            && ms.props.is_always_accessible != Some(true),
        id_view(user_id_at(t, ctx.modalizer)) != id_view(env.active_id()),
    ensures
        search_result(t, env, FindFocusableProps::from_next_spec(o, false), tabbing).0 != Some(c),
{
    let sf = initial_state(t, env, FindFocusableProps::from_next_spec(o, false), false, tabbing);
    if search_result(t, env, FindFocusableProps::from_next_spec(o, false), tabbing).0 == Some(c) {
        find_next_lands_on_accepted(t, env, o, tabbing, c);
        other_trap_is_excluded(t, env, sf, c as int, ctx);
    }
}

} // verus!
