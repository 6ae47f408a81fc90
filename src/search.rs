//! The focusable search engine: filtered walks over the tree in document
//! order, forward and backward.
use vstd::prelude::*;
use crate::engine::{env_fits, TabsterCore};
use crate::focusable::{accept_element, decide, is_focusable, is_focusable_spec, state_fits};
use crate::root::{RootAPI, context_of, user_id_at, GetTabsterContextOptions};
use crate::tree::Tree;
use crate::types::{flag, FindFocusableOutputProps, FocusableAcceptElementState, NodeFilterEnum};

verus! {

/// The forward walk after `i` (into its subtree when `descend`), as a DOM
/// tree walker's `nextNode` visits: a rejected candidate's subtree is passed
/// over, and the walk ends at the first accepted candidate or at the end of
/// the container. Returns the found element and whether a focusable element
/// was skipped on the way.
pub open spec fn walk_forward(
    t: Tree,
    env: TabsterCore,
    s: FocusableAcceptElementState,
    i: int,
    descend: bool,
    skipped: bool,
) -> (Option<usize>, bool)
    decreases t.len() - i,
{
    if i < 0 || i >= t.len() || s.container >= t.len() {
        (None, skipped)
    } else {
        let next = if descend && i + 1 < t.end(i) {
            i + 1
        } else {
            t.end(i)
        };
        if next <= i || next >= t.end(s.container as int) || next >= t.len() {
            (None, skipped)
        } else {
            let v = decide(t, env, s, next);
            let sk = skipped || v.skipped;
            if v.filter == NodeFilterEnum::FilterAccept {
                (
                    Some(
                        match v.found {
                            Some(f) => f,
                            None => next as usize,
                        },
                    ),
                    sk,
                )
            } else if v.filter == NodeFilterEnum::FilterReject {
                walk_forward(t, env, s, next, false, sk)
            } else {
                walk_forward(t, env, s, next, true, sk)
            }
        }
    }
}

/// What the ancestors of a candidate say in a backward walk.
#[derive(Clone, Copy, Debug, PartialEq, Eq, Structural)]
pub enum Chain {
    /// Nothing stands in the way.
    Clear,
    /// This ancestor is rejected, and with it its whole subtree.
    Blocked(usize),
    /// The search ends with this element.
    Found(usize),
}

/// The ancestors of a candidate from the top down, starting at `a`, as a
/// backward tree walk meets them on its way down: ancestors of the walk's
/// start (and the container and what lies above it) are not consulted.
pub open spec fn chain_check(
    t: Tree,
    env: TabsterCore,
    s: FocusableAcceptElementState,
    a: int,
    start: int,
) -> (Chain, bool)
    decreases a,
{
    if a <= s.container || a < 0 || a >= t.len() || (a <= start && start < t.end(a)) {
        (Chain::Clear, false)
    } else {
        let up = match t.nodes@[a].parent {
            Some(p) => if p < a {
                chain_check(t, env, s, p as int, start)
            } else {
                (Chain::Clear, false)
            },
            None => (Chain::Clear, false),
        };
        if up.0 != Chain::Clear {
            up
        } else {
            let v = decide(t, env, s, a);
            let sk = up.1 || v.skipped;
            if v.filter == NodeFilterEnum::FilterReject {
                (Chain::Blocked(a as usize), sk)
            } else if v.found.is_some() {
                (Chain::Found(v.found.unwrap()), sk)
            } else {
                (Chain::Clear, sk)
            }
        }
    }
}

/// The backward walk from `j` down to the container: candidates in reverse
/// document order, each consulted only when no ancestor below the start
/// rejects it; the first accepted one (the last in document order) is found.
pub open spec fn walk_backward(
    t: Tree,
    env: TabsterCore,
    s: FocusableAcceptElementState,
    j: int,
    start: int,
    skipped: bool,
) -> (Option<usize>, bool)
    decreases j,
{
    if j <= s.container || j < 0 || j >= t.len() {
        (None, skipped)
    } else {
        let up = match t.nodes@[j].parent {
            Some(p) => if p < j {
                chain_check(t, env, s, p as int, start)
            } else {
                (Chain::Clear, false)
            },
            None => (Chain::Clear, false),
        };
        let sk = skipped || up.1;
        match up.0 {
            Chain::Found(x) => (Some(x), sk),
            Chain::Blocked(a) => if 0 < a < j {
                walk_backward(t, env, s, a - 1, start, sk)
            } else {
                (None, sk)
            },
            Chain::Clear => {
                let v = decide(t, env, s, j);
                let sk2 = sk || v.skipped;
                if v.filter == NodeFilterEnum::FilterAccept {
                    (
                        Some(
                            match v.found {
                                Some(f) => f,
                                None => j as usize,
                            },
                        ),
                        sk2,
                    )
                } else {
                    walk_backward(t, env, s, j - 1, start, sk2)
                }
            },
        }
    }
}

/// The forward walk that collects every accepted element: after each one
/// the walk goes on from it, with it as the new origin and with the
/// subtree a decision marked for rejection rejected from then on.
pub open spec fn walk_all(
    t: Tree,
    env: TabsterCore,
    s: FocusableAcceptElementState,
    i: int,
    descend: bool,
    acc: Seq<usize>,
    skipped: bool,
) -> (Seq<usize>, bool)
    decreases t.len() - i,
{
    if i < 0 || i >= t.len() || s.container >= t.len() {
        (acc, skipped)
    } else {
        let next = if descend && i + 1 < t.end(i) {
            i + 1
        } else {
            t.end(i)
        };
        if next <= i || next >= t.end(s.container as int) || next >= t.len() {
            (acc, skipped)
        } else {
            let v = decide(t, env, s, next);
            let sk = skipped || v.skipped;
            if v.filter == NodeFilterEnum::FilterAccept {
                let f = match v.found {
                    Some(f) => f,
                    None => next as usize,
                };
                let s2 = FocusableAcceptElementState {
                    from: f,
                    reject_elements_from: if v.reject_from.is_some() {
                        v.reject_from
                    } else {
                        s.reject_elements_from
                    },
                    ..s
                };
                walk_all(t, env, s2, next, true, acc.push(f), sk)
            } else if v.filter == NodeFilterEnum::FilterReject {
                walk_all(t, env, s, next, false, acc, sk)
            } else {
                walk_all(t, env, s, next, true, acc, sk)
            }
        }
    }
}

fn clone_id(o: &Option<String>) -> (r: Option<String>)
    ensures
        r == *o,
{
    match o {
        Some(x) => Some(x.clone()),
        None => None,
    }
}

/// Runs `walk_forward` from `i`.
pub fn search_forward(
    t: &Tree,
    env: &TabsterCore,
    s: &FocusableAcceptElementState,
    i: usize,
) -> (r: (Option<usize>, bool))
    requires
        t.wf(),
        env_fits(*t, *env),
        state_fits(*t, *s),
        i < t.len(),
    ensures
        r == walk_forward(*t, *env, *s, i as int, true, false),
        r.0 matches Some(f) ==> f < t.len(),
{
    let c_end = t.nodes[s.container].end;
    let mut cur = i;
    let mut descend = true;
    let mut skipped = false;
    loop
        invariant
            t.wf(),
            env_fits(*t, *env),
            state_fits(*t, *s),
            cur < t.len(),
            c_end == t.end(s.container as int),
            walk_forward(*t, *env, *s, i as int, true, false) == walk_forward(
                *t,
                *env,
                *s,
                cur as int,
                descend,
                skipped,
            ),
        decreases t.len() - cur,
    {
        let e = t.nodes[cur].end;
        proof {
            assert(cur < t.end(cur as int) <= t.len());
        }
        let next = if descend && cur + 1 < e {
            cur + 1
        } else {
            e
        };
        if next <= cur || next >= c_end || next >= t.nodes.len() {
            return (None, skipped);
        }
        let v = accept_element(t, env, s, next);
        skipped = skipped || v.skipped;
        if v.filter == NodeFilterEnum::FilterAccept {
            let f = match v.found {
                Some(f) => f,
                None => next,
            };
            return (Some(f), skipped);
        } else if v.filter == NodeFilterEnum::FilterReject {
            descend = false;
        } else {
            descend = true;
        }
        cur = next;
    }
}

fn check_chain(
    t: &Tree,
    env: &TabsterCore,
    s: &FocusableAcceptElementState,
    a: usize,
    start: usize,
) -> (r: (Chain, bool))
    requires
        t.wf(),
        env_fits(*t, *env),
        state_fits(*t, *s),
        a < t.len(),
    ensures
        r == chain_check(*t, *env, *s, a as int, start as int),
        r.0 matches Chain::Found(x) ==> x < t.len(),
        r.0 matches Chain::Blocked(x) ==> x <= a,
    decreases a,
{
    if a <= s.container || (a <= start && start < t.nodes[a].end) {
        return (Chain::Clear, false);
    }
    let up = match t.nodes[a].parent {
        Some(p) => check_chain(t, env, s, p, start),
        None => (Chain::Clear, false),
    };
    if up.0 != Chain::Clear {
        return up;
    }
    let v = accept_element(t, env, s, a);
    let sk = up.1 || v.skipped;
    if v.filter == NodeFilterEnum::FilterReject {
        (Chain::Blocked(a), sk)
    } else if v.found.is_some() {
        (Chain::Found(v.found.unwrap()), sk)
    } else {
        (Chain::Clear, sk)
    }
}

/// Runs `walk_backward` from `j`, for a walk that started at `start`.
pub fn search_backward(
    t: &Tree,
    env: &TabsterCore,
    s: &FocusableAcceptElementState,
    j: usize,
    start: usize,
) -> (r: (Option<usize>, bool))
    requires
        t.wf(),
        env_fits(*t, *env),
        state_fits(*t, *s),
        j < t.len(),
    ensures
        r == walk_backward(*t, *env, *s, j as int, start as int, false),
        r.0 matches Some(f) ==> f < t.len(),
{
    let mut cur = j;
    let mut skipped = false;
    loop
        invariant
            t.wf(),
            env_fits(*t, *env),
            state_fits(*t, *s),
            cur < t.len(),
            walk_backward(*t, *env, *s, j as int, start as int, false) == walk_backward(
                *t,
                *env,
                *s,
                cur as int,
                start as int,
                skipped,
            ),
        decreases cur,
    {
        if cur <= s.container {
            return (None, skipped);
        }
        let up = match t.nodes[cur].parent {
            Some(p) => check_chain(t, env, s, p, start),
            None => (Chain::Clear, false),
        };
        skipped = skipped || up.1;
        match up.0 {
            Chain::Found(x) => {
                return (Some(x), skipped);
            },
            Chain::Blocked(a) => {
                if a == 0 {
                    return (None, skipped);
                }
                cur = a - 1;
            },
            Chain::Clear => {
                let v = accept_element(t, env, s, cur);
                skipped = skipped || v.skipped;
                if v.filter == NodeFilterEnum::FilterAccept {
                    let f = match v.found {
                        Some(f) => f,
                        None => cur,
                    };
                    return (Some(f), skipped);
                }
                if cur == 0 {
                    return (None, skipped);
                }
                cur = cur - 1;
            },
        }
    }
}

/// Runs `walk_all` from `i`.
pub fn search_all(t: &Tree, env: &TabsterCore, s: &FocusableAcceptElementState, i: usize) -> (r: (
    Vec<usize>,
    bool,
))
    requires
        t.wf(),
        env_fits(*t, *env),
        state_fits(*t, *s),
        i < t.len(),
    ensures
        (r.0@, r.1) == walk_all(*t, *env, *s, i as int, true, Seq::empty(), false),
{
    let c_end = t.nodes[s.container].end;
    let mut st = FocusableAcceptElementState {
        container: s.container,
        from: s.from,
        modalizer_user_id: clone_id(&s.modalizer_user_id),
        is_backward: s.is_backward,
        ignore_accessibility: s.ignore_accessibility,
        include_programmatically_focusable: s.include_programmatically_focusable,
        is_find_all: s.is_find_all,
        tabbing: s.tabbing,
        reject_elements_from: s.reject_elements_from,
    };
    let mut cur = i;
    let mut descend = true;
    let mut skipped = false;
    let mut acc: Vec<usize> = Vec::new();
    loop
        invariant
            t.wf(),
            env_fits(*t, *env),
            state_fits(*t, st),
            st.container == s.container,
            cur < t.len(),
            c_end == t.end(s.container as int),
            walk_all(*t, *env, *s, i as int, true, Seq::empty(), false) == walk_all(
                *t,
                *env,
                st,
                cur as int,
                descend,
                acc@,
                skipped,
            ),
        decreases t.len() - cur,
    {
        let e = t.nodes[cur].end;
        proof {
            assert(cur < t.end(cur as int) <= t.len());
        }
        let next = if descend && cur + 1 < e {
            cur + 1
        } else {
            e
        };
        if next <= cur || next >= c_end || next >= t.nodes.len() {
            return (acc, skipped);
        }
        let v = accept_element(t, env, &st, next);
        skipped = skipped || v.skipped;
        if v.filter == NodeFilterEnum::FilterAccept {
            let f = match v.found {
                Some(f) => f,
                None => next,
            };
            acc.push(f);
            st.from = f;
            if v.reject_from.is_some() {
                st.reject_elements_from = v.reject_from;
            }
            descend = true;
        } else if v.filter == NodeFilterEnum::FilterReject {
            descend = false;
        } else {
            descend = true;
        }
        cur = next;
    }
}

} // verus!

verus! {

/// Options of a search.
#[derive(Clone, Debug)]
pub struct FindFocusableProps {
    /// The container used for the search.
    pub container: usize,
    /// The element to start from.
    pub current_element: Option<usize>,
    pub reference_element: Option<usize>,
    /// Include elements that can only be focused programmatically.
    pub include_programmatically_focusable: Option<bool>,
    pub ignore_accessibility: Option<bool>,
    /// Limit the search to the active trap.
    pub use_active_modalizer: Option<bool>,
    /// Limit the search to this trap.
    pub modalizer_id: Option<String>,
    /// Find the previous element instead of the next one.
    pub is_backward: Option<bool>,
}

/// Options of `find_first` and `find_last`.
#[derive(Clone, Copy, Debug, PartialEq, Eq, Structural)]
pub struct FindFirstProps {
    pub container: usize,
    pub ignore_accessibility: Option<bool>,
    pub use_active_modalizer: Option<bool>,
}

/// Options of `find_next` and `find_prev`.
#[derive(Clone, Copy, Debug, PartialEq, Eq, Structural)]
pub struct FindNextProps {
    pub current_element: Option<usize>,
    pub reference_element: Option<usize>,
    pub container: usize,
    pub ignore_accessibility: Option<bool>,
    pub use_active_modalizer: Option<bool>,
}

/// Options of `find_all`.
#[derive(Clone, Copy, Debug, PartialEq, Eq, Structural)]
pub struct FindAllProps {
    pub container: usize,
}

/// The trap a search is limited to: the active one when asked, else the
/// given one, else the container's own.
pub open spec fn search_modalizer_id(t: Tree, env: TabsterCore, p: FindFocusableProps) -> Option<
    String,
> {
    if p.modalizer_id.is_none() && p.use_active_modalizer == Some(true) {
        env.active_id()
    } else if p.modalizer_id.is_some() {
        p.modalizer_id
    } else {
        match context_of(t, env, p.container as int, GetTabsterContextOptions { check_rtl: false, reference_element: None }) {
            Some(c) => user_id_at(t, c.modalizer),
            None => None,
        }
    }
}

/// The decision inputs a search starts with.
pub open spec fn initial_state(
    t: Tree,
    env: TabsterCore,
    p: FindFocusableProps,
    is_find_all: bool,
    tabbing: bool,
) -> FocusableAcceptElementState {
    FocusableAcceptElementState {
        container: p.container,
        from: match p.current_element {
            Some(x) => x,
            None => p.container,
        },
        modalizer_user_id: search_modalizer_id(t, env, p),
        is_backward: p.is_backward == Some(true),
        ignore_accessibility: p.ignore_accessibility == Some(true),
        include_programmatically_focusable: p.include_programmatically_focusable == Some(true),
        is_find_all,
        tabbing,
        reject_elements_from: None,
    }
}

/// The element a single search finds, and whether a focusable element was
/// skipped: forward from the origin (or from the container's start when the
/// origin lies outside it); backward from just before the origin (or from
/// the container's last descendant).
pub open spec fn search_result(t: Tree, env: TabsterCore, p: FindFocusableProps, tabbing: bool) -> (
    Option<usize>,
    bool,
) {
    let s = initial_state(t, env, p, false, tabbing);
    let backward = p.is_backward == Some(true);
    match p.current_element {
        Some(x) if t.contains(p.container as int, x as int) => if backward {
            walk_backward(t, env, s, x - 1, x as int, false)
        } else {
            walk_forward(t, env, s, x as int, true, false)
        },
        _ => if backward {
            if t.end(p.container as int) > p.container + 1 {
                let last = t.end(p.container as int) - 1;
                walk_backward(t, env, s, last, last, false)
            } else {
                (None, false)
            }
        } else {
            walk_forward(t, env, s, p.container as int, true, false)
        },
    }
}

/// What the options of a search must satisfy against the tree.
pub open spec fn props_fit(t: Tree, p: FindFocusableProps) -> bool {
    &&& p.container < t.len()
    &&& (p.current_element matches Some(x) ==> x < t.len())
    &&& (p.reference_element matches Some(x) ==> x < t.len())
}

/// The search service.
#[derive(Clone, Copy, Debug, PartialEq, Eq, Structural)]
pub struct FocusableAPI {
    /// Searches run as part of keyboard navigation.
    pub tabbing: bool,
}

impl FindFocusableProps {
    /// Search options for `find_first`/`find_last`.
    pub fn from_first(v: FindFirstProps, is_backward: bool) -> (r: FindFocusableProps)
        ensures
            r == (FindFocusableProps {
                container: v.container,
                current_element: None,
                reference_element: None,
                include_programmatically_focusable: None,
                ignore_accessibility: v.ignore_accessibility,
                use_active_modalizer: v.use_active_modalizer,
                modalizer_id: None,
                is_backward: Some(is_backward),
            }),
    {
        FindFocusableProps {
            container: v.container,
            current_element: None,
            reference_element: None,
            include_programmatically_focusable: None,
            ignore_accessibility: v.ignore_accessibility,
            use_active_modalizer: v.use_active_modalizer,
            modalizer_id: None,
            is_backward: Some(is_backward),
        }
    }

    /// Search options for `find_next`/`find_prev`.
    pub fn from_next(v: FindNextProps, is_backward: bool) -> (r: FindFocusableProps)
        ensures
            r == (FindFocusableProps {
                container: v.container,
                current_element: v.current_element,
                reference_element: v.reference_element,
                include_programmatically_focusable: None,
                ignore_accessibility: v.ignore_accessibility,
                use_active_modalizer: v.use_active_modalizer,
                modalizer_id: None,
                is_backward: Some(is_backward),
            }),
    {
        FindFocusableProps {
            container: v.container,
            current_element: v.current_element,
            reference_element: v.reference_element,
            include_programmatically_focusable: None,
            ignore_accessibility: v.ignore_accessibility,
            use_active_modalizer: v.use_active_modalizer,
            modalizer_id: None,
            is_backward: Some(is_backward),
        }
    }
}

impl FocusableAPI {
    pub fn new(tabbing: bool) -> (r: FocusableAPI)
        ensures
            r.tabbing == tabbing,
    {
        FocusableAPI { tabbing }
    }

    /// Whether element `i` can take focus.
    pub fn is_focusable(
        &self,
        t: &Tree,
        env: &TabsterCore,
        i: usize,
        include_programmatically_focusable: bool,
        no_visible_check: bool,
        no_accessible_check: bool,
    ) -> (r: bool)
        requires
            t.wf(),
            i < t.len(),
        ensures
            r == is_focusable_spec(
                *t,
                *env,
                i as int,
                include_programmatically_focusable,
                no_visible_check,
                no_accessible_check,
            ),
    {
        is_focusable(
            t,
            env,
            i,
            include_programmatically_focusable,
            no_visible_check,
            no_accessible_check,
        )
    }

    fn initial_state_exec(
        &self,
        t: &Tree,
        env: &TabsterCore,
        p: &FindFocusableProps,
        is_find_all: bool,
    ) -> (r: FocusableAcceptElementState)
        requires
            t.wf(),
            env_fits(*t, *env),
            props_fit(*t, *p),
        ensures
            r == initial_state(*t, *env, *p, is_find_all, self.tabbing),
            state_fits(*t, r),
    {
        let uid = if p.modalizer_id.is_none() && flag(p.use_active_modalizer) {
            env.get_active_id()
        } else if p.modalizer_id.is_some() {
            clone_id(&p.modalizer_id)
        } else {
            match RootAPI::get_tabster_context(
                t,
                env,
                p.container,
                GetTabsterContextOptions { check_rtl: false, reference_element: None },
            ) {
                Some(c) => match c.modalizer {
                    Some(m) => match &t.nodes[m].modalizer {
                        Some(ms) => Some(ms.user_id.clone()),
                        None => None,
                    },
                    None => None,
                },
                None => None,
            }
        };
        FocusableAcceptElementState {
            container: p.container,
            from: match p.current_element {
                Some(x) => x,
                None => p.container,
            },
            modalizer_user_id: uid,
            is_backward: flag(p.is_backward),
            ignore_accessibility: flag(p.ignore_accessibility),
            include_programmatically_focusable: flag(p.include_programmatically_focusable),
            is_find_all,
            tabbing: self.tabbing,
            reject_elements_from: None,
        }
    }

    /// Finds one element; `out` records whether the result is out of
    /// document order and the opaque subtree it lies in.
    pub fn find_element(
        &self,
        t: &Tree,
        env: &TabsterCore,
        options: &FindFocusableProps,
        out: &mut FindFocusableOutputProps,
    ) -> (r: Option<usize>)
        requires
            t.wf(),
            env_fits(*t, *env),
            props_fit(*t, *options),
        ensures
            r == search_result(*t, *env, *options, self.tabbing).0,
            r matches Some(f) ==> f < t.len(),
            final(out).out_of_dom_order == (if options.current_element.is_none() || search_result(
                *t,
                *env,
                *options,
                self.tabbing,
            ).1 {
                Some(true)
            } else {
                old(out).out_of_dom_order
            }),
            final(out).uncontrolled == (match r {
                Some(f) => match context_of(*t, *env, f as int, GetTabsterContextOptions { check_rtl: false, reference_element: None }) {
                    Some(c) => c.uncontrolled,
                    None => None,
                },
                None => old(out).uncontrolled,
            }),
    {
        let s = self.initial_state_exec(t, env, options, false);
        let c = options.container;
        let backward = flag(options.is_backward);
        let res = match options.current_element {
            Some(x) if t.node_contains(c, x) => if backward {
                if x == 0 {
                    (None, false)
                } else {
                    search_backward(t, env, &s, x - 1, x)
                }
            } else {
                search_forward(t, env, &s, x)
            },
            _ => if backward {
                match t.get_last_child(c) {
                    Some(last) => search_backward(t, env, &s, last, last),
                    None => (None, false),
                }
            } else {
                search_forward(t, env, &s, c)
            },
        };
        if options.current_element.is_none() || res.1 {
            out.out_of_dom_order = Some(true);
        }
        match res.0 {
            Some(f) => {
                out.uncontrolled = match RootAPI::get_tabster_context(
                    t,
                    env,
                    f,
                    GetTabsterContextOptions { check_rtl: false, reference_element: None },
                ) {
                    Some(ctx) => ctx.uncontrolled,
                    None => None,
                };
            },
            None => {},
        }
        res.0
    }

    /// The first focusable element of a container.
    pub fn find_first(
        &self,
        t: &Tree,
        env: &TabsterCore,
        options: FindFirstProps,
        out: &mut FindFocusableOutputProps,
    ) -> (r: Option<usize>)
        requires
            t.wf(),
            env_fits(*t, *env),
            options.container < t.len(),
        ensures
            r == search_result(
                *t,
                *env,
                FindFocusableProps::from_first_spec(options, false),
                self.tabbing,
            ).0,
            r matches Some(f) ==> f < t.len(),
            final(out).out_of_dom_order == Some(true),
            final(out).uncontrolled == (match r {
                Some(f) => match context_of(*t, *env, f as int, GetTabsterContextOptions { check_rtl: false, reference_element: None }) {
                    Some(c) => c.uncontrolled,
                    None => None,
                },
                None => old(out).uncontrolled,
            }),
    {
        let p = FindFocusableProps::from_first(options, false);
        self.find_element(t, env, &p, out)
    }

    /// The last focusable element of a container.
    pub fn find_last(
        &self,
        t: &Tree,
        env: &TabsterCore,
        options: FindFirstProps,
        out: &mut FindFocusableOutputProps,
    ) -> (r: Option<usize>)
        requires
            t.wf(),
            env_fits(*t, *env),
            options.container < t.len(),
        ensures
            r == search_result(
                *t,
                *env,
                FindFocusableProps::from_first_spec(options, true),
                self.tabbing,
            ).0,
            r matches Some(f) ==> f < t.len(),
            final(out).out_of_dom_order == Some(true),
            final(out).uncontrolled == (match r {
                Some(f) => match context_of(*t, *env, f as int, GetTabsterContextOptions { check_rtl: false, reference_element: None }) {
                    Some(c) => c.uncontrolled,
                    None => None,
                },
                None => old(out).uncontrolled,
            }),
    {
        let p = FindFocusableProps::from_first(options, true);
        self.find_element(t, env, &p, out)
    }

    /// The next focusable element after `current_element`.
    pub fn find_next(
        &self,
        t: &Tree,
        env: &TabsterCore,
        options: FindNextProps,
        out: &mut FindFocusableOutputProps,
    ) -> (r: Option<usize>)
        requires
            t.wf(),
            env_fits(*t, *env),
            options.container < t.len(),
            options.current_element matches Some(x) ==> x < t.len(),
            options.reference_element matches Some(x) ==> x < t.len(),
        ensures
            r == search_result(
                *t,
                *env,
                FindFocusableProps::from_next_spec(options, false),
                self.tabbing,
            ).0,
            r matches Some(f) ==> f < t.len(),
            final(out).out_of_dom_order == (if FindFocusableProps::from_next_spec(options, false).current_element.is_none() || search_result(
                *t,
                *env,
                FindFocusableProps::from_next_spec(options, false),
                self.tabbing,
            ).1 {
                Some(true)
            } else {
                old(out).out_of_dom_order
            }),
            final(out).uncontrolled == (match r {
                Some(f) => match context_of(*t, *env, f as int, GetTabsterContextOptions { check_rtl: false, reference_element: None }) {
                    Some(c) => c.uncontrolled,
                    None => None,
                },
                None => old(out).uncontrolled,
            }),
    {
        let p = FindFocusableProps::from_next(options, false);
        self.find_element(t, env, &p, out)
    }

    /// The previous focusable element before `current_element`.
    pub fn find_prev(
        &self,
        t: &Tree,
        env: &TabsterCore,
        options: FindNextProps,
        out: &mut FindFocusableOutputProps,
    ) -> (r: Option<usize>)
        requires
            t.wf(),
            env_fits(*t, *env),
            options.container < t.len(),
            options.current_element matches Some(x) ==> x < t.len(),
            options.reference_element matches Some(x) ==> x < t.len(),
        ensures
            r == search_result(
                *t,
                *env,
                FindFocusableProps::from_next_spec(options, true),
                self.tabbing,
            ).0,
            r matches Some(f) ==> f < t.len(),
            final(out).out_of_dom_order == (if FindFocusableProps::from_next_spec(options, true).current_element.is_none() || search_result(
                *t,
                *env,
                FindFocusableProps::from_next_spec(options, true),
                self.tabbing,
            ).1 {
                Some(true)
            } else {
                old(out).out_of_dom_order
            }),
            final(out).uncontrolled == (match r {
                Some(f) => match context_of(*t, *env, f as int, GetTabsterContextOptions { check_rtl: false, reference_element: None }) {
                    Some(c) => c.uncontrolled,
                    None => None,
                },
                None => old(out).uncontrolled,
            }),
    {
        let p = FindFocusableProps::from_next(options, true);
        self.find_element(t, env, &p, out)
    }

    /// Every focusable element of a container, in document order.
    pub fn find_all(
        &self,
        t: &Tree,
        env: &TabsterCore,
        options: FindAllProps,
        out: &mut FindFocusableOutputProps,
    ) -> (r: Vec<usize>)
        requires
            t.wf(),
            env_fits(*t, *env),
            options.container < t.len(),
        ensures
            (r@, final(out).out_of_dom_order == Some(true)) == walk_all(
                *t,
                *env,
                initial_state(*t, *env, FindFocusableProps::from_all_spec(options), true, self.tabbing),
                options.container as int,
                true,
                Seq::empty(),
                true,
            ),
    {
        let p = FindFocusableProps {
            container: options.container,
            current_element: None,
            reference_element: None,
            include_programmatically_focusable: None,
            ignore_accessibility: None,
            use_active_modalizer: None,
            modalizer_id: None,
            is_backward: None,
        };
        let s = self.initial_state_exec(t, env, &p, true);
        let (all, _skipped) = search_all(t, env, &s, options.container);
        out.out_of_dom_order = Some(true);
        proof {
            walk_all_skipped_sticks(*t, *env, s, options.container as int, true, Seq::empty());
        }
        all
    }
}

impl FindFocusableProps {
    pub open spec fn from_first_spec(v: FindFirstProps, is_backward: bool) -> FindFocusableProps {
        FindFocusableProps {
            container: v.container,
            current_element: None,
            reference_element: None,
            include_programmatically_focusable: None,
            ignore_accessibility: v.ignore_accessibility,
            use_active_modalizer: v.use_active_modalizer,
            modalizer_id: None,
            is_backward: Some(is_backward),
        }
    }

    pub open spec fn from_next_spec(v: FindNextProps, is_backward: bool) -> FindFocusableProps {
        FindFocusableProps {
            container: v.container,
            current_element: v.current_element,
            reference_element: v.reference_element,
            include_programmatically_focusable: None,
            ignore_accessibility: v.ignore_accessibility,
            use_active_modalizer: v.use_active_modalizer,
            modalizer_id: None,
            is_backward: Some(is_backward),
        }
    }

    pub open spec fn from_all_spec(v: FindAllProps) -> FindFocusableProps {
        FindFocusableProps {
            container: v.container,
            current_element: None,
            reference_element: None,
            include_programmatically_focusable: None,
            ignore_accessibility: None,
            use_active_modalizer: None,
            modalizer_id: None,
            is_backward: None,
        }
    }
}

/// Once the skipped flag is set, a collecting walk keeps it, and the
/// elements it collects do not depend on it.
pub proof fn walk_all_skipped_sticks(
    t: Tree,
    env: TabsterCore,
    s: FocusableAcceptElementState,
    i: int,
    descend: bool,
    acc: Seq<usize>,
)
    ensures
        walk_all(t, env, s, i, descend, acc, true).1,
        walk_all(t, env, s, i, descend, acc, true).0 == walk_all(t, env, s, i, descend, acc, false).0,
    decreases t.len() - i,
{
    if i < 0 || i >= t.len() || s.container >= t.len() {
    } else {
        let next = if descend && i + 1 < t.end(i) {
            i + 1
        } else {
            t.end(i)
        };
        if next <= i || next >= t.end(s.container as int) || next >= t.len() {
        } else {
            let v = decide(t, env, s, next);
            if v.filter == NodeFilterEnum::FilterAccept {
                let f = match v.found {
                    Some(f) => f,
                    None => next as usize,
                };
                let s2 = FocusableAcceptElementState {
                    from: f,
                    reject_elements_from: if v.reject_from.is_some() {
                        v.reject_from
                    } else {
                        s.reject_elements_from
                    },
                    ..s
                };
                walk_all_skipped_sticks(t, env, s2, next, true, acc.push(f));
                walk_all_flag_irrelevant(t, env, s2, next, true, acc.push(f), v.skipped);
            } else if v.filter == NodeFilterEnum::FilterReject {
                walk_all_skipped_sticks(t, env, s, next, false, acc);
                walk_all_flag_irrelevant(t, env, s, next, false, acc, v.skipped);
            } else {
                walk_all_skipped_sticks(t, env, s, next, true, acc);
                walk_all_flag_irrelevant(t, env, s, next, true, acc, v.skipped);
            }
        }
    }
}

/// The elements a collecting walk gathers do not depend on the skipped flag
/// it starts with.
pub proof fn walk_all_flag_irrelevant(
    t: Tree,
    env: TabsterCore,
    s: FocusableAcceptElementState,
    i: int,
    descend: bool,
    acc: Seq<usize>,
    b: bool,
)
    ensures
        walk_all(t, env, s, i, descend, acc, b).0 == walk_all(t, env, s, i, descend, acc, false).0,
    decreases t.len() - i,
{
    if i < 0 || i >= t.len() || s.container >= t.len() {
    } else {
        let next = if descend && i + 1 < t.end(i) {
            i + 1
        } else {
            t.end(i)
        };
        if next <= i || next >= t.end(s.container as int) || next >= t.len() {
        } else {
            let v = decide(t, env, s, next);
            if v.filter == NodeFilterEnum::FilterAccept {
                let f = match v.found {
                    Some(f) => f,
                    None => next as usize,
                };
                let s2 = FocusableAcceptElementState {
                    from: f,
                    reject_elements_from: if v.reject_from.is_some() {
                        v.reject_from
                    } else {
                        s.reject_elements_from
                    },
                    ..s
                };
                walk_all_flag_irrelevant(t, env, s2, next, true, acc.push(f), b || v.skipped);
                walk_all_flag_irrelevant(t, env, s2, next, true, acc.push(f), v.skipped);
            } else if v.filter == NodeFilterEnum::FilterReject {
                walk_all_flag_irrelevant(t, env, s, next, false, acc, b || v.skipped);
                walk_all_flag_irrelevant(t, env, s, next, false, acc, v.skipped);
            } else {
                walk_all_flag_irrelevant(t, env, s, next, true, acc, b || v.skipped);
                walk_all_flag_irrelevant(t, env, s, next, true, acc, v.skipped);
            }
        }
    }
}

} // verus!

verus! {

/// The opaque subtree that holds a found element.
pub open spec fn found_uncontrolled(t: Tree, env: TabsterCore, f: Option<usize>) -> Option<usize> {
    match f {
        Some(x) => match context_of(t, env, x as int, GetTabsterContextOptions { check_rtl: false, reference_element: None }) {
            Some(c) => c.uncontrolled,
            None => None,
        },
        None => None,
    }
}

/// A search made during keyboard navigation, with fresh side results.
pub open spec fn navigation_search(t: Tree, env: TabsterCore, p: FindFocusableProps) -> (
    Option<usize>,
    FindFocusableOutputProps,
) {
    let r = search_result(t, env, p, true);
    (
        r.0,
        FindFocusableOutputProps {
            out_of_dom_order: if p.current_element.is_none() || r.1 {
                Some(true)
            } else {
                None
            },
            uncontrolled: found_uncontrolled(t, env, r.0),
        },
    )
}

/// Search options bounded to `container`, limited to the active trap.
pub open spec fn bounded(
    container: usize,
    current: Option<usize>,
    reference: Option<usize>,
    ignore_accessibility: Option<bool>,
    backward: bool,
) -> FindFocusableProps {
    FindFocusableProps {
        container,
        current_element: current,
        reference_element: reference,
        include_programmatically_focusable: None,
        ignore_accessibility,
        use_active_modalizer: Some(true),
        modalizer_id: None,
        is_backward: Some(backward),
    }
}

/// See `navigation_search`.
pub fn navigate(
    t: &Tree,
    env: &TabsterCore,
    container: usize,
    current: Option<usize>,
    reference: Option<usize>,
    ignore_accessibility: Option<bool>,
    backward: bool,
) -> (r: (Option<usize>, FindFocusableOutputProps))
    requires
        t.wf(),
        env_fits(*t, *env),
        container < t.len(),
        current matches Some(x) ==> x < t.len(),
        reference matches Some(x) ==> x < t.len(),
    ensures
        r == navigation_search(
            *t,
            *env,
            bounded(container, current, reference, ignore_accessibility, backward),
        ),
        r.0 matches Some(f) ==> f < t.len(),
{
    let api = FocusableAPI { tabbing: true };
    let p = FindFocusableProps {
        container,
        current_element: current,
        reference_element: reference,
        include_programmatically_focusable: None,
        ignore_accessibility,
        use_active_modalizer: Some(true),
        modalizer_id: None,
        is_backward: Some(backward),
    };
    let mut out = FindFocusableOutputProps { out_of_dom_order: None, uncontrolled: None };
    let f = api.find_element(t, env, &p, &mut out);
    (f, out)
}

} // verus!
