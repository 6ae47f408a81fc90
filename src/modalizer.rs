//! Traps: modal scopes that exclude everything outside the active one.
use vstd::prelude::*;
use crate::engine::{env_fits, ModalizerAPI, TabsterCore};
use crate::root::{RootAPI, same_id, context_sound, id_view, nearest_root, user_id_at, TabsterContext};
use crate::search::{bounded, navigate, navigation_search};
use crate::tree::Tree;
use crate::types::{flag, FocusableAcceptElementState, NextTabbable, NodeFilterEnum};

verus! {

/// Some element of the active trap lies in the subtree of `c`.
pub open spec fn holds_active_part(t: Tree, api: ModalizerAPI, c: int) -> bool {
    exists|k: int|
        0 <= k < api.active_elements@.len() && #[trigger] t.contains(c, api.active_elements@[k] as int)
}

/// The trap's opinion on candidate `c` whose context is `ctx`: skip it when
/// it holds a part of the active trap, none when it belongs to the trap the
/// search is limited to, none when it belongs to an always-accessible trap
/// and the search is limited to no trap or to the active one, else reject it.
pub open spec fn modalizer_accept_spec(
    t: Tree,
    api: ModalizerAPI,
    s: FocusableAcceptElementState,
    c: int,
    ctx: TabsterContext,
) -> Option<NodeFilterEnum> {
    if s.modalizer_user_id.is_some() && holds_active_part(t, api, c) {
        Some(NodeFilterEnum::FilterSkip)
    } else if id_view(s.modalizer_user_id) == id_view(user_id_at(t, ctx.modalizer)) {
        None
    } else if (s.modalizer_user_id.is_none() || id_view(s.modalizer_user_id) == id_view(
        api.active_id,
    )) && (ctx.modalizer matches Some(m) && t.nodes@[
        m as int].modalizer.unwrap().props.is_always_accessible == Some(true)) {
        None
    } else {
        Some(NodeFilterEnum::FilterReject)
    }
}

impl ModalizerAPI {
    /// See `modalizer_accept_spec`.
    pub fn accept_element(
        &self,
        t: &Tree,
        c: usize,
        state: &FocusableAcceptElementState,
        ctx: &TabsterContext,
    ) -> (r: Option<NodeFilterEnum>)
        requires
            t.wf(),
            c < t.len(),
            context_sound(*t, *ctx),
        ensures
            r == modalizer_accept_spec(*t, *self, *state, c as int, *ctx),
    {
        if state.modalizer_user_id.is_some() {
            let mut k: usize = 0;
            while k < self.active_elements.len()
                invariant
                    t.wf(),
                    c < t.len(),
                    k <= self.active_elements@.len(),
                    state.modalizer_user_id.is_some(),
                    forall|q: int| 0 <= q < k ==> !t.contains(c as int, #[trigger] self.active_elements@[q] as int),
                decreases self.active_elements@.len() - k,
            {
                if t.node_contains(c, self.active_elements[k]) {
                    assert(t.contains(c as int, self.active_elements@[k as int] as int));
                    assert(holds_active_part(*t, *self, c as int));
                    return Some(NodeFilterEnum::FilterSkip);
                }
                k = k + 1;
            }
        }
        assert(!holds_active_part(*t, *self, c as int) || state.modalizer_user_id.is_none());
        let current_id = match ctx.modalizer {
            Some(m) => match &t.nodes[m].modalizer {
                Some(ms) => Some(ms.user_id.clone()),
                None => None,
            },
            None => None,
        };
        if same_id(&state.modalizer_user_id, &current_id) {
            return None;
        }
        let always = match ctx.modalizer {
            Some(m) => match &t.nodes[m].modalizer {
                Some(ms) => ms.props.is_always_accessible == Some(true),
                None => false,
            },
            None => false,
        };
        if (state.modalizer_user_id.is_none() || same_id(&state.modalizer_user_id, &self.active_id))
            && always {
            None
        } else {
            Some(NodeFilterEnum::FilterReject)
        }
    }
}

} // verus!

verus! {

/// Where tabbing goes from `current` as far as the trap at `m` decides: the
/// next element within the current element's scope; when there is none and
/// the trap keeps focus while some trap is active, around to the first (or
/// last) element of the scope, or back to the current element.
pub open spec fn modalizer_next_spec(
    t: Tree,
    env: TabsterCore,
    m: int,
    current: Option<usize>,
    reference: Option<usize>,
    backward: bool,
    ignore_accessibility: Option<bool>,
) -> Option<NextTabbable> {
    let trapped = t.nodes@[m].modalizer.unwrap().props.is_trapped == Some(true);
    let container = match current {
        Some(c) => nearest_root(t, c as int),
        None => None,
    };
    match container {
        None => Some(NextTabbable { element: None, uncontrolled: None, out_of_dom_order: Some(false) }),
        Some(ct) => {
            let first_try = navigation_search(
                t,
                env,
                bounded(ct, current, reference, ignore_accessibility, backward),
            );
            if first_try.0.is_none() && trapped && env.active_id().is_some() {
                let wrap = navigation_search(t, env, bounded(ct, None, None, ignore_accessibility, backward));
                Some(
                    NextTabbable {
                        element: if wrap.0.is_none() {
                            current
                        } else {
                            wrap.0
                        },
                        uncontrolled: wrap.1.uncontrolled,
                        out_of_dom_order: Some(true),
                    },
                )
            } else {
                Some(
                    NextTabbable {
                        element: first_try.0,
                        uncontrolled: first_try.1.uncontrolled,
                        out_of_dom_order: Some(first_try.1.out_of_dom_order == Some(true)),
                    },
                )
            }
        },
    }
}

/// A trap, named by the element it is attached to.
#[derive(Clone, Copy, Debug, PartialEq, Eq, Structural)]
pub struct Modalizer {
    pub element: usize,
}

impl Modalizer {
    pub open spec fn valid(&self, t: Tree) -> bool {
        t.wf() && self.element < t.len() && t.nodes@[self.element as int].modalizer.is_some()
    }

    pub fn get_element(&self) -> (r: usize)
        ensures
            r == self.element,
    {
        self.element
    }

    /// See `modalizer_next_spec`.
    pub fn find_next_tabbable(
        &self,
        t: &Tree,
        env: &TabsterCore,
        current: Option<usize>,
        reference: Option<usize>,
        is_backward: bool,
        ignore_accessibility: Option<bool>,
    ) -> (r: Option<NextTabbable>)
        requires
            self.valid(*t),
            env_fits(*t, *env),
            current matches Some(x) ==> x < t.len(),
            reference matches Some(x) ==> x < t.len(),
        ensures
            r == modalizer_next_spec(
                *t,
                *env,
                self.element as int,
                current,
                reference,
                is_backward,
                ignore_accessibility,
            ),
            r matches Some(n) ==> (n.element matches Some(x) ==> x < t.len()),
    {
        let trapped = match &t.nodes[self.element].modalizer {
            Some(ms) => flag(ms.props.is_trapped),
            None => false,
        };
        let container = match current {
            Some(c) => RootAPI::get_root(t, c),
            None => None,
        };
        match container {
            None => Some(NextTabbable { element: None, uncontrolled: None, out_of_dom_order: Some(false) }),
            Some(ct) => {
                let first_try = navigate(t, env, ct, current, reference, ignore_accessibility, is_backward);
                if first_try.0.is_none() && trapped && env.get_active_id().is_some() {
                    let wrap = navigate(t, env, ct, None, None, ignore_accessibility, is_backward);
                    Some(
                        NextTabbable {
                            element: if wrap.0.is_none() {
                                current
                            } else {
                                wrap.0
                            },
                            uncontrolled: wrap.1.uncontrolled,
                            out_of_dom_order: Some(true),
                        },
                    )
                } else {
                    Some(
                        NextTabbable {
                            element: first_try.0,
                            uncontrolled: first_try.1.uncontrolled,
                            out_of_dom_order: Some(flag(first_try.1.out_of_dom_order)),
                        },
                    )
                }
            },
        }
    }
}

} // verus!
