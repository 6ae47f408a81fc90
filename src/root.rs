//! The context resolver: which behaviors apply to an element.
use vstd::prelude::*;
use crate::engine::{env_fits, TabsterCore};
use crate::groupper::{groupper_is_active, Groupper};
use crate::text::{is_rtl_value, lower_of, lowercase};
use crate::instance::replace_behaviors;
use crate::tree::{links_match, same_index, Tag, Tree};
use crate::types::IgnoreKeydown;

verus! {

/// Options of a context query.
#[derive(Clone, Copy, Debug, Default, PartialEq, Eq, Structural)]
pub struct GetTabsterContextOptions {
    /// Visit all ancestors to find the writing direction.
    pub check_rtl: bool,
    /// Start the walk here instead of at the element itself.
    pub reference_element: Option<usize>,
}

/// The behaviors that apply to an element, each named by the element it is
/// attached to.
#[derive(Clone, Copy, Debug, PartialEq, Eq, Structural)]
pub struct TabsterContext {
    pub root: usize,
    pub modalizer: Option<usize>,
    pub groupper: Option<usize>,
    pub mover: Option<usize>,
    pub groupper_before_mover: Option<bool>,
    pub modalizer_in_groupper: Option<usize>,
    pub rtl: Option<bool>,
    pub excluded_from_mover: Option<bool>,
    pub uncontrolled: Option<usize>,
    pub ignore_keydown: IgnoreKeydown,
}

impl TabsterContext {
    /// Whether the built-in handling of `key` is suppressed here.
    pub fn should_ignore_keydown(&self, key: &str) -> (r: bool)
        ensures
            r == (key@ == "tab"@ && self.ignore_keydown.tab == Some(true)),
    {
        match self.ignore_keydown.get(key) {
            Some(b) => b,
            None => false,
        }
    }
}

/// What the ancestor walk has gathered so far.
#[derive(Clone, Copy, Debug, PartialEq, Eq, Structural)]
pub struct ContextWalk {
    pub root: Option<usize>,
    pub modalizer: Option<usize>,
    pub groupper: Option<usize>,
    pub mover: Option<usize>,
    pub excluded_from_mover: bool,
    pub groupper_before_mover: Option<bool>,
    pub modalizer_in_groupper: Option<usize>,
    pub rtl: Option<bool>,
    pub uncontrolled: Option<usize>,
    pub ignore_keydown: IgnoreKeydown,
}

pub open spec fn empty_walk() -> ContextWalk {
    ContextWalk {
        root: None,
        modalizer: None,
        groupper: None,
        mover: None,
        excluded_from_mover: false,
        groupper_before_mover: None,
        modalizer_in_groupper: None,
        rtl: None,
        uncontrolled: None,
        ignore_keydown: IgnoreKeydown { tab: None },
    }
}

/// The user id of the trap at `m`.
pub open spec fn user_id_at(t: Tree, m: Option<usize>) -> Option<String> {
    match m {
        Some(i) => match t.nodes@[i as int].modalizer {
            Some(s) => Some(s.user_id),
            None => None,
        },
        None => None,
    }
}

/// The characters of an optional id.
pub open spec fn id_view(o: Option<String>) -> Option<Seq<char>> {
    match o {
        Some(s) => Some(s@),
        None => None,
    }
}

/// What visiting ancestor `cur` adds to the walk for `element`.
pub open spec fn walk_step(
    t: Tree,
    env: TabsterCore,
    element: int,
    check_rtl: bool,
    w: ContextWalk,
    cur: int,
) -> ContextWalk {
    let e = t.nodes@[cur];
    let rtl = if check_rtl && w.rtl.is_none() && e.dir@.len() != 0 {
        Some(lower_of(e.dir@) == "rtl"@)
    } else {
        w.rtl
    };
    if !e.has_behaviors() {
        ContextWalk { rtl, ..w }
    } else {
        let uncontrolled = if e.uncontrolled || e.tag == Tag::IFrame || e.tag == Tag::WebView {
            Some(cur as usize)
        } else {
            w.uncontrolled
        };
        let excluded = if w.mover.is_none() && w.groupper.is_none() && (e.focusable matches Some(
            f,
        ) && f.exclude_from_mover == Some(true)) {
            true
        } else {
            w.excluded_from_mover
        };
        let m1 = if w.modalizer.is_none() && e.modalizer.is_some() {
            Some(cur as usize)
        } else {
            w.modalizer
        };
        let takes_group = w.groupper.is_none() && (m1.is_none() || m1 == Some(cur as usize))
            && e.groupper.is_some();
        let shadows = m1.is_some() && groupper_is_active(t, env, cur, false) != Some(true)
            && e.groupper.unwrap().props.tabbability.unwrap_or(0) != 0 && id_view(user_id_at(t, m1))
            != id_view(env.active_id());
        let m2 = if takes_group && shadows {
            None
        } else {
            m1
        };
        let g2 = if takes_group && (m1.is_none() || shadows) {
            Some(cur as usize)
        } else {
            w.groupper
        };
        let mig = if takes_group && m1.is_some() {
            Some(cur as usize)
        } else {
            w.modalizer_in_groupper
        };
        let takes_mover = w.mover.is_none() && e.mover.is_some() && (m2.is_none()
            || m2 == Some(cur as usize)) && (e.groupper.is_none() || cur != element) && t.contains(
            cur,
            element,
        );
        let mover = if takes_mover {
            Some(cur as usize)
        } else {
            w.mover
        };
        let gbm = if takes_mover {
            Some(
                match g2 {
                    Some(g) => g != cur,
                    None => false,
                },
            )
        } else {
            w.groupper_before_mover
        };
        let root = if e.root {
            Some(cur as usize)
        } else {
            w.root
        };
        let ignore_keydown = match e.focusable {
            Some(f) => match f.ignore_keydown {
                Some(ik) => if ik.tab.is_some() {
                    ik
                } else {
                    w.ignore_keydown
                },
                None => w.ignore_keydown,
            },
            None => w.ignore_keydown,
        };
        ContextWalk {
            root,
            modalizer: m2,
            groupper: g2,
            mover,
            excluded_from_mover: excluded,
            groupper_before_mover: gbm,
            modalizer_in_groupper: mig,
            rtl,
            uncontrolled,
            ignore_keydown,
        }
    }
}

/// The walk from `cur` up through its ancestors; it stops once a scope is
/// found, unless the writing direction is asked for.
pub open spec fn walk_from(
    t: Tree,
    env: TabsterCore,
    element: int,
    check_rtl: bool,
    w: ContextWalk,
    cur: int,
) -> ContextWalk
    decreases cur,
{
    if cur < 0 || cur >= t.len() || (w.root.is_some() && !check_rtl) {
        w
    } else {
        let w2 = walk_step(t, env, element, check_rtl, w, cur);
        match t.nodes@[cur].parent {
            Some(p) => if p < cur {
                walk_from(t, env, element, check_rtl, w2, p as int)
            } else {
                w2
            },
            None => w2,
        }
    }
}

/// The context of `element`: `None` when no scope encloses it and no
/// automatic scope can stand in.
pub open spec fn context_of(
    t: Tree,
    env: TabsterCore,
    element: int,
    options: GetTabsterContextOptions,
) -> Option<TabsterContext> {
    let start = match options.reference_element {
        Some(r) => r as int,
        None => element,
    };
    let w = walk_from(t, env, element, options.check_rtl, empty_walk(), start);
    let root = if w.root.is_none() && env.auto_root.is_some() && env.body.is_some() {
        env.body
    } else {
        w.root
    };
    match root {
        Some(r) => Some(
            TabsterContext {
                root: r,
                modalizer: w.modalizer,
                groupper: w.groupper,
                mover: w.mover,
                groupper_before_mover: if w.groupper.is_some() && w.mover.is_none() {
                    Some(true)
                } else {
                    w.groupper_before_mover
                },
                modalizer_in_groupper: w.modalizer_in_groupper,
                rtl: if options.check_rtl {
                    Some(w.rtl == Some(true))
                } else {
                    None
                },
                excluded_from_mover: Some(w.excluded_from_mover),
                uncontrolled: w.uncontrolled,
                ignore_keydown: w.ignore_keydown,
            },
        ),
        None => None,
    }
}

/// Every element a walk names lies on the ancestor chain of the start, at or
/// above it.
pub open spec fn walk_below(t: Tree, w: ContextWalk, bound: int) -> bool {
    &&& (w.root matches Some(x) ==> x <= bound)
    &&& (w.modalizer matches Some(x) ==> x <= bound)
    &&& (w.groupper matches Some(x) ==> x <= bound)
    &&& (w.mover matches Some(x) ==> x <= bound)
    &&& (w.modalizer_in_groupper matches Some(x) ==> x <= bound)
    &&& (w.uncontrolled matches Some(x) ==> x <= bound)
    &&& (w.modalizer matches Some(x) ==> t.nodes@[x as int].modalizer.is_some())
    &&& (w.groupper matches Some(x) ==> t.nodes@[x as int].groupper.is_some())
    &&& (w.mover matches Some(x) ==> t.nodes@[x as int].mover.is_some())
    &&& (w.modalizer_in_groupper matches Some(x) ==> t.nodes@[x as int].groupper.is_some())
}

/// The elements a context names exist and carry the behaviors it names.
pub open spec fn context_sound(t: Tree, c: TabsterContext) -> bool {
    &&& c.root < t.len()
    &&& (c.modalizer matches Some(x) ==> x < t.len() && t.nodes@[x as int].modalizer.is_some())
    &&& (c.groupper matches Some(x) ==> x < t.len() && t.nodes@[x as int].groupper.is_some())
    &&& (c.mover matches Some(x) ==> x < t.len() && t.nodes@[x as int].mover.is_some())
    &&& (c.uncontrolled matches Some(x) ==> x < t.len())
    &&& (c.modalizer_in_groupper matches Some(x) ==> x < t.len() && t.nodes@[
        x as int].groupper.is_some())
}

fn user_id_of(t: &Tree, m: Option<usize>) -> (r: Option<String>)
    requires
        t.wf(),
        m matches Some(i) ==> i < t.len(),
    ensures
        r == user_id_at(*t, m),
{
    match m {
        Some(i) => match &t.nodes[i].modalizer {
            Some(s) => Some(s.user_id.clone()),
            None => None,
        },
        None => None,
    }
}

/// Equality of optional ids, by their characters.
pub(crate) fn same_id(a: &Option<String>, b: &Option<String>) -> (r: bool)
    ensures
        r == (id_view(*a) == id_view(*b)),
{
    match (a, b) {
        (Some(x), Some(y)) => *x == *y,
        (None, None) => true,
        _ => false,
    }
}

fn step_exec(
    t: &Tree,
    env: &TabsterCore,
    element: usize,
    check_rtl: bool,
    w: ContextWalk,
    cur: usize,
) -> (r: ContextWalk)
    requires
        t.wf(),
        cur < t.len(),
        element < t.len(),
        walk_below(*t, w, t.len() - 1),
    ensures
        r == walk_step(*t, *env, element as int, check_rtl, w, cur as int),
        walk_below(*t, r, t.len() - 1),
{
    let e = &t.nodes[cur];
    let rtl = if check_rtl && w.rtl.is_none() && !e.dir.as_str().is_empty() {
        let lowered = lowercase(e.dir.as_str());
        Some(is_rtl_value(&lowered))
    } else {
        w.rtl
    };
    if !e.behaviors_attached() {
        return ContextWalk { rtl, ..w };
    }
    let uncontrolled = if e.uncontrolled || e.tag == Tag::IFrame || e.tag == Tag::WebView {
        Some(cur)
    } else {
        w.uncontrolled
    };
    let excludes = match e.focusable {
        Some(f) => f.exclude_from_mover == Some(true),
        None => false,
    };
    let excluded = if w.mover.is_none() && w.groupper.is_none() && excludes {
        true
    } else {
        w.excluded_from_mover
    };
    let m1 = if w.modalizer.is_none() && e.modalizer.is_some() {
        Some(cur)
    } else {
        w.modalizer
    };
    let takes_group = w.groupper.is_none() && (m1.is_none() || same_index(m1, Some(cur)))
        && e.groupper.is_some();
    let mut shadows = false;
    if takes_group && m1.is_some() {
        let g = Groupper { element: cur };
        let active = g.is_active(t, env, false);
        let tab = match e.groupper.unwrap().props.tabbability {
            Some(x) => x,
            None => 0,
        };
        let uid = user_id_of(t, m1);
        let aid = env.get_active_id();
        shadows = active != Some(true) && tab != 0 && !same_id(&uid, &aid);
    }
    proof {
        if takes_group {
            assert(shadows == (m1.is_some() && groupper_is_active(*t, *env, cur as int, false)
                != Some(true) && t.nodes@[cur as int].groupper.unwrap().props.tabbability.unwrap_or(
            0) != 0 && id_view(user_id_at(*t, m1)) != id_view(env.active_id())));
        }
    }
    let m2 = if takes_group && shadows {
        None
    } else {
        m1
    };
    let g2 = if takes_group && (m1.is_none() || shadows) {
        Some(cur)
    } else {
        w.groupper
    };
    let mig = if takes_group && m1.is_some() {
        Some(cur)
    } else {
        w.modalizer_in_groupper
    };
    let takes_mover = w.mover.is_none() && e.mover.is_some() && (m2.is_none()
        || same_index(m2, Some(cur))) && (e.groupper.is_none() || cur != element) && t.node_contains(
        cur,
        element,
    );
    let mover = if takes_mover {
        Some(cur)
    } else {
        w.mover
    };
    let gbm = if takes_mover {
        Some(
            match g2 {
                Some(g) => g != cur,
                None => false,
            },
        )
    } else {
        w.groupper_before_mover
    };
    let root = if e.root {
        Some(cur)
    } else {
        w.root
    };
    let ignore_keydown = match e.focusable {
        Some(f) => match f.ignore_keydown {
            Some(ik) => {
                let mut acc = w.ignore_keydown;
                acc.assign(ik);
                if ik.tab.is_some() {
                    ik
                } else {
                    acc
                }
            },
            None => w.ignore_keydown,
        },
        None => w.ignore_keydown,
    };
    ContextWalk {
        root,
        modalizer: m2,
        groupper: g2,
        mover,
        excluded_from_mover: excluded,
        groupper_before_mover: gbm,
        modalizer_in_groupper: mig,
        rtl,
        uncontrolled,
        ignore_keydown,
    }
}

/// The scope service: context resolution and scope lookup.
#[derive(Clone, Copy, Debug, PartialEq, Eq, Structural)]
pub struct RootAPI {}

impl RootAPI {
    /// Attaches a scope to `element`. Nothing else changes.
    pub fn create_root(t: &mut Tree, element: usize)
        requires
            old(t).wf(),
            element < old(t).len(),
        ensures
            final(t).wf(),
            links_match(*old(t)) ==> links_match(*final(t)),
            final(t).len() == old(t).len(),
            forall|j: int|
                0 <= j < old(t).len() && j != element ==> #[trigger] final(t).nodes@[j] == old(t).nodes@[j],
            final(t).nodes@[element as int] == (crate::tree::Element {
                root: true,
                ..old(t).nodes@[element as int]
            }),
    {
        let groupper = t.nodes[element].groupper;
        let mover = t.nodes[element].mover;
        proof {
            assert(crate::tree::refs_ok(t.nodes@[element as int], t.len()));
        }
        replace_behaviors(t, element, true, groupper, mover);
    }

    /// Resolves the context of `element` by walking its ancestors.
    pub fn get_tabster_context(
        t: &Tree,
        env: &TabsterCore,
        element: usize,
        options: GetTabsterContextOptions,
    ) -> (r: Option<TabsterContext>)
        requires
            t.wf(),
            element < t.len(),
            options.reference_element matches Some(x) ==> x < t.len(),
            env_fits(*t, *env),
        ensures
            r == context_of(*t, *env, element as int, options),
            r matches Some(c) ==> context_sound(*t, c),
    {
        let start = match options.reference_element {
            Some(x) => x,
            None => element,
        };
        let check_rtl = options.check_rtl;
        let mut w = ContextWalk {
            root: None,
            modalizer: None,
            groupper: None,
            mover: None,
            excluded_from_mover: false,
            groupper_before_mover: None,
            modalizer_in_groupper: None,
            rtl: None,
            uncontrolled: None,
            ignore_keydown: IgnoreKeydown { tab: None },
        };
        let mut cur = start;
        loop
            invariant_except_break
                walk_from(*t, *env, element as int, check_rtl, empty_walk(), start as int) == walk_from(
                    *t,
                    *env,
                    element as int,
                    check_rtl,
                    w,
                    cur as int,
                ),
            invariant
                t.wf(),
                cur < t.len(),
                element < t.len(),
                walk_below(*t, w, t.len() - 1),
            ensures
                walk_below(*t, w, t.len() - 1),
                walk_from(*t, *env, element as int, check_rtl, empty_walk(), start as int) == w,
            decreases cur,
        {
            if w.root.is_some() && !check_rtl {
                break ;
            }
            w = step_exec(t, env, element, check_rtl, w, cur);
            match t.nodes[cur].parent {
                Some(p) => {
                    cur = p;
                },
                None => {
                    break ;
                },
            }
        }
        let root = if w.root.is_none() && env.auto_root.is_some() && env.body.is_some() {
            env.body
        } else {
            w.root
        };
        match root {
            Some(r) => Some(
                TabsterContext {
                    root: r,
                    modalizer: w.modalizer,
                    groupper: w.groupper,
                    mover: w.mover,
                    groupper_before_mover: if w.groupper.is_some() && w.mover.is_none() {
                        Some(true)
                    } else {
                        w.groupper_before_mover
                    },
                    modalizer_in_groupper: w.modalizer_in_groupper,
                    rtl: if check_rtl {
                        Some(w.rtl == Some(true))
                    } else {
                        None
                    },
                    excluded_from_mover: Some(w.excluded_from_mover),
                    uncontrolled: w.uncontrolled,
                    ignore_keydown: w.ignore_keydown,
                },
            ),
            None => None,
        }
    }

    /// The nearest scope at or above `element`.
    pub fn get_root(t: &Tree, element: usize) -> (r: Option<usize>)
        requires
            t.wf(),
            element < t.len(),
        ensures
            r == nearest_root(*t, element as int),
            r matches Some(x) ==> x <= element,
    {
        let mut cur = element;
        loop
            invariant
                t.wf(),
                cur <= element < t.len(),
                nearest_root(*t, element as int) == nearest_root(*t, cur as int),
            decreases cur,
        {
            if t.nodes[cur].root {
                return Some(cur);
            }
            match t.nodes[cur].parent {
                Some(p) => {
                    cur = p;
                },
                None => {
                    return None;
                },
            }
        }
    }
}

/// The nearest element at or above `i` with a scope attached.
pub open spec fn nearest_root(t: Tree, i: int) -> Option<usize>
    decreases i,
{
    if i < 0 || i >= t.len() {
        None
    } else if t.nodes@[i].root {
        Some(i as usize)
    } else {
        match t.nodes@[i].parent {
            Some(p) => if p < i {
                nearest_root(t, p as int)
            } else {
                None
            },
            None => None,
        }
    }
}

} // verus!
