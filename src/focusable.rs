//! Which elements can take focus, and the accessibility chain.
use vstd::prelude::*;
use crate::engine::{env_fits, TabsterCore};
use crate::groupper::{groupper_accept_spec, Groupper};
use crate::modalizer::modalizer_accept_spec;
use crate::mover::{accepts, mover_accept_spec, Mover};
use crate::root::{RootAPI, same_id, 
    context_of, context_sound, id_view, user_id_at, GetTabsterContextOptions,
    TabsterContext,
};
use crate::text::{is_true_value, lower_of, lowercase};
use crate::tree::{Element, Tag, Tree};
use crate::types::{make_verdict, verdict, FocusableAcceptElementState, NodeFilterEnum, Verdict};

verus! {

/// The element matches the selector of natively focusable elements:
/// links with a target, enabled form controls, anything with a tab index or
/// editable content, the summary of a details element, media with controls.
pub open spec fn matches_focusable_selector(t: Tree, i: int) -> bool {
    let e = t.nodes@[i];
    ||| (e.tag == Tag::A && e.has_href)
    ||| ((e.tag == Tag::Button || e.tag == Tag::Input || e.tag == Tag::Select || e.tag
        == Tag::Textarea) && !e.disabled)
    ||| e.has_tabindex
    ||| e.contenteditable
    ||| (e.tag == Tag::Summary && match e.parent {
        Some(p) => 0 <= p < t.len() && t.nodes@[p as int].tag == Tag::Details,
        None => false,
    })
    ||| ((e.tag == Tag::Audio || e.tag == Tag::Video) && e.controls)
}

/// The element carries a true `aria-hidden` that no trap takes over.
pub open spec fn is_hidden_spec(env: TabsterCore, e: Element) -> bool {
    match e.aria_hidden {
        Some(v) => lower_of(v@) == "true"@ && !(env.modalizer.is_some() && e.augmented),
        None => false,
    }
}

/// Disabled, unless the element's focusable properties opt out.
pub open spec fn blocks_as_disabled(e: Element) -> bool {
    e.disabled && !(e.focusable matches Some(f) && f.ignore_aria_disabled == Some(true))
}

/// Neither `i` nor any ancestor is hidden or blocks as disabled.
pub open spec fn is_accessible_spec(t: Tree, env: TabsterCore, i: int) -> bool
    decreases i,
{
    if i < 0 || i >= t.len() {
        true
    } else {
        let e = t.nodes@[i];
        !is_hidden_spec(env, e) && !blocks_as_disabled(e) && match e.parent {
            Some(p) => p >= i || is_accessible_spec(t, env, p as int),
            None => true,
        }
    }
}

/// The focusability test, with its three relaxations.
pub open spec fn is_focusable_spec(
    t: Tree,
    env: TabsterCore,
    i: int,
    include_programmatically_focusable: bool,
    no_visible_check: bool,
    no_accessible_check: bool,
) -> bool {
    &&& matches_focusable_selector(t, i)
    &&& (include_programmatically_focusable || t.nodes@[i].tab_index != -1)
    &&& (no_visible_check || t.nodes@[i].visible)
    &&& (no_accessible_check || is_accessible_spec(t, env, i))
}

pub fn matches_selector(t: &Tree, i: usize) -> (r: bool)
    requires
        t.wf(),
        i < t.len(),
    ensures
        r == matches_focusable_selector(*t, i as int),
{
    let e = &t.nodes[i];
    let summary = match e.parent {
        Some(p) => e.tag == Tag::Summary && t.nodes[p].tag == Tag::Details,
        None => false,
    };
    (e.tag == Tag::A && e.has_href) || ((e.tag == Tag::Button || e.tag == Tag::Input || e.tag
        == Tag::Select || e.tag == Tag::Textarea) && !e.disabled) || e.has_tabindex
        || e.contenteditable || summary || ((e.tag == Tag::Audio || e.tag == Tag::Video)
        && e.controls)
}

/// The element's `aria-hidden` hides it.
pub fn is_hidden(env: &TabsterCore, e: &Element) -> (r: bool)
    ensures
        r == is_hidden_spec(*env, *e),
{
    match &e.aria_hidden {
        Some(v) => {
            let lowered = lowercase(v.as_str());
            is_true_value(&lowered) && !(env.modalizer.is_some() && e.augmented)
        },
        None => false,
    }
}

pub fn is_disabled(e: &Element) -> (r: bool)
    ensures
        r == e.disabled,
{
    e.disabled
}

/// Walks the ancestor chain: no element on it is hidden or blocks as disabled.
pub fn is_accessible(t: &Tree, env: &TabsterCore, i: usize) -> (r: bool)
    requires
        t.wf(),
        i < t.len(),
    ensures
        r == is_accessible_spec(*t, *env, i as int),
{
    let mut cur = i;
    loop
        invariant
            t.wf(),
            cur < t.len(),
            is_accessible_spec(*t, *env, i as int) == is_accessible_spec(*t, *env, cur as int),
        decreases cur,
    {
        let e = &t.nodes[cur];
        if is_hidden(env, e) {
            return false;
        }
        let ignore = match e.focusable {
            Some(f) => f.ignore_aria_disabled == Some(true),
            None => false,
        };
        if !ignore && is_disabled(e) {
            return false;
        }
        match e.parent {
            Some(p) => {
                cur = p;
            },
            None => {
                return true;
            },
        }
    }
}

/// Whether the element can take focus.
pub fn is_focusable(
    t: &Tree,
    env: &TabsterCore,
    i: usize,
    include_programmatically_focusable: bool,
    no_visible_check: bool,
    no_accessible_check: bool,
) -> (r: bool)
    requires
        t.wf(),
        i < t.len(),
    ensures
        r == is_focusable_spec(
            *t,
            *env,
            i as int,
            include_programmatically_focusable,
            no_visible_check,
            no_accessible_check,
        ),
{
    if matches_selector(t, i) && (include_programmatically_focusable || t.nodes[i].tab_index != -1) {
        (no_visible_check || t.nodes[i].visible) && (no_accessible_check || is_accessible(t, env, i))
    } else {
        false
    }
}

/// An element a lookup may hand focus to: no boundary marker, not ignored.
pub open spec fn scan_candidate(e: Element) -> bool {
    e.dummy_for.is_none() && !e.ignore_focus
}

pub fn is_scan_candidate(e: &Element) -> (r: bool)
    ensures
        r == scan_candidate(*e),
{
    e.dummy_for.is_none() && !e.ignore_focus
}

/// The first element of `c`'s subtree after `c` itself that is focusable
/// (boundary markers and ignored elements aside).
pub open spec fn first_focusable_from(t: Tree, env: TabsterCore, c: int, j: int) -> Option<usize>
    decreases t.end(c) - j,
{
    if j >= t.end(c) || j < 0 || j >= t.len() {
        None
    } else if scan_candidate(t.nodes@[j]) && is_focusable_spec(t, env, j, false, false, false) {
        Some(j as usize)
    } else {
        first_focusable_from(t, env, c, j + 1)
    }
}

/// Scans the subtree of `c` in document order for its first focusable
/// descendant.
pub fn first_focusable_in(t: &Tree, env: &TabsterCore, c: usize) -> (r: Option<usize>)
    requires
        t.wf(),
        c < t.len(),
    ensures
        r == first_focusable_from(*t, *env, c as int, c + 1),
        r matches Some(j) ==> t.contains(c as int, j as int) && j != c,
{
    let end = t.nodes[c].end;
    let mut j = c + 1;
    while j < end
        invariant
            t.wf(),
            c < t.len(),
            end == t.end(c as int),
            end <= t.len(),
            c + 1 <= j <= end,
            first_focusable_from(*t, *env, c as int, c + 1) == first_focusable_from(
                *t,
                *env,
                c as int,
                j as int,
            ),
        decreases end - j,
    {
        if is_scan_candidate(&t.nodes[j]) && is_focusable(t, env, j, false, false, false) {
            return Some(j);
        }
        j = j + 1;
    }
    None
}

} // verus!

verus! {

/// A radio input with a non-empty name.
pub open spec fn is_radio_spec(e: Element) -> bool {
    e.tag == Tag::Input && e.radio && e.name@.len() != 0
}

pub fn is_radio(e: &Element) -> (r: bool)
    ensures
        r == is_radio_spec(*e),
{
    e.tag == Tag::Input && e.radio && !e.name.as_str().is_empty()
}

/// The last checked radio named `name` among the first `k` elements.
pub open spec fn checked_radio_before(t: Tree, name: Seq<char>, k: int) -> Option<usize>
    decreases k,
{
    if k <= 0 || k > t.len() {
        None
    } else {
        let e = t.nodes@[k - 1];
        if is_radio_spec(e) && e.name@ == name && e.checked {
            Some((k - 1) as usize)
        } else {
            checked_radio_before(t, name, k - 1)
        }
    }
}

/// The radios sharing a name, and the checked one among them.
#[derive(Clone, Debug)]
pub struct RadioButtonGroup {
    pub name: String,
    pub buttons: Vec<usize>,
    pub checked: Option<usize>,
}

/// The radio group of element `i`, or `None` when it is no radio.
pub fn get_radio_button_group(t: &Tree, i: usize) -> (r: Option<RadioButtonGroup>)
    requires
        t.wf(),
        i < t.len(),
    ensures
        r.is_some() == is_radio_spec(t.nodes@[i as int]),
        r matches Some(g) ==> {
            &&& g.name@ == t.nodes@[i as int].name@
            &&& g.checked == checked_radio_before(*t, g.name@, t.len())
            &&& forall|k: int|
                0 <= k < g.buttons@.len() ==> #[trigger] g.buttons@[k] < t.len()
                    && is_radio_spec(t.nodes@[g.buttons@[k] as int]) && t.nodes@[
                    g.buttons@[k] as int].name@ == g.name@
            &&& forall|k: int|
                0 <= k < t.len() && is_radio_spec(#[trigger] t.nodes@[k]) && t.nodes@[k].name@
                    == g.name@ ==> g.buttons@.contains(k as usize)
        },
{
    if !is_radio(&t.nodes[i]) {
        return None;
    }
    let name = t.nodes[i].name.clone();
    let n = t.nodes.len();
    let mut buttons: Vec<usize> = Vec::new();
    let mut checked: Option<usize> = None;
    let mut k: usize = 0;
    while k < n
        invariant
            n == t.len(),
            k <= n,
            checked == checked_radio_before(*t, name@, k as int),
            forall|q: int|
                0 <= q < buttons@.len() ==> #[trigger] buttons@[q] < n && is_radio_spec(
                    t.nodes@[buttons@[q] as int],
                ) && t.nodes@[buttons@[q] as int].name@ == name@,
            forall|q: int|
                0 <= q < k && is_radio_spec(#[trigger] t.nodes@[q]) && t.nodes@[q].name@ == name@
                    ==> buttons@.contains(q as usize),
        decreases n - k,
    {
        let e = &t.nodes[k];
        if is_radio(e) && e.name == name {
            if e.checked {
                checked = Some(k);
            }
            let ghost before = buttons@;
            buttons.push(k);
            assert(buttons@[before.len() as int] == k);
            assert(forall|q: usize| before.contains(q) ==> buttons@.contains(q)) by {
                assert forall|q: usize| before.contains(q) implies buttons@.contains(q) by {
                    let w = choose|w: int| 0 <= w < before.len() && before[w] == q;
                    assert(buttons@[w] == q);
                }
            }
        }
        k = k + 1;
    }
    Some(RadioButtonGroup { name, buttons, checked })
}

/// Browsers do not stop on an unchecked radio whose group has another
/// radio checked: such an accept becomes a skip.
pub open spec fn radio_demoted(t: Tree, s: FocusableAcceptElementState, c: int) -> bool {
    let e = t.nodes@[c];
    !s.is_find_all && is_radio_spec(e) && !e.checked && (checked_radio_before(t, e.name@, t.len())
        matches Some(x) && x != c)
}

/// Which of the candidate's group and list get a say, given the list of the
/// search origin: the origin's list takes over when it holds the candidate's
/// list; a group that is the container or outside it drops out, as does a
/// list outside the container; when both remain, the group keeps its say
/// only when the list is not inside it.
pub open spec fn select_behaviors(
    t: Tree,
    container: int,
    g: Option<usize>,
    m: Option<usize>,
    fm: Option<usize>,
) -> (Option<usize>, Option<usize>) {
    let m1 = match (m, fm) {
        (Some(mm), Some(f)) => if t.contains(f as int, mm as int) && t.contains(container, f as int)
            && (g matches Some(gg) ==> t.contains(f as int, gg as int)) {
            fm
        } else {
            m
        },
        _ => m,
    };
    let g1 = match g {
        Some(gg) => if gg == container || !t.contains(container, gg as int) {
            None
        } else {
            g
        },
        None => None,
    };
    let m2 = match m1 {
        Some(mm) => if !t.contains(container, mm as int) {
            None
        } else {
            m1
        },
        None => None,
    };
    match (g1, m2) {
        (Some(gg), Some(mm)) => if !t.contains(gg as int, mm as int) {
            (g1, None)
        } else {
            (None, m2)
        },
        _ => (g1, m2),
    }
}

/// The decision once the candidate is known to be managed, visible to
/// the search and accessible: the trap first, then the group or list, then
/// the search's own acceptance test.
pub open spec fn decide_managed(
    t: Tree,
    env: TabsterCore,
    s: FocusableAcceptElementState,
    c: int,
    ctx: TabsterContext,
) -> Verdict {
    let trap = match env.modalizer {
        Some(api) => modalizer_accept_spec(t, api, s, c, ctx),
        None => None,
    };
    match trap {
        Some(f) => verdict(f, true),
        None => {
            let from_mover = match context_of(t, env, s.from as int, GetTabsterContextOptions { check_rtl: false, reference_element: None }) {
                Some(fc) => fc.mover,
                None => None,
            };
            let (g, m) = select_behaviors(t, s.container as int, ctx.groupper, ctx.mover, from_mover);
            let opinion = match m {
                Some(mm) => mover_accept_spec(t, env, s, mm as int, ctx),
                None => match g {
                    Some(gg) => groupper_accept_spec(t, env, s, gg as int, c),
                    None => None,
                },
            };
            match opinion {
                Some(v) => v,
                None => if accepts(t, env, s, c) {
                    if radio_demoted(t, s, c) {
                        verdict(NodeFilterEnum::FilterSkip, false)
                    } else {
                        verdict(NodeFilterEnum::FilterAccept, false)
                    }
                } else {
                    verdict(NodeFilterEnum::FilterSkip, is_focusable_spec(t, env, c, false, true, true))
                },
            }
        },
    }
}

/// The accept/reject/skip decision on candidate `c`.
#[verifier::opaque]
pub open spec fn decide(t: Tree, env: TabsterCore, s: FocusableAcceptElementState, c: int) -> Verdict {
    if c == s.container {
        verdict(NodeFilterEnum::FilterSkip, false)
    } else if !t.contains(s.container as int, c) {
        verdict(NodeFilterEnum::FilterReject, false)
    } else if t.nodes@[c].dummy_for.is_some() {
        verdict(NodeFilterEnum::FilterReject, false)
    } else if s.reject_elements_from matches Some(r) && t.contains(r as int, c) {
        verdict(NodeFilterEnum::FilterReject, false)
    } else {
        match context_of(t, env, c, GetTabsterContextOptions { check_rtl: false, reference_element: None }) {
            None => verdict(NodeFilterEnum::FilterSkip, false),
            Some(ctx) => if t.nodes@[c].ignore_focus {
                verdict(NodeFilterEnum::FilterSkip, is_focusable_spec(t, env, c, false, true, true))
            } else if t.nodes@[c].tag == Tag::IFrame || t.nodes@[c].tag == Tag::WebView {
                if id_view(user_id_at(t, ctx.modalizer)) == id_view(env.active_id()) {
                    Verdict {
                        filter: NodeFilterEnum::FilterAccept,
                        found: Some(c as usize),
                        reject_from: Some(c as usize),
                        skipped: false,
                    }
                } else {
                    verdict(NodeFilterEnum::FilterReject, false)
                }
            } else if !s.ignore_accessibility && !is_accessible_spec(t, env, c) {
                verdict(NodeFilterEnum::FilterReject, is_focusable_spec(t, env, c, false, true, true))
            } else {
                decide_managed(t, env, s, c, ctx)
            },
        }
    }
}

/// What a search state must satisfy against the tree.
pub open spec fn state_fits(t: Tree, s: FocusableAcceptElementState) -> bool {
    &&& s.container < t.len()
    &&& s.from < t.len()
    &&& (s.reject_elements_from matches Some(r) ==> r < t.len())
}

/// A verdict's elements lie in the tree and it is one of the three outcomes.
pub open spec fn verdict_fits(t: Tree, v: Verdict) -> bool {
    &&& (v.filter == NodeFilterEnum::FilterAccept || v.filter == NodeFilterEnum::FilterReject
        || v.filter == NodeFilterEnum::FilterSkip)
    &&& (v.found matches Some(f) ==> f < t.len())
    &&& (v.reject_from matches Some(x) ==> x < t.len())
}

fn select_exec(
    t: &Tree,
    container: usize,
    g: Option<usize>,
    m: Option<usize>,
    fm: Option<usize>,
) -> (r: (Option<usize>, Option<usize>))
    requires
        t.wf(),
    ensures
        r == select_behaviors(*t, container as int, g, m, fm),
        r.0 matches Some(x) ==> g == Some(x),
        r.1 matches Some(x) ==> m == Some(x) || fm == Some(x),
{
    let m1 = match (m, fm) {
        (Some(mm), Some(f)) => {
            let g_ok = match g {
                Some(gg) => t.node_contains(f, gg),
                None => true,
            };
            if t.node_contains(f, mm) && t.node_contains(container, f) && g_ok {
                fm
            } else {
                m
            }
        },
        _ => m,
    };
    let g1 = match g {
        Some(gg) => if gg == container || !t.node_contains(container, gg) {
            None
        } else {
            g
        },
        None => None,
    };
    let m2 = match m1 {
        Some(mm) => if !t.node_contains(container, mm) {
            None
        } else {
            m1
        },
        None => None,
    };
    match (g1, m2) {
        (Some(gg), Some(mm)) => if !t.node_contains(gg, mm) {
            (g1, None)
        } else {
            (None, m2)
        },
        _ => (g1, m2),
    }
}

fn decide_managed_exec(
    t: &Tree,
    env: &TabsterCore,
    s: &FocusableAcceptElementState,
    c: usize,
    ctx: &TabsterContext,
) -> (r: Verdict)
    requires
        t.wf(),
        env_fits(*t, *env),
        state_fits(*t, *s),
        c < t.len(),
        context_sound(*t, *ctx),
    ensures
        r == decide_managed(*t, *env, *s, c as int, *ctx),
        verdict_fits(*t, r),
{
    let trap = match &env.modalizer {
        Some(api) => api.accept_element(t, c, s, ctx),
        None => None,
    };
    match trap {
        Some(f) => {
            return make_verdict(f, true);
        },
        None => {},
    }
    let from_mover = match RootAPI::get_tabster_context(
        t,
        env,
        s.from,
        GetTabsterContextOptions { check_rtl: false, reference_element: None },
    ) {
        Some(fc) => fc.mover,
        None => None,
    };
    let (g, m) = select_exec(t, s.container, ctx.groupper, ctx.mover, from_mover);
    let opinion = match m {
        Some(mm) => {
            let mv = Mover { element: mm };
            mv.accept_element(t, env, s, ctx)
        },
        None => match g {
            Some(gg) => {
                let gr = Groupper { element: gg };
                gr.accept_element(t, env, c, s)
            },
            None => None,
        },
    };
    match opinion {
        Some(v) => v,
        None => if is_focusable(
            t,
            env,
            c,
            s.include_programmatically_focusable,
            false,
            s.ignore_accessibility,
        ) {
            let e = &t.nodes[c];
            let mut demoted = false;
            if !s.is_find_all && is_radio(e) && !e.checked {
                match get_radio_button_group(t, c) {
                    Some(group) => match group.checked {
                        Some(x) => {
                            demoted = x != c;
                        },
                        None => {},
                    },
                    None => {},
                }
            }
            if demoted {
                make_verdict(NodeFilterEnum::FilterSkip, false)
            } else {
                make_verdict(NodeFilterEnum::FilterAccept, false)
            }
        } else {
            let sk = is_focusable(t, env, c, false, true, true);
            make_verdict(NodeFilterEnum::FilterSkip, sk)
        },
    }
}

/// See `decide`.
pub fn accept_element(
    t: &Tree,
    env: &TabsterCore,
    s: &FocusableAcceptElementState,
    c: usize,
) -> (r: Verdict)
    requires
        t.wf(),
        env_fits(*t, *env),
        state_fits(*t, *s),
        c < t.len(),
    ensures
        r == decide(*t, *env, *s, c as int),
        verdict_fits(*t, r),
{
    reveal(decide);
    if c == s.container {
        return make_verdict(NodeFilterEnum::FilterSkip, false);
    }
    if !t.node_contains(s.container, c) {
        return make_verdict(NodeFilterEnum::FilterReject, false);
    }
    if t.nodes[c].dummy_for.is_some() {
        return make_verdict(NodeFilterEnum::FilterReject, false);
    }
    match s.reject_elements_from {
        Some(r) => {
            if t.node_contains(r, c) {
                return make_verdict(NodeFilterEnum::FilterReject, false);
            }
        },
        None => {},
    }
    let ctx = match RootAPI::get_tabster_context(
        t,
        env,
        c,
        GetTabsterContextOptions { check_rtl: false, reference_element: None },
    ) {
        None => {
            return make_verdict(NodeFilterEnum::FilterSkip, false);
        },
        Some(x) => x,
    };
    if t.nodes[c].ignore_focus {
        let sk = is_focusable(t, env, c, false, true, true);
        return make_verdict(NodeFilterEnum::FilterSkip, sk);
    }
    if t.nodes[c].tag == Tag::IFrame || t.nodes[c].tag == Tag::WebView {
        let uid = match ctx.modalizer {
            Some(m) => match &t.nodes[m].modalizer {
                Some(ms) => Some(ms.user_id.clone()),
                None => None,
            },
            None => None,
        };
        let aid = env.get_active_id();
        if same_id(&uid, &aid) {
            return Verdict {
                filter: NodeFilterEnum::FilterAccept,
                found: Some(c),
                reject_from: Some(c),
                skipped: false,
            };
        } else {
            return make_verdict(NodeFilterEnum::FilterReject, false);
        }
    }
    if !s.ignore_accessibility && !is_accessible(t, env, c) {
        let sk = is_focusable(t, env, c, false, true, true);
        return make_verdict(NodeFilterEnum::FilterReject, sk);
    }
    decide_managed_exec(t, env, s, c, &ctx)
}

} // verus!
