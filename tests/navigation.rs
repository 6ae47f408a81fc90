use tabster::engine::{ModalizerAPI, TabsterCore};
use tabster::focused_element::FocusedElementState;
use tabster::groupper::{Groupper, GroupperAPI};
use tabster::instance::update_tabster_by_attribute;
use tabster::modalizer::Modalizer;
use tabster::mover::{Mover, MoverAPI};
use tabster::root::{RootAPI, GetTabsterContextOptions};
use tabster::search::{FindAllProps, FindFirstProps, FindNextProps, FocusableAPI};
use tabster::tree::{Element, GroupperState, ModalizerState, MoverState, Tag, Tree, TreeError};
use tabster::types::{
    FindFocusableOutputProps, FocusableProps, GroupperProps, ModalizerProps, MoverProps, RootProps,
    TabsterAttributeProps,
};

fn plain(tag: Tag) -> Element {
    Element::new(tag)
}

fn button() -> Element {
    let mut e = Element::new(Tag::Button);
    e.tab_index = 0;
    e
}

fn scope() -> Element {
    let mut e = Element::new(Tag::Other);
    e.root = true;
    e
}

fn group(tabbability: u8, active: bool) -> Element {
    let mut e = Element::new(Tag::Other);
    e.groupper = Some(GroupperState {
        props: GroupperProps { tabbability: Some(tabbability), delegated: None },
        should_tab_inside: active,
        first: None,
    });
    e
}

fn list(props: MoverProps) -> Element {
    let mut e = Element::new(Tag::Other);
    e.mover = Some(MoverState { props, current: None });
    e
}

fn trap(id: &str, always: bool, trapped: bool) -> Element {
    let mut e = Element::new(Tag::Other);
    e.modalizer = Some(ModalizerState {
        user_id: id.to_string(),
        props: ModalizerProps { is_always_accessible: Some(always), is_trapped: Some(trapped) },
    });
    e
}

fn add(t: &mut Tree, parent: Option<usize>, e: Element) -> usize {
    t.push(parent, e).unwrap()
}

fn next_props(container: usize, current: Option<usize>) -> FindNextProps {
    FindNextProps {
        current_element: current,
        reference_element: None,
        container,
        ignore_accessibility: None,
        use_active_modalizer: None,
    }
}

fn tab_from(t: &Tree, env: &TabsterCore, current: usize, backward: bool) -> (Option<usize>, Option<bool>) {
    let ctx = RootAPI::get_tabster_context(t, env, current, GetTabsterContextOptions::default()).unwrap();
    let n = FocusedElementState::find_next_tabbable(t, env, ctx, None, Some(current), None, backward, None)
        .unwrap();
    (n.element, n.out_of_dom_order)
}

#[test]
fn cyclic_list_wraps_to_first() {
    let mut t = Tree::new();
    let s = add(&mut t, None, scope());
    let l = add(
        &mut t,
        Some(s),
        list(MoverProps { cyclic: Some(true), tabbable: Some(true), ..Default::default() }),
    );
    let b1 = add(&mut t, Some(l), button());
    let _b2 = add(&mut t, Some(l), button());
    let b3 = add(&mut t, Some(l), button());
    let env = TabsterCore::new();
    let (el, ood) = tab_from(&t, &env, b3, false);
    assert_eq!(el, Some(b1));
    assert_eq!(ood, Some(true));
}

#[test]
fn list_without_cycle_escalates_past_its_end() {
    let mut t = Tree::new();
    let s = add(&mut t, None, scope());
    let l = add(&mut t, Some(s), list(MoverProps { tabbable: Some(true), ..Default::default() }));
    let _b1 = add(&mut t, Some(l), button());
    let b2 = add(&mut t, Some(l), button());
    let after = add(&mut t, Some(s), button());
    let env = TabsterCore::new();
    let (el, ood) = tab_from(&t, &env, b2, false);
    assert_eq!(el, Some(after));
    assert_eq!(ood, Some(true));
}

#[test]
fn inactive_group_is_entered_through_first_only() {
    let mut t = Tree::new();
    let s = add(&mut t, None, scope());
    let out = add(&mut t, Some(s), button());
    let g = add(&mut t, Some(s), group(1, false));
    let a = add(&mut t, Some(g), button());
    let _b = add(&mut t, Some(g), button());
    let env = TabsterCore::new();
    let (el, _) = tab_from(&t, &env, out, false);
    assert_eq!(el, Some(a));
    let inside = Groupper { element: g }.find_next_tabbable(&t, &env, Some(a), None, false, None).unwrap();
    assert_eq!(inside.element, None);
    assert_eq!(inside.out_of_dom_order, Some(true));
}

#[test]
fn inactive_group_never_yields_later_descendant() {
    let mut t = Tree::new();
    let s = add(&mut t, None, scope());
    let out = add(&mut t, Some(s), button());
    let g = add(&mut t, Some(s), group(1, false));
    let a = add(&mut t, Some(g), button());
    let d = add(&mut t, Some(g), button());
    let after = add(&mut t, Some(s), button());
    let env = TabsterCore::new();
    let api = FocusableAPI::new(false);
    let mut o = FindFocusableOutputProps::default();
    assert_eq!(api.find_next(&t, &env, next_props(s, Some(out)), &mut o), Some(a));
    let mut o = FindFocusableOutputProps::default();
    let from_a = api.find_next(&t, &env, next_props(s, Some(a)), &mut o);
    assert_ne!(from_a, Some(d));
    assert_eq!(from_a, Some(after));
}

#[test]
fn entered_group_tabs_inside() {
    let mut t = Tree::new();
    let s = add(&mut t, None, scope());
    let g = add(&mut t, Some(s), group(1, true));
    let a = add(&mut t, Some(g), button());
    let b = add(&mut t, Some(g), button());
    let env = TabsterCore::new();
    let n = Groupper { element: g }.find_next_tabbable(&t, &env, Some(a), None, false, None).unwrap();
    assert_eq!(n.element, Some(b));
}

#[test]
fn trapping_group_cycles() {
    let mut t = Tree::new();
    let s = add(&mut t, None, scope());
    let g = add(&mut t, Some(s), group(2, true));
    let a = add(&mut t, Some(g), button());
    let b = add(&mut t, Some(g), button());
    let env = TabsterCore::new();
    let n = Groupper { element: g }.find_next_tabbable(&t, &env, Some(b), None, false, None).unwrap();
    assert_eq!(n.element, Some(a));
    assert_eq!(n.out_of_dom_order, Some(true));
}

#[test]
fn radio_group_lands_on_checked() {
    let mut t = Tree::new();
    let s = add(&mut t, None, scope());
    let before = add(&mut t, Some(s), button());
    let mut radios = Vec::new();
    for checked in [true, false, false] {
        let mut r = Element::new(Tag::Input);
        r.tab_index = 0;
        r.radio = true;
        r.name = "choice".to_string();
        r.checked = checked;
        radios.push(add(&mut t, Some(s), r));
    }
    let env = TabsterCore::new();
    let api = FocusableAPI::new(false);
    let mut o = FindFocusableOutputProps::default();
    assert_eq!(api.find_next(&t, &env, next_props(s, Some(before)), &mut o), Some(radios[0]));
    let mut o = FindFocusableOutputProps::default();
    assert_eq!(api.find_next(&t, &env, next_props(s, Some(radios[0])), &mut o), None);
    assert_eq!(o.out_of_dom_order, None);
}

#[test]
fn radio_group_with_later_checked() {
    let mut t = Tree::new();
    let s = add(&mut t, None, scope());
    let before = add(&mut t, Some(s), button());
    let mut radios = Vec::new();
    for checked in [false, true, false] {
        let mut r = Element::new(Tag::Input);
        r.tab_index = 0;
        r.radio = true;
        r.name = "choice".to_string();
        r.checked = checked;
        radios.push(add(&mut t, Some(s), r));
    }
    let env = TabsterCore::new();
    let mut o = FindFocusableOutputProps::default();
    let found = FocusableAPI::new(false).find_next(&t, &env, next_props(s, Some(before)), &mut o);
    assert_eq!(found, Some(radios[1]));
}

#[test]
fn hidden_subtree_is_left_out_of_find_all() {
    let mut t = Tree::new();
    let s = add(&mut t, None, scope());
    let mut hidden = plain(Tag::Other);
    hidden.aria_hidden = Some("TRUE".to_string());
    let h = add(&mut t, Some(s), hidden);
    let mut inner = button();
    inner.has_tabindex = true;
    let _inner = add(&mut t, Some(h), inner);
    let shown = add(&mut t, Some(s), button());
    let env = TabsterCore::new();
    let mut o = FindFocusableOutputProps::default();
    let all = FocusableAPI::new(false).find_all(&t, &env, FindAllProps { container: s }, &mut o);
    assert_eq!(all, vec![shown]);
}

#[test]
fn augmented_hidden_subtree_stays() {
    let mut t = Tree::new();
    let s = add(&mut t, None, scope());
    let mut hidden = plain(Tag::Other);
    hidden.aria_hidden = Some("true".to_string());
    hidden.augmented = true;
    let h = add(&mut t, Some(s), hidden);
    let inner = add(&mut t, Some(h), button());
    let shown = add(&mut t, Some(s), button());
    let mut env = TabsterCore::new();
    env.modalizer = Some(ModalizerAPI { active_id: None, active_elements: vec![] });
    let mut o = FindFocusableOutputProps::default();
    let all = FocusableAPI::new(false).find_all(&t, &env, FindAllProps { container: s }, &mut o);
    assert_eq!(all, vec![inner, shown]);
}

#[test]
fn other_trap_is_skipped_while_one_is_active() {
    let mut t = Tree::new();
    let s = add(&mut t, None, scope());
    let m1 = add(&mut t, Some(s), trap("T1", false, false));
    let x = add(&mut t, Some(m1), button());
    let m2 = add(&mut t, Some(s), trap("T2", false, false));
    let _y = add(&mut t, Some(m2), button());
    let mut env = TabsterCore::new();
    env.modalizer = Some(ModalizerAPI { active_id: Some("T1".to_string()), active_elements: vec![m1] });
    let api = FocusableAPI::new(false);
    let mut o = FindFocusableOutputProps::default();
    let first = api.find_first(
        &t,
        &env,
        FindFirstProps { container: s, ignore_accessibility: None, use_active_modalizer: Some(true) },
        &mut o,
    );
    assert_eq!(first, Some(x));
    let mut o = FindFocusableOutputProps::default();
    let props = FindNextProps { use_active_modalizer: Some(true), ..next_props(s, Some(x)) };
    assert_eq!(api.find_next(&t, &env, props, &mut o), None);
}

#[test]
fn always_accessible_trap_stays_in_reach() {
    let mut t = Tree::new();
    let s = add(&mut t, None, scope());
    let m1 = add(&mut t, Some(s), trap("T1", false, false));
    let _x = add(&mut t, Some(m1), button());
    let m2 = add(&mut t, Some(s), trap("T2", false, false));
    let _y = add(&mut t, Some(m2), button());
    let m3 = add(&mut t, Some(s), trap("T3", true, false));
    let z = add(&mut t, Some(m3), button());
    let mut env = TabsterCore::new();
    env.modalizer = Some(ModalizerAPI { active_id: Some("T1".to_string()), active_elements: vec![m1] });
    let mut o = FindFocusableOutputProps::default();
    let all = FocusableAPI::new(false).find_all(&t, &env, FindAllProps { container: s }, &mut o);
    assert_eq!(all, vec![z]);
}

#[test]
fn trapped_modalizer_wraps() {
    let mut t = Tree::new();
    let s = add(&mut t, None, scope());
    let m = add(&mut t, Some(s), trap("T1", false, true));
    let a = add(&mut t, Some(m), button());
    let b = add(&mut t, Some(m), button());
    let mut env = TabsterCore::new();
    env.modalizer = Some(ModalizerAPI { active_id: Some("T1".to_string()), active_elements: vec![m] });
    let n = Modalizer { element: m }.find_next_tabbable(&t, &env, Some(b), None, false, None).unwrap();
    assert_eq!(n.element, Some(a));
    assert_eq!(n.out_of_dom_order, Some(true));
    assert_eq!(RootAPI::get_root(&t, b), Some(s));
}

#[test]
fn nearer_group_governs() {
    let mut t = Tree::new();
    let s = add(&mut t, None, scope());
    let l = add(&mut t, Some(s), list(MoverProps::default()));
    let g = add(&mut t, Some(l), group(1, true));
    let e = add(&mut t, Some(g), plain(Tag::Other));
    let env = TabsterCore::new();
    let ctx = RootAPI::get_tabster_context(&t, &env, e, GetTabsterContextOptions::default()).unwrap();
    assert_eq!(ctx.root, s);
    assert_eq!(ctx.groupper, Some(g));
    assert_eq!(ctx.mover, Some(l));
    assert_eq!(ctx.groupper_before_mover, Some(true));
}

#[test]
fn nearer_list_governs() {
    let mut t = Tree::new();
    let s = add(&mut t, None, scope());
    let g = add(&mut t, Some(s), group(1, true));
    let l = add(&mut t, Some(g), list(MoverProps::default()));
    let e = add(&mut t, Some(l), plain(Tag::Other));
    let env = TabsterCore::new();
    let ctx = RootAPI::get_tabster_context(&t, &env, e, GetTabsterContextOptions::default()).unwrap();
    assert_eq!(ctx.groupper, Some(g));
    assert_eq!(ctx.mover, Some(l));
    assert_eq!(ctx.groupper_before_mover, Some(false));
}

#[test]
fn no_scope_means_no_context() {
    let mut t = Tree::new();
    let p = add(&mut t, None, plain(Tag::Other));
    let e = add(&mut t, Some(p), button());
    let mut env = TabsterCore::new();
    assert!(RootAPI::get_tabster_context(&t, &env, e, GetTabsterContextOptions::default()).is_none());
    env.auto_root = Some(Default::default());
    env.body = Some(p);
    let ctx = RootAPI::get_tabster_context(&t, &env, e, GetTabsterContextOptions::default()).unwrap();
    assert_eq!(ctx.root, p);
}

#[test]
fn rtl_is_read_case_insensitively() {
    let mut t = Tree::new();
    let mut sc = scope();
    sc.dir = "RTL".to_string();
    let s = add(&mut t, None, sc);
    let e = add(&mut t, Some(s), button());
    let env = TabsterCore::new();
    let opts = GetTabsterContextOptions { check_rtl: true, reference_element: None };
    assert_eq!(RootAPI::get_tabster_context(&t, &env, e, opts).unwrap().rtl, Some(true));
    let plain_opts = GetTabsterContextOptions::default();
    assert_eq!(RootAPI::get_tabster_context(&t, &env, e, plain_opts).unwrap().rtl, None);
}

#[test]
fn ignore_keydown_farthest_declaration_wins() {
    let mut t = Tree::new();
    let mut sc = scope();
    sc.focusable = Some(FocusableProps {
        ignore_keydown: Some(tabster::types::IgnoreKeydown { tab: Some(false) }),
        ..Default::default()
    });
    let s = add(&mut t, None, sc);
    let mut inner = button();
    inner.focusable = Some(FocusableProps {
        ignore_keydown: Some(tabster::types::IgnoreKeydown { tab: Some(true) }),
        ..Default::default()
    });
    let e = add(&mut t, Some(s), inner);
    let env = TabsterCore::new();
    let ctx = RootAPI::get_tabster_context(&t, &env, e, GetTabsterContextOptions::default()).unwrap();
    assert!(!ctx.should_ignore_keydown("tab"));
    assert!(!ctx.should_ignore_keydown("Enter"));
}

#[test]
fn next_then_prev_returns_to_start() {
    let mut t = Tree::new();
    let s = add(&mut t, None, scope());
    let a = add(&mut t, Some(s), button());
    let b = add(&mut t, Some(s), button());
    let c = add(&mut t, Some(s), button());
    let env = TabsterCore::new();
    let api = FocusableAPI::new(false);
    let mut o = FindFocusableOutputProps::default();
    let n1 = api.find_next(&t, &env, next_props(s, Some(b)), &mut o);
    let mut o = FindFocusableOutputProps::default();
    let n2 = api.find_next(&t, &env, next_props(s, Some(b)), &mut o);
    assert_eq!(n1, Some(c));
    assert_eq!(n1, n2);
    let mut o = FindFocusableOutputProps::default();
    assert_eq!(api.find_prev(&t, &env, next_props(s, n1), &mut o), Some(b));
    let mut o = FindFocusableOutputProps::default();
    assert_eq!(api.find_prev(&t, &env, next_props(s, Some(b)), &mut o), Some(a));
    assert_eq!(o.out_of_dom_order, None);
}

#[test]
fn first_and_last_of_container() {
    let mut t = Tree::new();
    let s = add(&mut t, None, scope());
    let a = add(&mut t, Some(s), button());
    let d = add(&mut t, Some(s), plain(Tag::Other));
    let c = add(&mut t, Some(d), button());
    let env = TabsterCore::new();
    let api = FocusableAPI::new(false);
    let props = FindFirstProps { container: s, ignore_accessibility: None, use_active_modalizer: None };
    let mut o = FindFocusableOutputProps::default();
    assert_eq!(api.find_first(&t, &env, props, &mut o), Some(a));
    assert_eq!(o.out_of_dom_order, Some(true));
    let mut o = FindFocusableOutputProps::default();
    assert_eq!(api.find_last(&t, &env, props, &mut o), Some(c));
}

#[test]
fn disabled_and_unfocusable_are_skipped() {
    let mut t = Tree::new();
    let s = add(&mut t, None, scope());
    let mut off = button();
    off.disabled = true;
    let _off = add(&mut t, Some(s), off);
    let mut neg = button();
    neg.tab_index = -1;
    let _neg = add(&mut t, Some(s), neg);
    let ok = add(&mut t, Some(s), button());
    let env = TabsterCore::new();
    let mut o = FindFocusableOutputProps::default();
    let all = FocusableAPI::new(false).find_all(&t, &env, FindAllProps { container: s }, &mut o);
    assert_eq!(all, vec![ok]);
}

#[test]
fn list_entry_prefers_memorized_then_default() {
    let mut t = Tree::new();
    let s = add(&mut t, None, scope());
    let out = add(&mut t, Some(s), button());
    let l = add(
        &mut t,
        Some(s),
        list(MoverProps { memorize_current: Some(true), ..Default::default() }),
    );
    let _a = add(&mut t, Some(l), button());
    let mut dflt = button();
    dflt.focusable = Some(FocusableProps { is_default: Some(true), ..Default::default() });
    let b = add(&mut t, Some(l), dflt);
    let c = add(&mut t, Some(l), button());
    let env = TabsterCore::new();
    let (el, ood) = tab_from(&t, &env, out, false);
    assert_eq!(el, Some(b));
    assert_eq!(ood, Some(true));
    let mut t2 = t.clone();
    t2.nodes[l].mover = Some(MoverState {
        props: MoverProps { memorize_current: Some(true), ..Default::default() },
        current: Some(c),
    });
    let (el2, _) = tab_from(&t2, &env, out, false);
    assert_eq!(el2, Some(c));
    let m = Mover { element: l };
    assert_eq!(m.get_element(), l);
}

#[test]
fn backward_tab_enters_list_at_default() {
    let mut t = Tree::new();
    let s = add(&mut t, None, scope());
    let l = add(&mut t, Some(s), list(MoverProps { has_default: Some(false), ..Default::default() }));
    let _a = add(&mut t, Some(l), button());
    let b = add(&mut t, Some(l), button());
    let after = add(&mut t, Some(s), button());
    let env = TabsterCore::new();
    let (el, _) = tab_from(&t, &env, after, true);
    assert_eq!(el, Some(b));
}

#[test]
fn push_refuses_closed_parent() {
    let mut t = Tree::new();
    let s = add(&mut t, None, scope());
    let a = add(&mut t, Some(s), button());
    let _b = add(&mut t, Some(s), button());
    assert_eq!(t.push(Some(a), button()), Err(TreeError::ParentClosed));
    assert_eq!(t.push(Some(99), button()), Err(TreeError::ParentClosed));
    let mut bad = button();
    bad.dummy_for = Some(42);
    assert_eq!(t.push(Some(s), bad), Err(TreeError::BadReference));
    assert_eq!(t.size(), 3);
}

#[test]
fn boundary_marker_is_rejected() {
    let mut t = Tree::new();
    let s = add(&mut t, None, scope());
    let mut marker = button();
    marker.dummy_for = Some(s);
    let _m = add(&mut t, Some(s), marker);
    let real = add(&mut t, Some(s), button());
    let env = TabsterCore::new();
    let mut o = FindFocusableOutputProps::default();
    let all = FocusableAPI::new(false).find_all(&t, &env, FindAllProps { container: s }, &mut o);
    assert_eq!(all, vec![real]);
}

#[test]
fn iframe_is_one_stop() {
    let mut t = Tree::new();
    let s = add(&mut t, None, scope());
    let mut frame = plain(Tag::IFrame);
    frame.uncontrolled = true;
    let f = add(&mut t, Some(s), frame);
    let _inner = add(&mut t, Some(f), button());
    let env = TabsterCore::new();
    let api = FocusableAPI::new(false);
    let props = FindFirstProps { container: s, ignore_accessibility: None, use_active_modalizer: None };
    let mut o = FindFocusableOutputProps::default();
    assert_eq!(api.find_first(&t, &env, props, &mut o), Some(f));
    assert_eq!(o.uncontrolled, Some(f));
}

#[test]
fn focus_is_memorized_by_enclosing_lists() {
    let mut t = Tree::new();
    let s = add(&mut t, None, scope());
    let outer = add(&mut t, Some(s), list(MoverProps::default()));
    let mut wrapper = button();
    wrapper.has_tabindex = true;
    let w = add(&mut t, Some(outer), wrapper);
    let inner = add(&mut t, Some(w), list(MoverProps::default()));
    let b = add(&mut t, Some(inner), button());
    let env = TabsterCore::new();
    tabster::mover::on_focus(&mut t, &env, b);
    assert_eq!(t.nodes[inner].mover.unwrap().current, Some(b));
    assert_eq!(t.nodes[outer].mover.unwrap().current, Some(w));
}

#[test]
fn declaration_attaches_and_detaches() {
    let mut t = Tree::new();
    let s = add(&mut t, None, scope());
    let e = add(&mut t, Some(s), plain(Tag::Other));
    let decl = TabsterAttributeProps {
        groupper: Some(GroupperProps { tabbability: Some(1), delegated: None }),
        ..Default::default()
    };
    update_tabster_by_attribute(&mut t, e, Some(decl));
    let g = t.nodes[e].groupper.unwrap();
    assert_eq!(g.props.tabbability, Some(1));
    assert!(!g.should_tab_inside);
    let redecl = TabsterAttributeProps {
        root: Some(RootProps::default()),
        mover: Some(MoverProps { cyclic: Some(true), ..Default::default() }),
        ..Default::default()
    };
    update_tabster_by_attribute(&mut t, e, Some(redecl));
    assert!(t.nodes[e].groupper.is_none());
    assert!(t.nodes[e].root);
    assert_eq!(t.nodes[e].mover.unwrap().props.cyclic, Some(true));
    update_tabster_by_attribute(&mut t, e, None);
    assert!(t.nodes[e].mover.is_none());
    assert!(!t.nodes[e].root);
    assert!(t.nodes[s].root);
}

#[test]
fn services_attach_behaviors() {
    let mut t = Tree::new();
    let top = add(&mut t, None, plain(Tag::Other));
    let g_el = add(&mut t, Some(top), plain(Tag::Other));
    let a = add(&mut t, Some(g_el), button());
    let l_el = add(&mut t, Some(top), plain(Tag::Other));
    let b = add(&mut t, Some(l_el), button());
    RootAPI::create_root(&mut t, top);
    let g = GroupperAPI::create_groupper(&mut t, g_el, GroupperProps { tabbability: Some(1), delegated: None });
    let m = MoverAPI::create_mover(&mut t, l_el, MoverProps::default());
    assert_eq!(g.get_element(), g_el);
    assert_eq!(m.id(), l_el);
    assert!(t.nodes[top].root);
    let env = TabsterCore::new();
    let ctx_a = RootAPI::get_tabster_context(&t, &env, a, GetTabsterContextOptions::default()).unwrap();
    assert_eq!(ctx_a.root, top);
    assert_eq!(ctx_a.groupper, Some(g_el));
    let ctx_b = RootAPI::get_tabster_context(&t, &env, b, GetTabsterContextOptions::default()).unwrap();
    assert_eq!(ctx_b.mover, Some(l_el));
    assert_eq!(g.is_active(&t, &env, false), Some(false));
}

#[test]
fn always_accessible_trap_reachable_under_active_trap() {
    let mut t = Tree::new();
    let s = add(&mut t, None, scope());
    let m1 = add(&mut t, Some(s), trap("T1", false, false));
    let x = add(&mut t, Some(m1), button());
    let m2 = add(&mut t, Some(s), trap("T2", false, false));
    let _y = add(&mut t, Some(m2), button());
    let m3 = add(&mut t, Some(s), trap("T3", true, false));
    let z = add(&mut t, Some(m3), button());
    let mut env = TabsterCore::new();
    env.modalizer = Some(ModalizerAPI { active_id: Some("T1".to_string()), active_elements: vec![m1] });
    let mut o = FindFocusableOutputProps::default();
    let props = FindNextProps { use_active_modalizer: Some(true), ..next_props(s, Some(x)) };
    assert_eq!(FocusableAPI::new(false).find_next(&t, &env, props, &mut o), Some(z));
}

#[test]
fn nearest_trap_is_kept_under_trap_and_group() {
    let mut t = Tree::new();
    let s = add(&mut t, None, scope());
    let mut outer = trap("B", false, false);
    outer.groupper = Some(GroupperState {
        props: GroupperProps { tabbability: Some(1), delegated: None },
        should_tab_inside: false,
        first: None,
    });
    let o = add(&mut t, Some(s), outer);
    let inner = add(&mut t, Some(o), trap("A", false, false));
    let e = add(&mut t, Some(inner), button());
    let mut env = TabsterCore::new();
    env.modalizer = Some(ModalizerAPI { active_id: Some("C".to_string()), active_elements: vec![] });
    let ctx = RootAPI::get_tabster_context(&t, &env, e, GetTabsterContextOptions::default()).unwrap();
    assert_eq!(ctx.modalizer, Some(inner));
    assert_eq!(ctx.groupper, None);
}

#[test]
fn memorized_element_outside_list_is_ignored() {
    let mut t = Tree::new();
    let s = add(&mut t, None, scope());
    let out = add(&mut t, Some(s), button());
    let l = add(
        &mut t,
        Some(s),
        list(MoverProps { memorize_current: Some(true), has_default: Some(false), ..Default::default() }),
    );
    let a = add(&mut t, Some(l), button());
    t.nodes[l].mover = Some(MoverState {
        props: MoverProps { memorize_current: Some(true), has_default: Some(false), ..Default::default() },
        current: Some(out),
    });
    let env = TabsterCore::new();
    let (el, _) = tab_from(&t, &env, out, false);
    assert_eq!(el, Some(a));
}

#[test]
fn nearer_group_governs_with_declarations_between() {
    let mut t = Tree::new();
    let s = add(&mut t, None, scope());
    let l = add(&mut t, Some(s), list(MoverProps::default()));
    let mut mid = plain(Tag::Other);
    mid.focusable = Some(FocusableProps { exclude_from_mover: Some(true), ..Default::default() });
    let m = add(&mut t, Some(l), mid);
    let g = add(&mut t, Some(m), group(1, true));
    let e = add(&mut t, Some(g), plain(Tag::Other));
    let env = TabsterCore::new();
    let ctx = RootAPI::get_tabster_context(&t, &env, e, GetTabsterContextOptions::default()).unwrap();
    assert_eq!(ctx.root, s);
    assert_eq!(ctx.groupper, Some(g));
    assert_eq!(ctx.mover, Some(l));
    assert_eq!(ctx.groupper_before_mover, Some(true));
}
