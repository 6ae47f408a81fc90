use tabster::attribute_helpers::{get_tabster_attribute, merge_tabster_props};
use tabster::consts::{GroupperTabbabilities, SysDummyInputsPositions};
use tabster::engine::TabsterCore;
use tabster::focusable::{accept_element, get_radio_button_group, is_hidden};
use tabster::subscribable::Subscribable;
use tabster::text::{is_rtl_value, is_true_value};
use tabster::tree::{Element, Tag, Tree};
use tabster::types::{
    FocusableAcceptElementState, GroupperProps, IgnoreKeydown, NodeFilterEnum, SysProps,
    TabsterAttributeProps,
};
use tabster::utils::{dummy_inputs_outside, is_display_none, is_visible, to_base36, StyleFacts};
use tabster::web::EventListenerHandle;

#[test]
fn base36_values() {
    assert_eq!(to_base36(0), "0");
    assert_eq!(to_base36(35), "Z");
    assert_eq!(to_base36(36), "10");
    assert_eq!(to_base36(1295), "ZZ");
    assert_eq!(to_base36(u32::MAX), "1Z141Z3");
}

#[test]
fn ignore_keydown_get_and_assign() {
    let mut k = IgnoreKeydown { tab: Some(false) };
    assert_eq!(k.get("tab"), Some(false));
    assert_eq!(k.get("escape"), None);
    k.assign(IgnoreKeydown { tab: None });
    assert_eq!(k.tab, Some(false));
    k.assign(IgnoreKeydown { tab: Some(true) });
    assert_eq!(k.tab, Some(true));
}

#[test]
fn subscribable_keeps_order() {
    let mut s: Subscribable<u32, u8> = Subscribable::new();
    assert_eq!(s.get_val(), None);
    s.subscribe(1);
    s.subscribe(2);
    assert_eq!(s.callbacks, vec![1, 2]);
    s.val = Some(7);
    assert_eq!(s.get_val(), Some(7));
}

#[test]
fn listener_removal_runs() {
    let flag = std::cell::Cell::new(false);
    let h = EventListenerHandle { remove_listener: || flag.set(true) };
    h.remove();
    assert!(flag.get());
}

#[test]
fn attribute_pair_and_merge() {
    let (name, value) = get_tabster_attribute("{\"groupper\":{}}".to_string());
    assert_eq!(name, "data-tabster");
    assert_eq!(value, "{\"groupper\":{}}");
    let mut props = TabsterAttributeProps {
        groupper: Some(GroupperProps { tabbability: Some(1), delegated: None }),
        ..Default::default()
    };
    merge_tabster_props(&mut props, TabsterAttributeProps { sys: Some(SysProps::default()), ..Default::default() });
    assert!(props.groupper.is_none());
    assert!(props.sys.is_some());
    assert!(!props.is_empty());
    assert!(TabsterAttributeProps::default().is_empty());
    let scope_only = TabsterAttributeProps { root: Some(Default::default()), ..Default::default() };
    assert!(!scope_only.is_empty());
}

#[test]
fn enum_codes() {
    assert_eq!(GroupperTabbabilities::Unlimited.value(), 0);
    assert_eq!(GroupperTabbabilities::LimitedTrapFocus.value(), 2);
    assert_eq!(SysDummyInputsPositions::Outside.value(), 2);
    assert_eq!(NodeFilterEnum::FilterSkip.value(), 3);
    assert_eq!(NodeFilterEnum::FilterReject.value(), 2);
}

#[test]
fn dummy_placement() {
    assert!(dummy_inputs_outside(Tag::Ul, None, false));
    assert!(!dummy_inputs_outside(Tag::Li, None, true));
    assert!(dummy_inputs_outside(Tag::Other, None, true));
    assert!(!dummy_inputs_outside(Tag::Table, Some(SysProps { dummy_inputs_position: Some(1) }), false));
    assert!(dummy_inputs_outside(Tag::Li, Some(SysProps { dummy_inputs_position: Some(2) }), false));
}

#[test]
fn lowered_values() {
    assert!(is_true_value(&"true".to_string()));
    assert!(!is_true_value(&"TRUE".to_string()));
    assert!(is_rtl_value(&"rtl".to_string()));
    assert!(!is_rtl_value(&"ltr".to_string()));
    let mut e = Element::new(Tag::Other);
    e.aria_hidden = Some("True".to_string());
    assert!(is_hidden(&TabsterCore::new(), &e));
    e.aria_hidden = Some("false".to_string());
    assert!(!is_hidden(&TabsterCore::new(), &e));
}

#[test]
fn container_is_never_accepted() {
    let mut t = Tree::new();
    let mut s = Element::new(Tag::Button);
    s.root = true;
    s.tab_index = 0;
    let root = t.push(None, s).unwrap();
    let env = TabsterCore::new();
    let state = FocusableAcceptElementState {
        container: root,
        from: root,
        modalizer_user_id: None,
        is_backward: false,
        ignore_accessibility: false,
        include_programmatically_focusable: false,
        is_find_all: false,
        tabbing: false,
        reject_elements_from: None,
    };
    let v = accept_element(&t, &env, &state, root);
    assert_eq!(v.filter, NodeFilterEnum::FilterSkip);
}

#[test]
fn radio_group_lookup() {
    let mut t = Tree::new();
    let mut s = Element::new(Tag::Other);
    s.root = true;
    let root = t.push(None, s).unwrap();
    let mut ids = Vec::new();
    for (name, checked) in [("a", false), ("a", true), ("b", true), ("a", false)] {
        let mut r = Element::new(Tag::Input);
        r.radio = true;
        r.name = name.to_string();
        r.checked = checked;
        ids.push(t.push(Some(root), r).unwrap());
    }
    let g = get_radio_button_group(&t, ids[0]).unwrap();
    assert_eq!(g.checked, Some(ids[1]));
    assert_eq!(g.buttons, vec![ids[0], ids[1], ids[3]]);
    let other = get_radio_button_group(&t, ids[2]).unwrap();
    assert_eq!(other.buttons, vec![ids[2]]);
    assert_eq!(other.checked, Some(ids[2]));
    assert!(get_radio_button_group(&t, root).is_none());
}

fn shown() -> StyleFacts {
    StyleFacts {
        is_html_element: true,
        has_offset_parent: true,
        is_body: false,
        position: "static".to_string(),
        visibility: "visible".to_string(),
        display: "block".to_string(),
        parent_has_offset_parent: true,
        parent_is_body: false,
        body_has_size: true,
    }
}

#[test]
fn layout_decides_visibility() {
    assert!(!is_display_none(&shown()));
    assert!(is_visible(&shown()));
    let detached = StyleFacts { has_offset_parent: false, ..shown() };
    assert!(is_display_none(&detached));
    let fixed = StyleFacts { has_offset_parent: false, position: "fixed".to_string(), ..shown() };
    assert!(!is_display_none(&fixed));
    let fixed_none = StyleFacts { display: "none".to_string(), ..fixed.clone() };
    assert!(is_display_none(&fixed_none));
    let hidden = StyleFacts { visibility: "hidden".to_string(), ..shown() };
    assert!(is_display_none(&hidden));
    let empty_body = StyleFacts { body_has_size: false, ..shown() };
    assert!(!is_visible(&empty_body));
}
