use std::rc::Rc;

use uiautomation::actions::{Invoke, ScrollItem, SelectionItem};
use uiautomation::controls::{ButtonControl, ListControl, ListItemControl};
use uiautomation::element::{ElementObject, UIElement};
use uiautomation::errors::{ERR_NOTFOUND, ERR_TYPE, HR_NOINTERFACE};
use uiautomation::native::{
    DockPosition, DockState, InvokeState, NativeError, PatternRef, PatternState,
    SelectionItemState, UIA_BUTTON_CONTROL_TYPE_ID, UIA_INVOKE_PATTERN_ID,
    UIA_LIST_CONTROL_TYPE_ID, UIA_LIST_ITEM_CONTROL_TYPE_ID, UIA_SCROLL_ITEM_PATTERN_ID,
    UIA_SELECTION_ITEM_PATTERN_ID,
};
use uiautomation::patterns::{IUIPattern, UIDockPattern, UIInvokePattern, UISelectionItemPattern};

fn element(rid: u64, tag: i32, patterns: Vec<(i32, PatternRef)>) -> UIElement {
    UIElement {
        object: Rc::new(ElementObject {
            runtime_id: rid,
            control_type: Ok(tag),
            classname: Ok(String::from("TestClass")),
            name: Ok(String::from("test element")),
            patterns,
        }),
    }
}

fn invoke_object(response: Result<(), NativeError>) -> PatternRef {
    PatternRef {
        object: Rc::new(PatternState::Invoke(Rc::new(InvokeState { invoke_response: response }))),
    }
}

fn selection_object(selected: bool) -> PatternRef {
    PatternRef {
        object: Rc::new(PatternState::SelectionItem(Rc::new(SelectionItemState {
            selected: Ok(selected),
            select_response: Ok(()),
            add_response: Ok(()),
            remove_response: Ok(()),
        }))),
    }
}

fn dock_object() -> PatternRef {
    PatternRef {
        object: Rc::new(PatternState::Dock(Rc::new(DockState {
            position: Ok(DockPosition::Top),
            set_response: Ok(()),
        }))),
    }
}

#[test]
fn pattern_cast_succeeds_on_supporting_object() {
    let w = UIInvokePattern::try_from(invoke_object(Ok(()))).unwrap();
    assert!(w.invoke().is_ok());
}

#[test]
fn pattern_cast_fails_closed_on_foreign_object() {
    let r = UIInvokePattern::try_from(dock_object());
    let e = r.err().unwrap();
    assert_eq!(e.code(), HR_NOINTERFACE);
    assert_eq!(e.result(), Some(HR_NOINTERFACE));
    assert_eq!(e.message(), "No such interface supported");
}

#[test]
fn pattern_new_is_the_identity_cast() {
    let ok = UIInvokePattern::new(invoke_object(Ok(())));
    assert!(ok.is_ok());
    let bad = UIInvokePattern::new(dock_object());
    assert_eq!(bad.err().unwrap().code(), HR_NOINTERFACE);
    assert_eq!(UIInvokePattern::pattern_id(), UIA_INVOKE_PATTERN_ID);
}

#[test]
fn control_accepts_matching_tag_only() {
    let e = element(1, UIA_BUTTON_CONTROL_TYPE_ID, vec![]);
    assert!(ButtonControl::try_from(e.clone()).is_ok());
    let wrong = ButtonControl::try_from(element(2, UIA_LIST_CONTROL_TYPE_ID, vec![]));
    let err = wrong.err().unwrap();
    assert_eq!(err.code(), ERR_TYPE);
    assert_eq!(err.message(), "Error Control Type");
    assert_eq!(err.result(), None);

    assert!(ListControl::try_from(element(3, UIA_LIST_CONTROL_TYPE_ID, vec![])).is_ok());
    assert!(ListControl::try_from(element(4, UIA_BUTTON_CONTROL_TYPE_ID, vec![])).is_err());
    assert!(ListItemControl::try_from(element(5, UIA_LIST_ITEM_CONTROL_TYPE_ID, vec![])).is_ok());
    assert!(ListItemControl::try_from(element(6, UIA_LIST_CONTROL_TYPE_ID, vec![])).is_err());
}

#[test]
fn control_type_query_failure_propagates() {
    let e = UIElement {
        object: Rc::new(ElementObject {
            runtime_id: 9,
            control_type: Err(NativeError { code: -99, message: String::from("stale element") }),
            classname: Ok(String::from("c")),
            name: Ok(String::from("n")),
            patterns: vec![],
        }),
    };
    let err = ButtonControl::try_from(e).err().unwrap();
    assert_eq!(err.code(), -99);
    assert_eq!(err.message(), "stale element");
}

#[test]
fn control_roundtrip_yields_identical_object() {
    let e = element(77, UIA_BUTTON_CONTROL_TYPE_ID, vec![]);
    let original = e.clone();
    let b = ButtonControl::try_from(e).unwrap();
    let back: UIElement = b.into();
    assert!(Rc::ptr_eq(&back.object, &original.object));
    assert_eq!(back.runtime_id(), 77);
}

#[test]
fn derived_invoke_equals_manual_forwarding_on_success() {
    let e = element(
        10,
        UIA_LIST_ITEM_CONTROL_TYPE_ID,
        vec![(UIA_INVOKE_PATTERN_ID, invoke_object(Ok(())))],
    );
    let control = ListItemControl::try_from(e.clone()).unwrap();
    let derived = control.invoke();
    let manual: UIInvokePattern = e.get_pattern().unwrap();
    assert_eq!(derived.is_ok(), manual.invoke().is_ok());
    assert!(derived.is_ok());
}

#[test]
fn derived_invoke_equals_manual_forwarding_on_failure() {
    let e = element(
        11,
        UIA_LIST_ITEM_CONTROL_TYPE_ID,
        vec![(
            UIA_INVOKE_PATTERN_ID,
            invoke_object(Err(NativeError { code: -5, message: String::from("blocked") })),
        )],
    );
    let control = ListItemControl::try_from(e.clone()).unwrap();
    let derived_err = control.invoke().err().unwrap();
    let manual: UIInvokePattern = e.get_pattern().unwrap();
    let manual_err = manual.invoke().err().unwrap();
    assert_eq!(derived_err.code(), manual_err.code());
    assert_eq!(derived_err.message(), manual_err.message());
}

#[test]
fn list_item_scenario_selection_boolean_comes_through() {
    let e = element(
        20,
        UIA_LIST_ITEM_CONTROL_TYPE_ID,
        vec![(UIA_SELECTION_ITEM_PATTERN_ID, selection_object(true))],
    );
    let item = ListItemControl::try_from(e).unwrap();
    assert_eq!(item.is_selected().unwrap(), true);
    assert!(item.select().is_ok());
}

#[test]
fn list_item_scenario_capability_gate_is_independent_of_tag_gate() {
    // the element carries the list-item tag, so construction succeeds, but
    // the object registered under the SelectionItem id implements another
    // interface: the capability gate fails with the no-interface status
    let e = element(
        21,
        UIA_LIST_ITEM_CONTROL_TYPE_ID,
        vec![(UIA_SELECTION_ITEM_PATTERN_ID, invoke_object(Ok(())))],
    );
    let item = ListItemControl::try_from(e).unwrap();
    let err = item.is_selected().err().unwrap();
    assert_eq!(err.code(), HR_NOINTERFACE);
    assert_eq!(err.result(), Some(HR_NOINTERFACE));
}

#[test]
fn list_item_scenario_unexposed_capability_is_not_found() {
    let e = element(22, UIA_LIST_ITEM_CONTROL_TYPE_ID, vec![]);
    let item = ListItemControl::try_from(e).unwrap();
    let err = item.is_selected().err().unwrap();
    assert_eq!(err.code(), ERR_NOTFOUND);
    let err = item.scroll_into_view().err().unwrap();
    assert_eq!(err.code(), ERR_NOTFOUND);
}

#[test]
fn get_pattern_picks_the_entry_with_the_matching_id() {
    let e = element(
        23,
        UIA_LIST_ITEM_CONTROL_TYPE_ID,
        vec![
            (UIA_SELECTION_ITEM_PATTERN_ID, selection_object(false)),
            (UIA_INVOKE_PATTERN_ID, invoke_object(Ok(()))),
            (UIA_SCROLL_ITEM_PATTERN_ID, dock_object()),
        ],
    );
    let sel: UISelectionItemPattern = e.get_pattern().unwrap();
    assert_eq!(sel.is_selected().unwrap(), false);
    let inv: Result<UIInvokePattern, _> = e.get_pattern();
    assert!(inv.is_ok());
    // the scroll-item id is exposed, but by a dock object: the identity
    // cast refuses it
    let scroll: Result<uiautomation::patterns::UIScrollItemPattern, _> = e.get_pattern();
    assert_eq!(scroll.err().unwrap().code(), HR_NOINTERFACE);
    // the dock id itself is not exposed at all
    let dock: Result<UIDockPattern, _> = e.get_pattern();
    assert_eq!(dock.err().unwrap().code(), ERR_NOTFOUND);
}

#[test]
fn element_identity_queries_read_the_object() {
    let e = element(30, UIA_BUTTON_CONTROL_TYPE_ID, vec![]);
    assert_eq!(e.runtime_id(), 30);
    assert_eq!(e.get_control_type().unwrap(), UIA_BUTTON_CONTROL_TYPE_ID);
    assert_eq!(e.get_classname().unwrap(), "TestClass");
    assert_eq!(e.get_name().unwrap(), "test element");
}

#[test]
fn element_query_failure_surfaces_native_status() {
    let e = UIElement {
        object: Rc::new(ElementObject {
            runtime_id: 31,
            control_type: Ok(UIA_BUTTON_CONTROL_TYPE_ID),
            classname: Err(NativeError { code: -3, message: String::from("no class") }),
            name: Ok(String::from("n")),
            patterns: vec![],
        }),
    };
    let err = e.get_classname().err().unwrap();
    assert_eq!(err.code(), -3);
    assert_eq!(err.result(), Some(-3));
}
