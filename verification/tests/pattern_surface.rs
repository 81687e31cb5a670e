use std::rc::Rc;

use uiautomation::actions::{ItemContainer, MultipleView};
use uiautomation::controls::ListControl;
use uiautomation::element::{ElementObject, UIElement};
use uiautomation::errors::{ERR_NOTFOUND, HR_INVALIDARG};
use uiautomation::native::{
    AnnotationState, ContainerItem, CustomNavigationState, DockPosition, DockState,
    ItemContainerState, MultipleViewState, NativeError, NavigateDirection, PatternRef,
    PatternState, TransformState, WindowInteractionState, WindowState, WindowVisualState,
    ZoomUnit, UIA_ITEM_CONTAINER_PATTERN_ID, UIA_LIST_CONTROL_TYPE_ID,
    UIA_MULTIPLE_VIEW_PATTERN_ID,
};
use uiautomation::patterns::{
    UIAnnotationPattern, UICustomNavigationPattern, UIDockPattern, UIItemContainerPattern,
    UIMultipleViewPattern, UITransformPattern, UIWindowPattern,
};
use uiautomation::types::{Value, Variant};

fn element(rid: u64, patterns: Vec<(i32, PatternRef)>) -> UIElement {
    UIElement {
        object: Rc::new(ElementObject {
            runtime_id: rid,
            control_type: Ok(UIA_LIST_CONTROL_TYPE_ID),
            classname: Ok(String::from("c")),
            name: Ok(String::from("n")),
            patterns,
        }),
    }
}

fn gone(code: i32) -> NativeError {
    NativeError { code, message: String::from("native failure") }
}

#[test]
fn annotation_accessors_read_the_object() {
    let target = element(5, vec![]);
    let p = UIAnnotationPattern::from(Rc::new(AnnotationState {
        type_id: Ok(60003),
        name_of_type: Ok(String::from("Comment")),
        author: Ok(String::from("an author")),
        datetime: Ok(String::from("2021-05-01T10:00:00")),
        target: Ok(target),
    }));
    assert_eq!(p.get_type_id().unwrap(), 60003);
    assert_eq!(p.get_type_nane().unwrap(), "Comment");
    assert_eq!(p.get_author().unwrap(), "an author");
    assert_eq!(p.get_datetime().unwrap(), "2021-05-01T10:00:00");
    assert_eq!(p.get_target().unwrap().runtime_id(), 5);
}

#[test]
fn navigate_returns_the_stored_relation() {
    let p = UICustomNavigationPattern::from(Rc::new(CustomNavigationState {
        parent: Ok(element(1, vec![])),
        next_sibling: Err(gone(-44)),
        previous_sibling: Ok(element(2, vec![])),
        first_child: Ok(element(3, vec![])),
        last_child: Ok(element(4, vec![])),
    }));
    assert_eq!(p.navigate(NavigateDirection::Parent).unwrap().runtime_id(), 1);
    assert_eq!(p.navigate(NavigateDirection::PreviousSibling).unwrap().runtime_id(), 2);
    assert_eq!(p.navigate(NavigateDirection::FirstChild).unwrap().runtime_id(), 3);
    assert_eq!(p.navigate(NavigateDirection::LastChild).unwrap().runtime_id(), 4);
    let err = p.navigate(NavigateDirection::NextSibling).err().unwrap();
    assert_eq!(err.code(), -44);
}

#[test]
fn dock_position_reads_and_set_reports_the_response() {
    let p = UIDockPattern::from(Rc::new(DockState {
        position: Ok(DockPosition::Left),
        set_response: Ok(()),
    }));
    assert_eq!(p.get_dock_position().unwrap(), DockPosition::Left);
    assert!(p.set_doc_position(DockPosition::Fill).is_ok());

    let refused = UIDockPattern::from(Rc::new(DockState {
        position: Err(gone(-10)),
        set_response: Err(gone(-11)),
    }));
    assert_eq!(refused.get_dock_position().err().unwrap().code(), -10);
    assert_eq!(refused.set_doc_position(DockPosition::Top).err().unwrap().code(), -11);
}

fn view_state() -> MultipleViewState {
    MultipleViewState {
        views: Ok(vec![0, 1, 2]),
        current: Ok(1),
        names: vec![
            (0, String::from("Icons")),
            (1, String::from("Details")),
            (2, String::from("Tiles")),
        ],
        set_response: Ok(()),
    }
}

#[test]
fn multiple_view_enumerates_and_names_views() {
    let p = UIMultipleViewPattern::from(Rc::new(view_state()));
    assert_eq!(p.get_supported_views().unwrap(), vec![0, 1, 2]);
    assert_eq!(p.get_current_view().unwrap(), 1);
    assert_eq!(p.get_view_name(2).unwrap(), "Tiles");
    assert!(p.set_current_view(0).is_ok());
}

#[test]
fn unknown_view_is_refused_with_invalid_parameter() {
    let p = UIMultipleViewPattern::from(Rc::new(view_state()));
    let err = p.get_view_name(9).err().unwrap();
    assert_eq!(err.code(), HR_INVALIDARG);
    assert_eq!(err.message(), "The parameter is incorrect.");
    let err = p.set_current_view(9).err().unwrap();
    assert_eq!(err.code(), HR_INVALIDARG);
}

fn item(rid: u64, property_id: i32, v: Value) -> ContainerItem {
    ContainerItem { element: element(rid, vec![]), properties: vec![(property_id, v)] }
}

fn container() -> ItemContainerState {
    ItemContainerState {
        items: vec![
            item(1, 30005, Value::STR(String::from("alpha"))),
            item(2, 30005, Value::STR(String::from("beta"))),
            item(3, 30005, Value::STR(String::from("alpha"))),
            item(4, 30003, Value::INT(50000)),
        ],
    }
}

#[test]
fn find_item_searches_past_the_start_element() {
    let p = UIItemContainerPattern::from(Rc::new(container()));
    let start = element(1, vec![]);
    let found = p
        .find_item_by_property(start, 30005, Variant { value: Value::STR(String::from("alpha")) })
        .unwrap();
    assert_eq!(found.runtime_id(), 3);
}

#[test]
fn find_item_with_unknown_start_searches_from_the_beginning() {
    let p = UIItemContainerPattern::from(Rc::new(container()));
    let start = element(99, vec![]);
    let found = p
        .find_item_by_property(start, 30005, Variant { value: Value::STR(String::from("alpha")) })
        .unwrap();
    assert_eq!(found.runtime_id(), 1);
}

#[test]
fn find_item_matches_value_by_variant_and_content() {
    let p = UIItemContainerPattern::from(Rc::new(container()));
    let found = p
        .find_item_by_property(element(99, vec![]), 30003, Variant { value: Value::INT(50000) })
        .unwrap();
    assert_eq!(found.runtime_id(), 4);
    // the same number under another variant does not match
    let err = p
        .find_item_by_property(element(99, vec![]), 30003, Variant { value: Value::LONG(50000) })
        .err()
        .unwrap();
    assert_eq!(err.code(), ERR_NOTFOUND);
}

#[test]
fn find_item_without_match_reports_not_found() {
    let p = UIItemContainerPattern::from(Rc::new(container()));
    let err = p
        .find_item_by_property(
            element(3, vec![]),
            30005,
            Variant { value: Value::STR(String::from("alpha")) },
        )
        .err()
        .unwrap();
    assert_eq!(err.code(), ERR_NOTFOUND);
    assert_eq!(err.message(), "no item matches the property value");
}

#[test]
fn forwarded_container_search_goes_through_the_list_control() {
    let container_ref = PatternRef {
        object: Rc::new(PatternState::ItemContainer(Rc::new(container()))),
    };
    let list = ListControl::try_from(element(
        50,
        vec![(UIA_ITEM_CONTAINER_PATTERN_ID, container_ref)],
    ))
    .unwrap();
    let found = list
        .find_item_by_property(
            element(2, vec![]),
            30005,
            Variant { value: Value::STR(String::from("alpha")) },
        )
        .unwrap();
    assert_eq!(found.runtime_id(), 3);
}

#[test]
fn forwarded_views_go_through_the_list_control() {
    let views_ref = PatternRef {
        object: Rc::new(PatternState::MultipleView(Rc::new(view_state()))),
    };
    let list = ListControl::try_from(element(
        51,
        vec![(UIA_MULTIPLE_VIEW_PATTERN_ID, views_ref)],
    ))
    .unwrap();
    assert_eq!(list.get_supported_views().unwrap(), vec![0, 1, 2]);
    assert_eq!(list.get_view_name(0).unwrap(), "Icons");
    assert_eq!(list.get_current_view().unwrap(), 1);
    assert!(list.set_current_view(2).is_ok());
}

fn window() -> WindowState {
    WindowState {
        visual_state: Ok(WindowVisualState::Maximized),
        set_visual_response: Ok(()),
        can_maximize: Ok(true),
        can_minimize: Ok(false),
        is_modal: Ok(false),
        is_topmost: Ok(true),
        interaction_state: Ok(WindowInteractionState::ReadyForUserInteraction),
        close_response: Ok(()),
        wait_idle: Ok(true),
    }
}

#[test]
fn window_visual_state_is_compared_by_value() {
    let p = UIWindowPattern::from(Rc::new(window()));
    assert_eq!(p.get_window_visual_state().unwrap(), WindowVisualState::Maximized);
    assert_eq!(p.is_maximized().unwrap(), true);
    assert_eq!(p.is_normal().unwrap(), false);
    assert_eq!(p.is_minimized().unwrap(), false);
}

#[test]
fn window_queries_and_requests_read_the_object() {
    let p = UIWindowPattern::from(Rc::new(window()));
    assert_eq!(p.can_maximize().unwrap(), true);
    assert_eq!(p.can_minimize().unwrap(), false);
    assert_eq!(p.is_modal().unwrap(), false);
    assert_eq!(p.is_topmost().unwrap(), true);
    assert_eq!(
        p.get_window_interaction_state().unwrap(),
        WindowInteractionState::ReadyForUserInteraction
    );
    assert!(p.close().is_ok());
    assert!(p.wait_for_input_idle(500).unwrap());
    assert!(p.maximize().is_ok());
    assert!(p.minimize().is_ok());
    assert!(p.normal().is_ok());
}

#[test]
fn transform_probes_guard_the_mutators() {
    let p = UITransformPattern::from(Rc::new(TransformState {
        can_move: Ok(true),
        can_resize: Ok(false),
        can_rotate: Err(gone(-61)),
        can_zoom: Ok(true),
        zoom_by_unit_response: Ok(()),
    }));
    assert_eq!(p.can_move().unwrap(), true);
    assert_eq!(p.can_resize().unwrap(), false);
    assert_eq!(p.can_rotate().err().unwrap().code(), -61);
    assert_eq!(p.can_zoom().unwrap(), true);
    assert!(p.zoom_by_unit(ZoomUnit::LargeIncrement).is_ok());
}
