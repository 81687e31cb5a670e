use std::rc::Rc;

use uiautomation::element::{ElementObject, UIElement};
use uiautomation::native::{DragState, ElementArray, NativeError};
use uiautomation::patterns::UIDragPattern;

fn element(rid: u64) -> UIElement {
    UIElement {
        object: Rc::new(ElementObject {
            runtime_id: rid,
            control_type: Ok(50000),
            classname: Ok(String::from("c")),
            name: Ok(String::from("n")),
            patterns: vec![],
        }),
    }
}

fn drag(state: DragState) -> UIDragPattern {
    UIDragPattern::from(Rc::new(state))
}

fn plain_drag(items: Result<ElementArray, NativeError>) -> UIDragPattern {
    drag(DragState {
        grabbed: Ok(false),
        drop_effect: Ok(String::from("move")),
        grabbed_items: items,
    })
}

#[test]
fn zero_grabbed_items_is_an_empty_list_not_an_error() {
    let p = plain_drag(Ok(ElementArray { slots: vec![] }));
    let items = p.get_grabbed_items().unwrap();
    assert_eq!(items.len(), 0);
}

#[test]
fn grabbed_items_come_back_in_order() {
    let p = plain_drag(Ok(ElementArray {
        slots: vec![Ok(element(1)), Ok(element(2)), Ok(element(3))],
    }));
    let items = p.get_grabbed_items().unwrap();
    assert_eq!(items.len(), 3);
    assert_eq!(items[0].runtime_id(), 1);
    assert_eq!(items[1].runtime_id(), 2);
    assert_eq!(items[2].runtime_id(), 3);
}

#[test]
fn failing_fetch_discards_earlier_items() {
    let p = plain_drag(Ok(ElementArray {
        slots: vec![
            Ok(element(1)),
            Err(NativeError { code: -8, message: String::from("fetch failed") }),
            Ok(element(3)),
        ],
    }));
    let err = p.get_grabbed_items().err().unwrap();
    assert_eq!(err.code(), -8);
    assert_eq!(err.message(), "fetch failed");
}

#[test]
fn failing_collection_query_surfaces_its_status() {
    let p = plain_drag(Err(NativeError { code: -21, message: String::from("no collection") }));
    let err = p.get_grabbed_items().err().unwrap();
    assert_eq!(err.code(), -21);
}

#[test]
fn drag_state_queries_read_the_object() {
    let p = drag(DragState {
        grabbed: Ok(true),
        drop_effect: Ok(String::from("copy")),
        grabbed_items: Ok(ElementArray { slots: vec![] }),
    });
    assert_eq!(p.is_grabbed().unwrap(), true);
    assert_eq!(p.get_drop_effect().unwrap(), "copy");
}
