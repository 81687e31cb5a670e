//! The capability traits a control wrapper may claim to support.
//!
//! Every method of these traits forwards through the owned element: it
//! acquires the pattern wrapper matching the capability's id — a static
//! claim of support is not a runtime guarantee, so acquisition itself may
//! fail — hands the arguments on unchanged, and returns the result
//! unchanged.  The contracts below state exactly that composition, so an
//! implementation is observably identical to hand-written forwarding.

use vstd::prelude::*;

use crate::element::{UIElement, spec_assoc, spec_lookup_pattern};
use crate::errors::{
    Result, is_item_not_found_error, is_no_interface_error, is_pattern_not_found_error,
    is_unknown_view_error, spec_from_native,
};
use crate::native::{
    PatternState, UIA_INVOKE_PATTERN_ID, UIA_ITEM_CONTAINER_PATTERN_ID,
    UIA_MULTIPLE_VIEW_PATTERN_ID, UIA_SCROLL_ITEM_PATTERN_ID, UIA_SELECTION_ITEM_PATTERN_ID,
};
use crate::patterns::{UIInvokePattern, spec_find_item, spec_invoke, spec_native};
use crate::types::Variant;

verus! {

/// What a forwarded `invoke` returns: the capability is acquired from the
/// element — failing with "not found" when the element does not expose it
/// and with the no-interface error when the exposed object does not
/// implement it — and on success the call is the pattern wrapper's own.
pub open spec fn forwarded_invoke_post(e: UIElement, r: Result<()>) -> bool {
    match spec_lookup_pattern(e, UIA_INVOKE_PATTERN_ID) {
        None => r matches Err(er) && is_pattern_not_found_error(er),
        Some(p) => match *p.object {
            PatternState::Invoke(st) => r == spec_invoke(*st),
            _ => r matches Err(er) && is_no_interface_error(er),
        },
    }
}

/// What a forwarded `select` returns.
pub open spec fn forwarded_select_post(e: UIElement, r: Result<()>) -> bool {
    match spec_lookup_pattern(e, UIA_SELECTION_ITEM_PATTERN_ID) {
        None => r matches Err(er) && is_pattern_not_found_error(er),
        Some(p) => match *p.object {
            PatternState::SelectionItem(st) => r == spec_native((*st).select_response),
            _ => r matches Err(er) && is_no_interface_error(er),
        },
    }
}

/// What a forwarded `add_to_selection` returns.
pub open spec fn forwarded_add_to_selection_post(e: UIElement, r: Result<()>) -> bool {
    match spec_lookup_pattern(e, UIA_SELECTION_ITEM_PATTERN_ID) {
        None => r matches Err(er) && is_pattern_not_found_error(er),
        Some(p) => match *p.object {
            PatternState::SelectionItem(st) => r == spec_native((*st).add_response),
            _ => r matches Err(er) && is_no_interface_error(er),
        },
    }
}

/// What a forwarded `remove_from_selection` returns.
pub open spec fn forwarded_remove_from_selection_post(e: UIElement, r: Result<()>) -> bool {
    match spec_lookup_pattern(e, UIA_SELECTION_ITEM_PATTERN_ID) {
        None => r matches Err(er) && is_pattern_not_found_error(er),
        Some(p) => match *p.object {
            PatternState::SelectionItem(st) => r == spec_native((*st).remove_response),
            _ => r matches Err(er) && is_no_interface_error(er),
        },
    }
}

/// What a forwarded `is_selected` returns.
pub open spec fn forwarded_is_selected_post(e: UIElement, r: Result<bool>) -> bool {
    match spec_lookup_pattern(e, UIA_SELECTION_ITEM_PATTERN_ID) {
        None => r matches Err(er) && is_pattern_not_found_error(er),
        Some(p) => match *p.object {
            PatternState::SelectionItem(st) => r == spec_native((*st).selected),
            _ => r matches Err(er) && is_no_interface_error(er),
        },
    }
}

/// What a forwarded `scroll_into_view` returns.
pub open spec fn forwarded_scroll_into_view_post(e: UIElement, r: Result<()>) -> bool {
    match spec_lookup_pattern(e, UIA_SCROLL_ITEM_PATTERN_ID) {
        None => r matches Err(er) && is_pattern_not_found_error(er),
        Some(p) => match *p.object {
            PatternState::ScrollItem(st) => r == spec_native((*st).scroll_response),
            _ => r matches Err(er) && is_no_interface_error(er),
        },
    }
}

/// What a forwarded `get_supported_views` returns.
pub open spec fn forwarded_get_supported_views_post(e: UIElement, r: Result<Vec<i32>>) -> bool {
    match spec_lookup_pattern(e, UIA_MULTIPLE_VIEW_PATTERN_ID) {
        None => r matches Err(er) && is_pattern_not_found_error(er),
        Some(p) => match *p.object {
            PatternState::MultipleView(st) => match (*st).views {
                Ok(vs) => r matches Ok(v) && v@ == vs@,
                Err(ne) => r == Result::<Vec<i32>>::Err(spec_from_native(ne)),
            },
            _ => r matches Err(er) && is_no_interface_error(er),
        },
    }
}

/// What a forwarded `get_view_name` returns.
pub open spec fn forwarded_get_view_name_post(e: UIElement, view: i32, r: Result<String>) -> bool {
    match spec_lookup_pattern(e, UIA_MULTIPLE_VIEW_PATTERN_ID) {
        None => r matches Err(er) && is_pattern_not_found_error(er),
        Some(p) => match *p.object {
            PatternState::MultipleView(st) => match spec_assoc((*st).names@, view) {
                Some(s) => r == Result::<String>::Ok(s),
                None => r matches Err(er) && is_unknown_view_error(er),
            },
            _ => r matches Err(er) && is_no_interface_error(er),
        },
    }
}

/// What a forwarded `get_current_view` returns.
pub open spec fn forwarded_get_current_view_post(e: UIElement, r: Result<i32>) -> bool {
    match spec_lookup_pattern(e, UIA_MULTIPLE_VIEW_PATTERN_ID) {
        None => r matches Err(er) && is_pattern_not_found_error(er),
        Some(p) => match *p.object {
            PatternState::MultipleView(st) => r == spec_native((*st).current),
            _ => r matches Err(er) && is_no_interface_error(er),
        },
    }
}

/// What a forwarded `set_current_view` returns.
pub open spec fn forwarded_set_current_view_post(e: UIElement, view: i32, r: Result<()>) -> bool {
    match spec_lookup_pattern(e, UIA_MULTIPLE_VIEW_PATTERN_ID) {
        None => r matches Err(er) && is_pattern_not_found_error(er),
        Some(p) => match *p.object {
            PatternState::MultipleView(st) => match spec_assoc((*st).names@, view) {
                Some(_) => r == spec_native((*st).set_response),
                None => r matches Err(er) && is_unknown_view_error(er),
            },
            _ => r matches Err(er) && is_no_interface_error(er),
        },
    }
}

/// What a forwarded `find_item_by_property` returns.
pub open spec fn forwarded_find_item_post(
    e: UIElement,
    start_rid: u64,
    property_id: i32,
    v: crate::types::Value,
    r: Result<UIElement>,
) -> bool {
    match spec_lookup_pattern(e, UIA_ITEM_CONTAINER_PATTERN_ID) {
        None => r matches Err(er) && is_pattern_not_found_error(er),
        Some(p) => match *p.object {
            PatternState::ItemContainer(st) => match spec_find_item(*st, start_rid, property_id, v) {
                Some(found) => r == Result::<UIElement>::Ok(found),
                None => r matches Err(er) && is_item_not_found_error(er),
            },
            _ => r matches Err(er) && is_no_interface_error(er),
        },
    }
}

/// A derived capability method is observably identical to hand-written
/// forwarding.  Acquire the Invoke pattern wrapper from the element by hand
/// and call `invoke` on it: the result (`manual`) and the result of the
/// derived method (`derived`) succeed together, carry the same success
/// value, and on failure carry an error with the same code and the same
/// message — on both the success and the failure paths.
pub proof fn lemma_derived_invoke_is_manual_forwarding(
    e: UIElement,
    acquired: Result<UIInvokePattern>,
    manual: Result<()>,
    derived: Result<()>,
)
    requires
        crate::element::get_pattern_post::<UIInvokePattern>(e, acquired),
        match acquired {
            Ok(p) => manual == spec_invoke(*p.state),
            Err(er) => manual == Result::<()>::Err(er),
        },
        forwarded_invoke_post(e, derived),
    ensures
        manual is Ok <==> derived is Ok,
        manual matches Ok(v) ==> derived == manual,
        manual matches Err(e1) ==> (derived matches Err(e2) && e1.code == e2.code && e1.message@
            == e2.message@),
{
}

/// The Invoke capability: triggering an element's default action.
pub trait Invoke {
    /// The element whose capability the forwarded calls go through.
    spec fn elem(&self) -> UIElement;

    /// Triggers the element's default action through its Invoke capability.
    fn invoke(&self) -> (r: Result<()>)
        ensures
            forwarded_invoke_post(self.elem(), r),
    ;
}

/// The SelectionItem capability: selecting an element among its siblings.
pub trait SelectionItem {
    /// The element whose capability the forwarded calls go through.
    spec fn elem(&self) -> UIElement;

    /// Selects the element, deselecting any other selected sibling.
    fn select(&self) -> (r: Result<()>)
        ensures
            forwarded_select_post(self.elem(), r),
    ;

    /// Adds the element to the current selection.
    fn add_to_selection(&self) -> (r: Result<()>)
        ensures
            forwarded_add_to_selection_post(self.elem(), r),
    ;

    /// Removes the element from the current selection.
    fn remove_from_selection(&self) -> (r: Result<()>)
        ensures
            forwarded_remove_from_selection_post(self.elem(), r),
    ;

    /// Queries whether the element is selected.
    fn is_selected(&self) -> (r: Result<bool>)
        ensures
            forwarded_is_selected_post(self.elem(), r),
    ;
}

/// The MultipleView capability: enumerating and switching an element's
/// views.
pub trait MultipleView {
    /// The element whose capability the forwarded calls go through.
    spec fn elem(&self) -> UIElement;

    /// Enumerates the view ids the element supports.
    fn get_supported_views(&self) -> (r: Result<Vec<i32>>)
        ensures
            forwarded_get_supported_views_post(self.elem(), r),
    ;

    /// Queries the name of one supported view.
    fn get_view_name(&self, view: i32) -> (r: Result<String>)
        ensures
            forwarded_get_view_name_post(self.elem(), view, r),
    ;

    /// Queries the id of the current view.
    fn get_current_view(&self) -> (r: Result<i32>)
        ensures
            forwarded_get_current_view_post(self.elem(), r),
    ;

    /// Switches to the given view.
    fn set_current_view(&self, view: i32) -> (r: Result<()>)
        ensures
            forwarded_set_current_view_post(self.elem(), view, r),
    ;
}

/// The ItemContainer capability: finding an item by a property value.
pub trait ItemContainer {
    /// The element whose capability the forwarded calls go through.
    spec fn elem(&self) -> UIElement;

    /// Finds the first item past `start_after` carrying `value` under
    /// `property_id`.
    fn find_item_by_property(
        &self,
        start_after: UIElement,
        property_id: i32,
        value: Variant,
    ) -> (r: Result<UIElement>)
        ensures
            forwarded_find_item_post(
                self.elem(),
                (*start_after.object).runtime_id,
                property_id,
                value.value,
                r,
            ),
    ;
}

/// The ScrollItem capability: scrolling an element into view.
pub trait ScrollItem {
    /// The element whose capability the forwarded calls go through.
    spec fn elem(&self) -> UIElement;

    /// Scrolls the element into the visible region of its container.
    fn scroll_into_view(&self) -> (r: Result<()>)
        ensures
            forwarded_scroll_into_view_post(self.elem(), r),
    ;
}

} // verus!
