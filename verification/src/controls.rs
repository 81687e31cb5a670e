//! The control wrappers: a type-per-control view of an element handle.
//!
//! A control wrapper owns exactly one element and is constructible only
//! from an element whose control-type tag equals the wrapper's expected
//! tag; a mismatch is refused with the wrong-control-type error before any
//! capability is touched.  The tag check and the capability check are
//! independent gates: construction succeeding promises nothing about which
//! capabilities the element exposes at runtime.

use vstd::prelude::*;

use crate::actions::{
    Invoke, ItemContainer, MultipleView, ScrollItem, SelectionItem,
};
use crate::element::UIElement;
use crate::errors::{Result, is_wrong_type_error, spec_from_native, wrong_type_error};
use crate::native::{
    UIA_BUTTON_CONTROL_TYPE_ID, UIA_LIST_CONTROL_TYPE_ID, UIA_LIST_ITEM_CONTROL_TYPE_ID,
};
use crate::patterns::{
    UIInvokePattern, UIItemContainerPattern, UIMultipleViewPattern, UIScrollItemPattern,
    UISelectionItemPattern,
};
use crate::types::Variant;

verus! {

/// Wraps a button element as a control.
pub struct ButtonControl {
    pub control: UIElement,
}

/// Wraps a list element as a control.
pub struct ListControl {
    pub control: UIElement,
}

/// Wraps a list-item element as a control.
pub struct ListItemControl {
    pub control: UIElement,
}

/// What constructing a button control returns: querying the element's
/// control type may itself fail natively; a tag other than the button tag is
/// refused with the wrong-control-type error; the button tag yields a
/// wrapper owning the very element given.
pub open spec fn button_from_element_post(e: UIElement, r: Result<ButtonControl>) -> bool {
    match (*e.object).control_type {
        Err(ne) => r == Result::<ButtonControl>::Err(spec_from_native(ne)),
        Ok(t) => if t == UIA_BUTTON_CONTROL_TYPE_ID {
            r matches Ok(c) && c.control == e
        } else {
            r matches Err(er) && is_wrong_type_error(er)
        },
    }
}

/// What constructing a list control returns; as for the button, with the
/// list tag expected.
pub open spec fn list_from_element_post(e: UIElement, r: Result<ListControl>) -> bool {
    match (*e.object).control_type {
        Err(ne) => r == Result::<ListControl>::Err(spec_from_native(ne)),
        Ok(t) => if t == UIA_LIST_CONTROL_TYPE_ID {
            r matches Ok(c) && c.control == e
        } else {
            r matches Err(er) && is_wrong_type_error(er)
        },
    }
}

/// What constructing a list-item control returns; as for the button, with
/// the list-item tag expected.
pub open spec fn list_item_from_element_post(e: UIElement, r: Result<ListItemControl>) -> bool {
    match (*e.object).control_type {
        Err(ne) => r == Result::<ListItemControl>::Err(spec_from_native(ne)),
        Ok(t) => if t == UIA_LIST_ITEM_CONTROL_TYPE_ID {
            r matches Ok(c) && c.control == e
        } else {
            r matches Err(er) && is_wrong_type_error(er)
        },
    }
}

impl ButtonControl {
    /// The fallible conversion from an element: accepted exactly when the
    /// element's control-type tag is the button tag.
    pub fn try_from(control: UIElement) -> (r: Result<ButtonControl>)
        ensures
            button_from_element_post(control, r),
    {
        match control.get_control_type() {
            Err(e) => Err(e),
            Ok(t) => if t == UIA_BUTTON_CONTROL_TYPE_ID {
                Ok(ButtonControl { control })
            } else {
                Err(wrong_type_error())
            },
        }
    }

    /// Hands the owned element back.
    pub fn into(self) -> (r: UIElement)
        ensures
            r == self.control,
    {
        self.control
    }

    /// Borrows the owned element.
    pub fn as_ref(&self) -> (r: &UIElement)
        ensures
            r == self.control,
    {
        &self.control
    }
}

impl Invoke for ButtonControl {
    open spec fn elem(&self) -> UIElement {
        self.control
    }

    fn invoke(&self) -> (r: Result<()>) {
        let pattern: UIInvokePattern = match self.as_ref().get_pattern() {
            Ok(p) => p,
            Err(e) => return Err(e),
        };
        pattern.invoke()
    }
}

impl ListControl {
    /// The fallible conversion from an element: accepted exactly when the
    /// element's control-type tag is the list tag.
    pub fn try_from(control: UIElement) -> (r: Result<ListControl>)
        ensures
            list_from_element_post(control, r),
    {
        match control.get_control_type() {
            Err(e) => Err(e),
            Ok(t) => if t == UIA_LIST_CONTROL_TYPE_ID {
                Ok(ListControl { control })
            } else {
                Err(wrong_type_error())
            },
        }
    }

    /// Hands the owned element back.
    pub fn into(self) -> (r: UIElement)
        ensures
            r == self.control,
    {
        self.control
    }

    /// Borrows the owned element.
    pub fn as_ref(&self) -> (r: &UIElement)
        ensures
            r == self.control,
    {
        &self.control
    }
}

impl MultipleView for ListControl {
    open spec fn elem(&self) -> UIElement {
        self.control
    }

    fn get_supported_views(&self) -> (r: Result<Vec<i32>>) {
        let pattern: UIMultipleViewPattern = match self.as_ref().get_pattern() {
            Ok(p) => p,
            Err(e) => return Err(e),
        };
        pattern.get_supported_views()
    }

    fn get_view_name(&self, view: i32) -> (r: Result<String>) {
        let pattern: UIMultipleViewPattern = match self.as_ref().get_pattern() {
            Ok(p) => p,
            Err(e) => return Err(e),
        };
        pattern.get_view_name(view)
    }

    fn get_current_view(&self) -> (r: Result<i32>) {
        let pattern: UIMultipleViewPattern = match self.as_ref().get_pattern() {
            Ok(p) => p,
            Err(e) => return Err(e),
        };
        pattern.get_current_view()
    }

    fn set_current_view(&self, view: i32) -> (r: Result<()>) {
        let pattern: UIMultipleViewPattern = match self.as_ref().get_pattern() {
            Ok(p) => p,
            Err(e) => return Err(e),
        };
        pattern.set_current_view(view)
    }
}

impl ItemContainer for ListControl {
    open spec fn elem(&self) -> UIElement {
        self.control
    }

    fn find_item_by_property(
        &self,
        start_after: UIElement,
        property_id: i32,
        value: Variant,
    ) -> (r: Result<UIElement>) {
        let pattern: UIItemContainerPattern = match self.as_ref().get_pattern() {
            Ok(p) => p,
            Err(e) => return Err(e),
        };
        pattern.find_item_by_property(start_after, property_id, value)
    }
}

impl ListItemControl {
    /// The fallible conversion from an element: accepted exactly when the
    /// element's control-type tag is the list-item tag.
    pub fn try_from(control: UIElement) -> (r: Result<ListItemControl>)
        ensures
            list_item_from_element_post(control, r),
    {
        match control.get_control_type() {
            Err(e) => Err(e),
            Ok(t) => if t == UIA_LIST_ITEM_CONTROL_TYPE_ID {
                Ok(ListItemControl { control })
            } else {
                Err(wrong_type_error())
            },
        }
    }

    /// Hands the owned element back.
    pub fn into(self) -> (r: UIElement)
        ensures
            r == self.control,
    {
        self.control
    }

    /// Borrows the owned element.
    pub fn as_ref(&self) -> (r: &UIElement)
        ensures
            r == self.control,
    {
        &self.control
    }
}

impl Invoke for ListItemControl {
    open spec fn elem(&self) -> UIElement {
        self.control
    }

    fn invoke(&self) -> (r: Result<()>) {
        let pattern: UIInvokePattern = match self.as_ref().get_pattern() {
            Ok(p) => p,
            Err(e) => return Err(e),
        };
        pattern.invoke()
    }
}

impl SelectionItem for ListItemControl {
    open spec fn elem(&self) -> UIElement {
        self.control
    }

    fn select(&self) -> (r: Result<()>) {
        let pattern: UISelectionItemPattern = match self.as_ref().get_pattern() {
            Ok(p) => p,
            Err(e) => return Err(e),
        };
        pattern.select()
    }

    fn add_to_selection(&self) -> (r: Result<()>) {
        let pattern: UISelectionItemPattern = match self.as_ref().get_pattern() {
            Ok(p) => p,
            Err(e) => return Err(e),
        };
        pattern.add_to_selection()
    }

    fn remove_from_selection(&self) -> (r: Result<()>) {
        let pattern: UISelectionItemPattern = match self.as_ref().get_pattern() {
            Ok(p) => p,
            Err(e) => return Err(e),
        };
        pattern.remove_from_selection()
    }

    fn is_selected(&self) -> (r: Result<bool>) {
        let pattern: UISelectionItemPattern = match self.as_ref().get_pattern() {
            Ok(p) => p,
            Err(e) => return Err(e),
        };
        pattern.is_selected()
    }
}

impl ScrollItem for ListItemControl {
    open spec fn elem(&self) -> UIElement {
        self.control
    }

    fn scroll_into_view(&self) -> (r: Result<()>) {
        let pattern: UIScrollItemPattern = match self.as_ref().get_pattern() {
            Ok(p) => p,
            Err(e) => return Err(e),
        };
        pattern.scroll_into_view()
    }
}

/// Accepting a control wrapper and converting it back is the identity on
/// the element: each wrapper type accepts exactly the elements carrying its
/// tag, and an accepted wrapper owns the very element it was built from, so
/// the element handed back refers to the identical underlying object.
pub proof fn lemma_control_roundtrip(
    e: UIElement,
    rb: Result<ButtonControl>,
    rl: Result<ListControl>,
    rli: Result<ListItemControl>,
)
    requires
        button_from_element_post(e, rb),
        list_from_element_post(e, rl),
        list_item_from_element_post(e, rli),
    ensures
        rb is Ok <==> ((*e.object).control_type matches Ok(t) && t == UIA_BUTTON_CONTROL_TYPE_ID),
        rb matches Ok(c) ==> c.control == e,
        rl is Ok <==> ((*e.object).control_type matches Ok(t) && t == UIA_LIST_CONTROL_TYPE_ID),
        rl matches Ok(c) ==> c.control == e,
        rli is Ok <==> ((*e.object).control_type matches Ok(t) && t
            == UIA_LIST_ITEM_CONTROL_TYPE_ID),
        rli matches Ok(c) ==> c.control == e,
{
}

} // verus!
