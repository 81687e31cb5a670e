//! The native automation surface, represented explicitly.
//!
//! The platform exposes UI objects as reference-counted handles that answer
//! property queries and hand out capability ("pattern") objects keyed by
//! numeric ids.  This module represents those objects as values: a record
//! holds the outcome of each query an object answers, and an element holds
//! the capability objects it exposes.  Shared ownership is `Rc`, mirroring
//! the reference counting of native handles; cloning a handle increments the
//! count and never copies the object, so a clone is exactly equal to the
//! original.

use std::rc::Rc;
use vstd::prelude::*;

use crate::element::UIElement;
use crate::types::Value;

verus! {

/// Capability id of the Invoke pattern.
pub const UIA_INVOKE_PATTERN_ID: i32 = 10000;

/// Capability id of the MultipleView pattern.
pub const UIA_MULTIPLE_VIEW_PATTERN_ID: i32 = 10008;

/// Capability id of the Window pattern.
pub const UIA_WINDOW_PATTERN_ID: i32 = 10009;

/// Capability id of the SelectionItem pattern.
pub const UIA_SELECTION_ITEM_PATTERN_ID: i32 = 10010;

/// Capability id of the Dock pattern.
pub const UIA_DOCK_PATTERN_ID: i32 = 10011;

/// Capability id of the Transform pattern.
pub const UIA_TRANSFORM_PATTERN_ID: i32 = 10016;

/// Capability id of the ScrollItem pattern.
pub const UIA_SCROLL_ITEM_PATTERN_ID: i32 = 10017;

/// Capability id of the ItemContainer pattern.
pub const UIA_ITEM_CONTAINER_PATTERN_ID: i32 = 10019;

/// Capability id of the Annotation pattern.
pub const UIA_ANNOTATION_PATTERN_ID: i32 = 10023;

/// Capability id of the Drag pattern.
pub const UIA_DRAG_PATTERN_ID: i32 = 10030;

/// Capability id of the DropTarget pattern.
pub const UIA_DROP_TARGET_PATTERN_ID: i32 = 10031;

/// Capability id of the CustomNavigation pattern.
pub const UIA_CUSTOM_NAVIGATION_PATTERN_ID: i32 = 10033;

/// Control-type tag of a button element.
pub const UIA_BUTTON_CONTROL_TYPE_ID: i32 = 50000;

/// Control-type tag of a list-item element.
pub const UIA_LIST_ITEM_CONTROL_TYPE_ID: i32 = 50007;

/// Control-type tag of a list element.
pub const UIA_LIST_CONTROL_TYPE_ID: i32 = 50008;

/// A failure reported by the native layer: a status code (negative by the
/// platform's convention) and the message the layer attached to it.
pub struct NativeError {
    pub code: i32,
    pub message: String,
}

/// A response of the native layer: either a value or a failure.
pub type NativeResult<T> = core::result::Result<T, NativeError>;

/// A direction of the CustomNavigation capability.
#[derive(Clone, Copy, PartialEq, Eq, Structural, Debug)]
pub enum NavigateDirection {
    Parent,
    NextSibling,
    PreviousSibling,
    FirstChild,
    LastChild,
}

/// A docking position of the Dock capability.
#[derive(Clone, Copy, PartialEq, Eq, Structural, Debug)]
pub enum DockPosition {
    Top,
    Left,
    Bottom,
    Right,
    Fill,
    NoDock,
}

/// A visual state of the Window capability.
#[derive(Clone, Copy, PartialEq, Eq, Structural, Debug)]
pub enum WindowVisualState {
    Normal,
    Maximized,
    Minimized,
}

/// An interaction state of the Window capability.
#[derive(Clone, Copy, PartialEq, Eq, Structural, Debug)]
pub enum WindowInteractionState {
    Running,
    Closing,
    ReadyForUserInteraction,
    BlockedByModalWindow,
    NotResponding,
}

/// A zoom step of the Transform capability.
#[derive(Clone, Copy, PartialEq, Eq, Structural, Debug)]
pub enum ZoomUnit {
    NoAmount,
    LargeDecrement,
    SmallDecrement,
    LargeIncrement,
    SmallIncrement,
}

/// The object behind an Invoke capability.
pub struct InvokeState {
    /// The response to triggering the element's default action.
    pub invoke_response: NativeResult<()>,
}

/// The object behind an Annotation capability.
pub struct AnnotationState {
    pub type_id: NativeResult<i32>,
    pub name_of_type: NativeResult<String>,
    pub author: NativeResult<String>,
    pub datetime: NativeResult<String>,
    /// The element the annotation refers to.
    pub target: NativeResult<UIElement>,
}

/// The object behind a CustomNavigation capability: the element related to
/// this one in each direction, or the failure the layer reports when no such
/// relation exists.
pub struct CustomNavigationState {
    pub parent: NativeResult<UIElement>,
    pub next_sibling: NativeResult<UIElement>,
    pub previous_sibling: NativeResult<UIElement>,
    pub first_child: NativeResult<UIElement>,
    pub last_child: NativeResult<UIElement>,
}

/// The object behind a Dock capability.
pub struct DockState {
    pub position: NativeResult<DockPosition>,
    /// The response to setting the dock position.
    pub set_response: NativeResult<()>,
}

/// A native collection of elements whose length is known up front and whose
/// entries are fetched one by one; any single fetch may fail.
pub struct ElementArray {
    pub slots: Vec<NativeResult<UIElement>>,
}

/// The object behind a Drag capability.
pub struct DragState {
    pub grabbed: NativeResult<bool>,
    pub drop_effect: NativeResult<String>,
    pub grabbed_items: NativeResult<ElementArray>,
}

/// The object behind a DropTarget capability.
pub struct DropTargetState {
    pub drop_target_effect: NativeResult<String>,
}

/// The object behind a SelectionItem capability.
pub struct SelectionItemState {
    pub selected: NativeResult<bool>,
    pub select_response: NativeResult<()>,
    pub add_response: NativeResult<()>,
    pub remove_response: NativeResult<()>,
}

/// The object behind a MultipleView capability.
pub struct MultipleViewState {
    /// The response to enumerating the supported view ids.
    pub views: NativeResult<Vec<i32>>,
    /// The response to querying the current view id.
    pub current: NativeResult<i32>,
    /// The name the layer holds for each view id it knows.
    pub names: Vec<(i32, String)>,
    /// The response to switching to a view the layer knows.
    pub set_response: NativeResult<()>,
}

/// One entry of an item container: an element together with the property
/// values it can be found by.
pub struct ContainerItem {
    pub element: UIElement,
    pub properties: Vec<(i32, Value)>,
}

/// The object behind an ItemContainer capability: its items, in the order
/// the container ranks them.
pub struct ItemContainerState {
    pub items: Vec<ContainerItem>,
}

/// The object behind a ScrollItem capability.
pub struct ScrollItemState {
    /// The response to scrolling the element into view.
    pub scroll_response: NativeResult<()>,
}

/// The object behind a Window capability.
pub struct WindowState {
    pub visual_state: NativeResult<WindowVisualState>,
    /// The response to setting the visual state.
    pub set_visual_response: NativeResult<()>,
    pub can_maximize: NativeResult<bool>,
    pub can_minimize: NativeResult<bool>,
    pub is_modal: NativeResult<bool>,
    pub is_topmost: NativeResult<bool>,
    pub interaction_state: NativeResult<WindowInteractionState>,
    pub close_response: NativeResult<()>,
    /// The response to waiting until input is idle.
    pub wait_idle: NativeResult<bool>,
}

/// The object behind a Transform capability, as far as its surface is free
/// of floating-point quantities: the capability probes that must be checked
/// before attempting the corresponding mutator, and the stepwise zoom.
pub struct TransformState {
    pub can_move: NativeResult<bool>,
    pub can_resize: NativeResult<bool>,
    pub can_rotate: NativeResult<bool>,
    pub can_zoom: NativeResult<bool>,
    pub zoom_by_unit_response: NativeResult<()>,
}

/// A capability object, one variant per capability interface.
pub enum PatternState {
    Invoke(Rc<InvokeState>),
    Annotation(Rc<AnnotationState>),
    CustomNavigation(Rc<CustomNavigationState>),
    Dock(Rc<DockState>),
    Drag(Rc<DragState>),
    DropTarget(Rc<DropTargetState>),
    SelectionItem(Rc<SelectionItemState>),
    MultipleView(Rc<MultipleViewState>),
    ItemContainer(Rc<ItemContainerState>),
    ScrollItem(Rc<ScrollItemState>),
    Window(Rc<WindowState>),
    Transform(Rc<TransformState>),
}

/// An opaque, shared reference to a capability object, before any identity
/// cast has established which interface it implements.
pub struct PatternRef {
    pub object: Rc<PatternState>,
}

impl Clone for PatternRef {
    /// Cloning an opaque reference shares the underlying object.
    fn clone(&self) -> (r: Self)
        ensures
            r == *self,
    {
        PatternRef { object: self.object.clone() }
    }
}

} // verus!
