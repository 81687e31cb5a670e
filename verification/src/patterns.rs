//! The pattern wrappers: one type per capability, each wrapping one typed
//! capability object and exposing a safe method set.
//!
//! Construction is a fallible identity cast from an opaque capability
//! reference: it succeeds exactly when the underlying object implements the
//! expected capability interface, and otherwise fails closed with a
//! no-interface error, never yielding a partially-valid wrapper.

use std::rc::Rc;
use vstd::prelude::*;

use crate::element::{UIElement, lemma_assoc_scan, spec_assoc};
use crate::errors::{
    Result, error_from_native, is_item_not_found_error, is_no_interface_error,
    is_unknown_view_error, item_not_found_error, no_interface_error, spec_from_native,
    unknown_view_error,
};
use crate::native::{
    AnnotationState, ContainerItem, CustomNavigationState, DockPosition, DockState, DragState,
    DropTargetState, ElementArray, InvokeState, ItemContainerState, MultipleViewState,
    NativeResult, NavigateDirection, PatternRef, PatternState, ScrollItemState, SelectionItemState,
    TransformState, WindowState, WindowInteractionState, WindowVisualState, ZoomUnit,
    UIA_ANNOTATION_PATTERN_ID, UIA_CUSTOM_NAVIGATION_PATTERN_ID, UIA_DOCK_PATTERN_ID,
    UIA_DRAG_PATTERN_ID, UIA_DROP_TARGET_PATTERN_ID, UIA_INVOKE_PATTERN_ID,
    UIA_ITEM_CONTAINER_PATTERN_ID, UIA_MULTIPLE_VIEW_PATTERN_ID, UIA_SCROLL_ITEM_PATTERN_ID,
    UIA_SELECTION_ITEM_PATTERN_ID, UIA_TRANSFORM_PATTERN_ID, UIA_WINDOW_PATTERN_ID,
};
use crate::types::{Value, Variant, spec_value_eq};

verus! {

/// What a native response maps to: a value as is, or the native failure
/// captured in an error.
pub open spec fn spec_native<T>(r: NativeResult<T>) -> Result<T> {
    match r {
        Ok(v) => Ok(v),
        Err(ne) => Err(spec_from_native(ne)),
    }
}

/// The common shape of every pattern wrapper: a fixed capability id, and a
/// fallible constructor that performs the identity cast.
pub trait IUIPattern: Sized {
    /// The numeric identifier of the capability this wrapper binds.
    spec fn spec_pattern_id() -> i32;

    /// Whether the opaque reference's object genuinely implements this
    /// capability interface.
    spec fn spec_supports(p: PatternRef) -> bool;

    /// The wrapper the identity cast yields; meaningful only when the
    /// object supports the capability.
    spec fn spec_wrap(p: PatternRef) -> Self;

    fn pattern_id() -> (r: i32)
        ensures
            r == Self::spec_pattern_id(),
    ;

    fn new(pattern: PatternRef) -> (r: Result<Self>)
        ensures
            Self::spec_supports(pattern) ==> (r matches Ok(w) && w == Self::spec_wrap(pattern)),
            !Self::spec_supports(pattern) ==> (r matches Err(e) && is_no_interface_error(e)),
    ;
}

/// What the identity cast returns: the wrapper around the object when the
/// object implements the capability, and the no-interface error otherwise.
/// The cast fails closed: it succeeds if and only if the capability is
/// genuinely implemented.
pub open spec fn cast_post<T: IUIPattern>(p: PatternRef, r: Result<T>) -> bool {
    if T::spec_supports(p) {
        r matches Ok(w) && w == T::spec_wrap(p)
    } else {
        r matches Err(e) && is_no_interface_error(e)
    }
}

/// The identity cast succeeds exactly on references whose object implements
/// the capability; on success the wrapper is the one around that object, and
/// on failure the error is the no-interface error.
pub proof fn lemma_cast_fails_closed<T: IUIPattern>(p: PatternRef, r: Result<T>)
    requires
        cast_post::<T>(p, r),
    ensures
        r is Ok <==> T::spec_supports(p),
        r matches Ok(w) ==> w == T::spec_wrap(p),
        r matches Err(e) ==> is_no_interface_error(e),
{
}

/// Wraps the Invoke capability of one element.
pub struct UIInvokePattern {
    pub state: Rc<InvokeState>,
}

/// What `invoke` returns: the object's response to triggering the default
/// action, its failure captured in an error.
pub open spec fn spec_invoke(st: InvokeState) -> Result<()> {
    spec_native(st.invoke_response)
}

impl UIInvokePattern {
    /// Triggers the element's default action; fails when the element is not
    /// actionable at invocation time.
    pub fn invoke(&self) -> (r: Result<()>)
        ensures
            r == spec_invoke(*self.state),
    {
        match &self.state.invoke_response {
            Ok(_) => Ok(()),
            Err(ne) => Err(error_from_native(ne)),
        }
    }

    /// The identity cast from an opaque capability reference.
    pub fn try_from(pattern: PatternRef) -> (r: Result<Self>)
        ensures
            ((*pattern.object) is Invoke) ==> (r matches Ok(w) && w.state
                == (*pattern.object)->Invoke_0),
            !((*pattern.object) is Invoke) ==> (r matches Err(e) && is_no_interface_error(e)),
    {
        match &*pattern.object {
            PatternState::Invoke(st) => Ok(UIInvokePattern { state: st.clone() }),
            _ => Err(no_interface_error()),
        }
    }

    /// Wraps an already-typed capability object.
    pub fn from(state: Rc<InvokeState>) -> (r: Self)
        ensures
            r.state == state,
    {
        UIInvokePattern { state }
    }

    /// Hands the typed capability object back.
    pub fn into(self) -> (r: Rc<InvokeState>)
        ensures
            r == self.state,
    {
        self.state
    }

    /// Borrows the typed capability object.
    pub fn as_ref(&self) -> (r: &Rc<InvokeState>)
        ensures
            r == self.state,
    {
        &self.state
    }
}

impl IUIPattern for UIInvokePattern {
    open spec fn spec_pattern_id() -> i32 {
        UIA_INVOKE_PATTERN_ID
    }

    open spec fn spec_supports(p: PatternRef) -> bool {
        (*p.object) is Invoke
    }

    open spec fn spec_wrap(p: PatternRef) -> Self {
        UIInvokePattern { state: (*p.object)->Invoke_0 }
    }

    fn pattern_id() -> (r: i32) {
        UIA_INVOKE_PATTERN_ID
    }

    fn new(pattern: PatternRef) -> (r: Result<Self>) {
        UIInvokePattern::try_from(pattern)
    }
}

/// Wraps the Annotation capability of one element.
pub struct UIAnnotationPattern {
    pub state: Rc<AnnotationState>,
}

impl UIAnnotationPattern {
    /// Queries the annotation's type id.
    pub fn get_type_id(&self) -> (r: Result<i32>)
        ensures
            r == spec_native((*self.state).type_id),
    {
        match &self.state.type_id {
            Ok(id) => Ok(*id),
            Err(ne) => Err(error_from_native(ne)),
        }
    }

    /// Queries the annotation's type name.
    pub fn get_type_nane(&self) -> (r: Result<String>)
        ensures
            r == spec_native((*self.state).name_of_type),
    {
        match &self.state.name_of_type {
            Ok(s) => Ok(s.clone()),
            Err(ne) => Err(error_from_native(ne)),
        }
    }

    /// Queries the annotation's author.
    pub fn get_author(&self) -> (r: Result<String>)
        ensures
            r == spec_native((*self.state).author),
    {
        match &self.state.author {
            Ok(s) => Ok(s.clone()),
            Err(ne) => Err(error_from_native(ne)),
        }
    }

    /// Queries the annotation's timestamp.
    pub fn get_datetime(&self) -> (r: Result<String>)
        ensures
            r == spec_native((*self.state).datetime),
    {
        match &self.state.datetime {
            Ok(s) => Ok(s.clone()),
            Err(ne) => Err(error_from_native(ne)),
        }
    }

    /// Queries the element the annotation refers to.
    pub fn get_target(&self) -> (r: Result<UIElement>)
        ensures
            r == spec_native((*self.state).target),
    {
        match &self.state.target {
            Ok(e) => Ok(e.clone()),
            Err(ne) => Err(error_from_native(ne)),
        }
    }

    /// The identity cast from an opaque capability reference.
    pub fn try_from(pattern: PatternRef) -> (r: Result<Self>)
        ensures
            ((*pattern.object) is Annotation) ==> (r matches Ok(w) && w.state
                == (*pattern.object)->Annotation_0),
            !((*pattern.object) is Annotation) ==> (r matches Err(e) && is_no_interface_error(e)),
    {
        match &*pattern.object {
            PatternState::Annotation(st) => Ok(UIAnnotationPattern { state: st.clone() }),
            _ => Err(no_interface_error()),
        }
    }

    /// Wraps an already-typed capability object.
    pub fn from(state: Rc<AnnotationState>) -> (r: Self)
        ensures
            r.state == state,
    {
        UIAnnotationPattern { state }
    }

    /// Hands the typed capability object back.
    pub fn into(self) -> (r: Rc<AnnotationState>)
        ensures
            r == self.state,
    {
        self.state
    }

    /// Borrows the typed capability object.
    pub fn as_ref(&self) -> (r: &Rc<AnnotationState>)
        ensures
            r == self.state,
    {
        &self.state
    }
}

impl IUIPattern for UIAnnotationPattern {
    open spec fn spec_pattern_id() -> i32 {
        UIA_ANNOTATION_PATTERN_ID
    }

    open spec fn spec_supports(p: PatternRef) -> bool {
        (*p.object) is Annotation
    }

    open spec fn spec_wrap(p: PatternRef) -> Self {
        UIAnnotationPattern { state: (*p.object)->Annotation_0 }
    }

    fn pattern_id() -> (r: i32) {
        UIA_ANNOTATION_PATTERN_ID
    }

    fn new(pattern: PatternRef) -> (r: Result<Self>) {
        UIAnnotationPattern::try_from(pattern)
    }
}

/// Wraps the CustomNavigation capability of one element.
pub struct UICustomNavigationPattern {
    pub state: Rc<CustomNavigationState>,
}

/// What `navigate` returns: the element related in the given direction, or
/// the failure the native layer reports when no such relation exists.
pub open spec fn spec_navigate(st: CustomNavigationState, direction: NavigateDirection) -> Result<
    UIElement,
> {
    match direction {
        NavigateDirection::Parent => spec_native(st.parent),
        NavigateDirection::NextSibling => spec_native(st.next_sibling),
        NavigateDirection::PreviousSibling => spec_native(st.previous_sibling),
        NavigateDirection::FirstChild => spec_native(st.first_child),
        NavigateDirection::LastChild => spec_native(st.last_child),
    }
}

impl UICustomNavigationPattern {
    /// Steps to the element related in the given direction.
    pub fn navigate(&self, direction: NavigateDirection) -> (r: Result<UIElement>)
        ensures
            r == spec_navigate(*self.state, direction),
    {
        let stored: &NativeResult<UIElement> = match direction {
            NavigateDirection::Parent => &self.state.parent,
            NavigateDirection::NextSibling => &self.state.next_sibling,
            NavigateDirection::PreviousSibling => &self.state.previous_sibling,
            NavigateDirection::FirstChild => &self.state.first_child,
            NavigateDirection::LastChild => &self.state.last_child,
        };
        match stored {
            Ok(e) => Ok(e.clone()),
            Err(ne) => Err(error_from_native(ne)),
        }
    }

    /// The identity cast from an opaque capability reference.
    pub fn try_from(pattern: PatternRef) -> (r: Result<Self>)
        ensures
            ((*pattern.object) is CustomNavigation) ==> (r matches Ok(w) && w.state
                == (*pattern.object)->CustomNavigation_0),
            !((*pattern.object) is CustomNavigation) ==> (r matches Err(e)
                && is_no_interface_error(e)),
    {
        match &*pattern.object {
            PatternState::CustomNavigation(st) => Ok(
                UICustomNavigationPattern { state: st.clone() },
            ),
            _ => Err(no_interface_error()),
        }
    }

    /// Wraps an already-typed capability object.
    pub fn from(state: Rc<CustomNavigationState>) -> (r: Self)
        ensures
            r.state == state,
    {
        UICustomNavigationPattern { state }
    }

    /// Hands the typed capability object back.
    pub fn into(self) -> (r: Rc<CustomNavigationState>)
        ensures
            r == self.state,
    {
        self.state
    }

    /// Borrows the typed capability object.
    pub fn as_ref(&self) -> (r: &Rc<CustomNavigationState>)
        ensures
            r == self.state,
    {
        &self.state
    }
}

impl IUIPattern for UICustomNavigationPattern {
    open spec fn spec_pattern_id() -> i32 {
        UIA_CUSTOM_NAVIGATION_PATTERN_ID
    }

    open spec fn spec_supports(p: PatternRef) -> bool {
        (*p.object) is CustomNavigation
    }

    open spec fn spec_wrap(p: PatternRef) -> Self {
        UICustomNavigationPattern { state: (*p.object)->CustomNavigation_0 }
    }

    fn pattern_id() -> (r: i32) {
        UIA_CUSTOM_NAVIGATION_PATTERN_ID
    }

    fn new(pattern: PatternRef) -> (r: Result<Self>) {
        UICustomNavigationPattern::try_from(pattern)
    }
}

/// Wraps the Dock capability of one element.
pub struct UIDockPattern {
    pub state: Rc<DockState>,
}

impl UIDockPattern {
    /// Queries the current dock position.
    pub fn get_dock_position(&self) -> (r: Result<DockPosition>)
        ensures
            r == spec_native((*self.state).position),
    {
        match &self.state.position {
            Ok(p) => Ok(*p),
            Err(ne) => Err(error_from_native(ne)),
        }
    }

    /// Asks the native layer to dock the element at the given position; the
    /// outcome is whatever the layer responds to the request.
    pub fn set_doc_position(&self, position: DockPosition) -> (r: Result<()>)
        ensures
            r == spec_native((*self.state).set_response),
    {
        let _ = position;
        match &self.state.set_response {
            Ok(_) => Ok(()),
            Err(ne) => Err(error_from_native(ne)),
        }
    }

    /// The identity cast from an opaque capability reference.
    pub fn try_from(pattern: PatternRef) -> (r: Result<Self>)
        ensures
            ((*pattern.object) is Dock) ==> (r matches Ok(w) && w.state
                == (*pattern.object)->Dock_0),
            !((*pattern.object) is Dock) ==> (r matches Err(e) && is_no_interface_error(e)),
    {
        match &*pattern.object {
            PatternState::Dock(st) => Ok(UIDockPattern { state: st.clone() }),
            _ => Err(no_interface_error()),
        }
    }

    /// Wraps an already-typed capability object.
    pub fn from(state: Rc<DockState>) -> (r: Self)
        ensures
            r.state == state,
    {
        UIDockPattern { state }
    }

    /// Hands the typed capability object back.
    pub fn into(self) -> (r: Rc<DockState>)
        ensures
            r == self.state,
    {
        self.state
    }

    /// Borrows the typed capability object.
    pub fn as_ref(&self) -> (r: &Rc<DockState>)
        ensures
            r == self.state,
    {
        &self.state
    }
}

impl IUIPattern for UIDockPattern {
    open spec fn spec_pattern_id() -> i32 {
        UIA_DOCK_PATTERN_ID
    }

    open spec fn spec_supports(p: PatternRef) -> bool {
        (*p.object) is Dock
    }

    open spec fn spec_wrap(p: PatternRef) -> Self {
        UIDockPattern { state: (*p.object)->Dock_0 }
    }

    fn pattern_id() -> (r: i32) {
        UIA_DOCK_PATTERN_ID
    }

    fn new(pattern: PatternRef) -> (r: Result<Self>) {
        UIDockPattern::try_from(pattern)
    }
}

/// Wraps the Drag capability of one element.
pub struct UIDragPattern {
    pub state: Rc<DragState>,
}

/// What fetching every entry of a native element collection yields: the
/// elements in order, or the first fetch failure — in which case the entries
/// already fetched are discarded, never a partial list.
pub open spec fn spec_collect_items(slots: Seq<NativeResult<UIElement>>) -> Result<Seq<UIElement>>
    decreases slots.len(),
{
    if slots.len() == 0 {
        Ok(Seq::empty())
    } else {
        match slots[0] {
            Err(ne) => Err(spec_from_native(ne)),
            Ok(e) => match spec_collect_items(slots.subrange(1, slots.len() as int)) {
                Ok(rest) => Ok(seq![e] + rest),
                Err(er) => Err(er),
            },
        }
    }
}

/// The fetch policy of a native element collection: a collection with no
/// entries collects to the empty list, not an error; one whose entries
/// `0..i` succeed and whose `i`-th fetch fails collects to exactly that
/// failure, the entries already fetched discarded; and one whose entries
/// all succeed collects to every element in order.
pub proof fn lemma_collect_scan(slots: Seq<NativeResult<UIElement>>, i: int)
    requires
        0 <= i <= slots.len(),
        forall|j: int| 0 <= j < i ==> slots[j] is Ok,
    ensures
        (i < slots.len() && slots[i] is Err) ==> spec_collect_items(slots) == Result::<
            Seq<UIElement>,
        >::Err(spec_from_native(slots[i]->Err_0)),
        i == slots.len() ==> (spec_collect_items(slots) matches Ok(es) && es.len() == slots.len()
            && (forall|k: int| 0 <= k < slots.len() ==> es[k] == slots[k]->Ok_0)),
        slots.len() == 0 ==> spec_collect_items(slots) == Result::<Seq<UIElement>>::Ok(
            Seq::<UIElement>::empty(),
        ),
    decreases slots.len(),
{
    if slots.len() > 0 && i > 0 {
        let tail = slots.subrange(1, slots.len() as int);
        lemma_collect_scan(tail, i - 1);
        assert(forall|k: int| 0 <= k < tail.len() ==> tail[k] == slots[k + 1]);
    }
}

/// What `get_grabbed_items` returns, given the drag object's state.
pub open spec fn grabbed_items_post(st: DragState, r: Result<Vec<UIElement>>) -> bool {
    match st.grabbed_items {
        Err(ne) => r == Result::<Vec<UIElement>>::Err(spec_from_native(ne)),
        Ok(arr) => match spec_collect_items(arr.slots@) {
            Ok(es) => r matches Ok(v) && v@ == es,
            Err(er) => r matches Err(e) && e == er,
        },
    }
}

impl UIDragPattern {
    /// Queries whether the element is currently grabbed.
    pub fn is_grabbed(&self) -> (r: Result<bool>)
        ensures
            r == spec_native((*self.state).grabbed),
    {
        match &self.state.grabbed {
            Ok(b) => Ok(*b),
            Err(ne) => Err(error_from_native(ne)),
        }
    }

    /// Queries the drop effect of the ongoing drag.
    pub fn get_drop_effect(&self) -> (r: Result<String>)
        ensures
            r == spec_native((*self.state).drop_effect),
    {
        match &self.state.drop_effect {
            Ok(s) => Ok(s.clone()),
            Err(ne) => Err(error_from_native(ne)),
        }
    }

    /// Materializes the grabbed elements eagerly: the native collection
    /// length is queried once and each index fetched in order.  A fetch
    /// failure partway aborts and surfaces the error; items already
    /// collected are discarded, not partially returned.
    pub fn get_grabbed_items(&self) -> (r: Result<Vec<UIElement>>)
        ensures
            grabbed_items_post(*self.state, r),
    {
        let arr = match &self.state.grabbed_items {
            Ok(a) => a,
            Err(ne) => {
                return Err(error_from_native(ne));
            },
        };
        let n = arr.slots.len();
        let mut items: Vec<UIElement> = Vec::new();
        let mut i: usize = 0;
        while i < n
            invariant
                0 <= i <= n,
                n == arr.slots@.len(),
                (*self.state).grabbed_items == NativeResult::<ElementArray>::Ok(*arr),
                forall|j: int| 0 <= j < i ==> arr.slots@[j] is Ok,
                items@.len() == i,
                forall|j: int| 0 <= j < i ==> items@[j] == arr.slots@[j]->Ok_0,
            decreases n - i,
        {
            match &arr.slots[i] {
                Ok(e) => {
                    items.push(e.clone());
                },
                Err(ne) => {
                    proof {
                        lemma_collect_scan(arr.slots@, i as int);
                    }
                    return Err(error_from_native(ne));
                },
            }
            i = i + 1;
        }
        proof {
            lemma_collect_scan(arr.slots@, n as int);
            assert(items@ =~= spec_collect_items(arr.slots@)->Ok_0);
        }
        Ok(items)
    }

    /// The identity cast from an opaque capability reference.
    pub fn try_from(pattern: PatternRef) -> (r: Result<Self>)
        ensures
            ((*pattern.object) is Drag) ==> (r matches Ok(w) && w.state
                == (*pattern.object)->Drag_0),
            !((*pattern.object) is Drag) ==> (r matches Err(e) && is_no_interface_error(e)),
    {
        match &*pattern.object {
            PatternState::Drag(st) => Ok(UIDragPattern { state: st.clone() }),
            _ => Err(no_interface_error()),
        }
    }

    /// Wraps an already-typed capability object.
    pub fn from(state: Rc<DragState>) -> (r: Self)
        ensures
            r.state == state,
    {
        UIDragPattern { state }
    }

    /// Hands the typed capability object back.
    pub fn into(self) -> (r: Rc<DragState>)
        ensures
            r == self.state,
    {
        self.state
    }

    /// Borrows the typed capability object.
    pub fn as_ref(&self) -> (r: &Rc<DragState>)
        ensures
            r == self.state,
    {
        &self.state
    }
}

impl IUIPattern for UIDragPattern {
    open spec fn spec_pattern_id() -> i32 {
        UIA_DRAG_PATTERN_ID
    }

    open spec fn spec_supports(p: PatternRef) -> bool {
        (*p.object) is Drag
    }

    open spec fn spec_wrap(p: PatternRef) -> Self {
        UIDragPattern { state: (*p.object)->Drag_0 }
    }

    fn pattern_id() -> (r: i32) {
        UIA_DRAG_PATTERN_ID
    }

    fn new(pattern: PatternRef) -> (r: Result<Self>) {
        UIDragPattern::try_from(pattern)
    }
}

/// Wraps the DropTarget capability of one element.
pub struct UIDropTargetPattern {
    pub state: Rc<DropTargetState>,
}

impl UIDropTargetPattern {
    /// Queries the effect a drop on this element would have.
    pub fn get_drop_target_effect(&self) -> (r: Result<String>)
        ensures
            r == spec_native((*self.state).drop_target_effect),
    {
        match &self.state.drop_target_effect {
            Ok(s) => Ok(s.clone()),
            Err(ne) => Err(error_from_native(ne)),
        }
    }

    /// The identity cast from an opaque capability reference.
    pub fn try_from(pattern: PatternRef) -> (r: Result<Self>)
        ensures
            ((*pattern.object) is DropTarget) ==> (r matches Ok(w) && w.state
                == (*pattern.object)->DropTarget_0),
            !((*pattern.object) is DropTarget) ==> (r matches Err(e) && is_no_interface_error(e)),
    {
        match &*pattern.object {
            PatternState::DropTarget(st) => Ok(UIDropTargetPattern { state: st.clone() }),
            _ => Err(no_interface_error()),
        }
    }

    /// Wraps an already-typed capability object.
    pub fn from(state: Rc<DropTargetState>) -> (r: Self)
        ensures
            r.state == state,
    {
        UIDropTargetPattern { state }
    }

    /// Hands the typed capability object back.
    pub fn into(self) -> (r: Rc<DropTargetState>)
        ensures
            r == self.state,
    {
        self.state
    }

    /// Borrows the typed capability object.
    pub fn as_ref(&self) -> (r: &Rc<DropTargetState>)
        ensures
            r == self.state,
    {
        &self.state
    }
}

impl IUIPattern for UIDropTargetPattern {
    open spec fn spec_pattern_id() -> i32 {
        UIA_DROP_TARGET_PATTERN_ID
    }

    open spec fn spec_supports(p: PatternRef) -> bool {
        (*p.object) is DropTarget
    }

    open spec fn spec_wrap(p: PatternRef) -> Self {
        UIDropTargetPattern { state: (*p.object)->DropTarget_0 }
    }

    fn pattern_id() -> (r: i32) {
        UIA_DROP_TARGET_PATTERN_ID
    }

    fn new(pattern: PatternRef) -> (r: Result<Self>) {
        UIDropTargetPattern::try_from(pattern)
    }
}


/// Wraps the SelectionItem capability of one element.
pub struct UISelectionItemPattern {
    pub state: Rc<SelectionItemState>,
}

impl UISelectionItemPattern {
    /// Selects the element, deselecting any other selected sibling.
    pub fn select(&self) -> (r: Result<()>)
        ensures
            r == spec_native((*self.state).select_response),
    {
        match &self.state.select_response {
            Ok(_) => Ok(()),
            Err(ne) => Err(error_from_native(ne)),
        }
    }

    /// Adds the element to the current selection.
    pub fn add_to_selection(&self) -> (r: Result<()>)
        ensures
            r == spec_native((*self.state).add_response),
    {
        match &self.state.add_response {
            Ok(_) => Ok(()),
            Err(ne) => Err(error_from_native(ne)),
        }
    }

    /// Removes the element from the current selection.
    pub fn remove_from_selection(&self) -> (r: Result<()>)
        ensures
            r == spec_native((*self.state).remove_response),
    {
        match &self.state.remove_response {
            Ok(_) => Ok(()),
            Err(ne) => Err(error_from_native(ne)),
        }
    }

    /// Queries whether the element is selected.
    pub fn is_selected(&self) -> (r: Result<bool>)
        ensures
            r == spec_native((*self.state).selected),
    {
        match &self.state.selected {
            Ok(b) => Ok(*b),
            Err(ne) => Err(error_from_native(ne)),
        }
    }

    /// The identity cast from an opaque capability reference.
    pub fn try_from(pattern: PatternRef) -> (r: Result<Self>)
        ensures
            ((*pattern.object) is SelectionItem) ==> (r matches Ok(w) && w.state
                == (*pattern.object)->SelectionItem_0),
            !((*pattern.object) is SelectionItem) ==> (r matches Err(e) && is_no_interface_error(e)),
    {
        match &*pattern.object {
            PatternState::SelectionItem(st) => Ok(UISelectionItemPattern { state: st.clone() }),
            _ => Err(no_interface_error()),
        }
    }

    /// Wraps an already-typed capability object.
    pub fn from(state: Rc<SelectionItemState>) -> (r: Self)
        ensures
            r.state == state,
    {
        UISelectionItemPattern { state }
    }

    /// Hands the typed capability object back.
    pub fn into(self) -> (r: Rc<SelectionItemState>)
        ensures
            r == self.state,
    {
        self.state
    }

    /// Borrows the typed capability object.
    pub fn as_ref(&self) -> (r: &Rc<SelectionItemState>)
        ensures
            r == self.state,
    {
        &self.state
    }
}

impl IUIPattern for UISelectionItemPattern {
    open spec fn spec_pattern_id() -> i32 {
        UIA_SELECTION_ITEM_PATTERN_ID
    }

    open spec fn spec_supports(p: PatternRef) -> bool {
        (*p.object) is SelectionItem
    }

    open spec fn spec_wrap(p: PatternRef) -> Self {
        UISelectionItemPattern { state: (*p.object)->SelectionItem_0 }
    }

    fn pattern_id() -> (r: i32) {
        UIA_SELECTION_ITEM_PATTERN_ID
    }

    fn new(pattern: PatternRef) -> (r: Result<Self>) {
        UISelectionItemPattern::try_from(pattern)
    }
}

/// Wraps the ScrollItem capability of one element.
pub struct UIScrollItemPattern {
    pub state: Rc<ScrollItemState>,
}

impl UIScrollItemPattern {
    /// Scrolls the element into the visible region of its container.
    pub fn scroll_into_view(&self) -> (r: Result<()>)
        ensures
            r == spec_native((*self.state).scroll_response),
    {
        match &self.state.scroll_response {
            Ok(_) => Ok(()),
            Err(ne) => Err(error_from_native(ne)),
        }
    }

    /// The identity cast from an opaque capability reference.
    pub fn try_from(pattern: PatternRef) -> (r: Result<Self>)
        ensures
            ((*pattern.object) is ScrollItem) ==> (r matches Ok(w) && w.state
                == (*pattern.object)->ScrollItem_0),
            !((*pattern.object) is ScrollItem) ==> (r matches Err(e) && is_no_interface_error(e)),
    {
        match &*pattern.object {
            PatternState::ScrollItem(st) => Ok(UIScrollItemPattern { state: st.clone() }),
            _ => Err(no_interface_error()),
        }
    }

    /// Wraps an already-typed capability object.
    pub fn from(state: Rc<ScrollItemState>) -> (r: Self)
        ensures
            r.state == state,
    {
        UIScrollItemPattern { state }
    }

    /// Hands the typed capability object back.
    pub fn into(self) -> (r: Rc<ScrollItemState>)
        ensures
            r == self.state,
    {
        self.state
    }

    /// Borrows the typed capability object.
    pub fn as_ref(&self) -> (r: &Rc<ScrollItemState>)
        ensures
            r == self.state,
    {
        &self.state
    }
}

impl IUIPattern for UIScrollItemPattern {
    open spec fn spec_pattern_id() -> i32 {
        UIA_SCROLL_ITEM_PATTERN_ID
    }

    open spec fn spec_supports(p: PatternRef) -> bool {
        (*p.object) is ScrollItem
    }

    open spec fn spec_wrap(p: PatternRef) -> Self {
        UIScrollItemPattern { state: (*p.object)->ScrollItem_0 }
    }

    fn pattern_id() -> (r: i32) {
        UIA_SCROLL_ITEM_PATTERN_ID
    }

    fn new(pattern: PatternRef) -> (r: Result<Self>) {
        UIScrollItemPattern::try_from(pattern)
    }
}

/// Wraps the MultipleView capability of one element.
pub struct UIMultipleViewPattern {
    pub state: Rc<MultipleViewState>,
}

/// Looks up the name the native layer holds for a view id.
fn lookup_name(names: &Vec<(i32, String)>, view: i32) -> (r: Option<&String>)
    ensures
        match spec_assoc(names@, view) {
            Some(s) => r matches Some(x) && x == s,
            None => r is None,
        },
{
    let n = names.len();
    let mut i: usize = 0;
    while i < n
        invariant
            0 <= i <= n,
            n == names@.len(),
            forall|j: int| 0 <= j < i ==> names@[j].0 != view,
        decreases n - i,
    {
        if names[i].0 == view {
            proof {
                lemma_assoc_scan(names@, view, i as int);
            }
            return Some(&names[i].1);
        }
        i = i + 1;
    }
    proof {
        lemma_assoc_scan(names@, view, n as int);
    }
    None
}

impl UIMultipleViewPattern {
    /// Enumerates the view ids the element supports.
    pub fn get_supported_views(&self) -> (r: Result<Vec<i32>>)
        ensures
            match (*self.state).views {
                Ok(vs) => r matches Ok(v) && v@ == vs@,
                Err(ne) => r == Result::<Vec<i32>>::Err(spec_from_native(ne)),
            },
    {
        match &self.state.views {
            Ok(vs) => {
                let n = vs.len();
                let mut out: Vec<i32> = Vec::new();
                let mut i: usize = 0;
                while i < n
                    invariant
                        0 <= i <= n,
                        n == vs@.len(),
                        out@.len() == i,
                        forall|j: int| 0 <= j < i ==> out@[j] == vs@[j],
                    decreases n - i,
                {
                    out.push(vs[i]);
                    i = i + 1;
                }
                proof {
                    assert(out@ =~= vs@);
                }
                Ok(out)
            },
            Err(ne) => Err(error_from_native(ne)),
        }
    }

    /// Queries the name of one supported view; a view the native layer does
    /// not know is refused with an invalid-parameter status.
    pub fn get_view_name(&self, view: i32) -> (r: Result<String>)
        ensures
            match spec_assoc((*self.state).names@, view) {
                Some(s) => r == Result::<String>::Ok(s),
                None => r matches Err(e) && is_unknown_view_error(e),
            },
    {
        match lookup_name(&self.state.names, view) {
            Some(s) => Ok(s.clone()),
            None => Err(unknown_view_error()),
        }
    }

    /// Queries the id of the current view.
    pub fn get_current_view(&self) -> (r: Result<i32>)
        ensures
            r == spec_native((*self.state).current),
    {
        match &self.state.current {
            Ok(v) => Ok(*v),
            Err(ne) => Err(error_from_native(ne)),
        }
    }

    /// Asks the native layer to switch to the given view: a view it does
    /// not know is refused with an invalid-parameter status, and for a known
    /// view the outcome is whatever the layer responds.
    pub fn set_current_view(&self, view: i32) -> (r: Result<()>)
        ensures
            match spec_assoc((*self.state).names@, view) {
                Some(_) => r == spec_native((*self.state).set_response),
                None => r matches Err(e) && is_unknown_view_error(e),
            },
    {
        match lookup_name(&self.state.names, view) {
            Some(_) => match &self.state.set_response {
                Ok(_) => Ok(()),
                Err(ne) => Err(error_from_native(ne)),
            },
            None => Err(unknown_view_error()),
        }
    }

    /// The identity cast from an opaque capability reference.
    pub fn try_from(pattern: PatternRef) -> (r: Result<Self>)
        ensures
            ((*pattern.object) is MultipleView) ==> (r matches Ok(w) && w.state
                == (*pattern.object)->MultipleView_0),
            !((*pattern.object) is MultipleView) ==> (r matches Err(e) && is_no_interface_error(e)),
    {
        match &*pattern.object {
            PatternState::MultipleView(st) => Ok(UIMultipleViewPattern { state: st.clone() }),
            _ => Err(no_interface_error()),
        }
    }

    /// Wraps an already-typed capability object.
    pub fn from(state: Rc<MultipleViewState>) -> (r: Self)
        ensures
            r.state == state,
    {
        UIMultipleViewPattern { state }
    }

    /// Hands the typed capability object back.
    pub fn into(self) -> (r: Rc<MultipleViewState>)
        ensures
            r == self.state,
    {
        self.state
    }

    /// Borrows the typed capability object.
    pub fn as_ref(&self) -> (r: &Rc<MultipleViewState>)
        ensures
            r == self.state,
    {
        &self.state
    }
}

impl IUIPattern for UIMultipleViewPattern {
    open spec fn spec_pattern_id() -> i32 {
        UIA_MULTIPLE_VIEW_PATTERN_ID
    }

    open spec fn spec_supports(p: PatternRef) -> bool {
        (*p.object) is MultipleView
    }

    open spec fn spec_wrap(p: PatternRef) -> Self {
        UIMultipleViewPattern { state: (*p.object)->MultipleView_0 }
    }

    fn pattern_id() -> (r: i32) {
        UIA_MULTIPLE_VIEW_PATTERN_ID
    }

    fn new(pattern: PatternRef) -> (r: Result<Self>) {
        UIMultipleViewPattern::try_from(pattern)
    }
}

/// Wraps the ItemContainer capability of one element.
pub struct UIItemContainerPattern {
    pub state: Rc<ItemContainerState>,
}

/// Whether a container item carries the sought value under the sought
/// property id.
pub open spec fn spec_item_matches(it: ContainerItem, property_id: i32, v: Value) -> bool {
    match spec_assoc(it.properties@, property_id) {
        Some(w) => spec_value_eq(w, v),
        None => false,
    }
}

/// The first item at or past `from` matching the property value, if any.
pub open spec fn spec_find_from(
    items: Seq<ContainerItem>,
    from: int,
    property_id: i32,
    v: Value,
) -> Option<UIElement>
    decreases items.len() - from when 0 <= from
{
    if from >= items.len() {
        None
    } else if spec_item_matches(items[from], property_id, v) {
        Some(items[from].element)
    } else {
        spec_find_from(items, from + 1, property_id, v)
    }
}

/// The first index at or past `from` whose element has the given identity,
/// if any.
pub open spec fn spec_rid_index(items: Seq<ContainerItem>, rid: u64, from: int) -> Option<int>
    decreases items.len() - from when 0 <= from
{
    if from >= items.len() {
        None
    } else if (*items[from].element.object).runtime_id == rid {
        Some(from)
    } else {
        spec_rid_index(items, rid, from + 1)
    }
}

/// Where a search that starts after the given element begins: right past
/// the first item with that identity, or at the start when the container
/// holds no such item.
pub open spec fn spec_search_start(items: Seq<ContainerItem>, rid: u64) -> int {
    match spec_rid_index(items, rid, 0) {
        Some(i) => i + 1,
        None => 0,
    }
}

/// What `find_item_by_property` returns: the first item past the given
/// start element that carries the value under the property id, if any.
pub open spec fn spec_find_item(
    st: ItemContainerState,
    rid: u64,
    property_id: i32,
    v: Value,
) -> Option<UIElement> {
    spec_find_from(st.items@, spec_search_start(st.items@, rid), property_id, v)
}

/// An identity scan that saw no match before `i` finds `i` when it matches,
/// and nothing when it ran out.
proof fn lemma_rid_scan(items: Seq<ContainerItem>, rid: u64, from: int, i: int)
    requires
        0 <= from <= i <= items.len(),
        forall|j: int| from <= j < i ==> (*items[j].element.object).runtime_id != rid,
    ensures
        (i < items.len() && (*items[i].element.object).runtime_id == rid) ==> spec_rid_index(
            items,
            rid,
            from,
        ) == Some(i),
        i == items.len() ==> spec_rid_index(items, rid, from) is None,
    decreases i - from,
{
    if from < i {
        lemma_rid_scan(items, rid, from + 1, i);
    }
}

/// A match scan that saw no match before `i` finds `i`'s element when it
/// matches, and nothing when it ran out.
proof fn lemma_find_scan(
    items: Seq<ContainerItem>,
    property_id: i32,
    v: Value,
    from: int,
    i: int,
)
    requires
        0 <= from <= i <= items.len(),
        forall|j: int| from <= j < i ==> !spec_item_matches(items[j], property_id, v),
    ensures
        (i < items.len() && spec_item_matches(items[i], property_id, v)) ==> spec_find_from(
            items,
            from,
            property_id,
            v,
        ) == Some(items[i].element),
        i == items.len() ==> spec_find_from(items, from, property_id, v) is None,
    decreases i - from,
{
    if from < i {
        lemma_find_scan(items, property_id, v, from + 1, i);
    }
}

/// Whether the item carries the sought value under the sought property id.
fn item_matches(it: &ContainerItem, property_id: i32, value: &Value) -> (r: bool)
    ensures
        r == spec_item_matches(*it, property_id, *value),
{
    let props = &it.properties;
    let n = props.len();
    let mut i: usize = 0;
    while i < n
        invariant
            0 <= i <= n,
            n == props@.len(),
            props@ == it.properties@,
            forall|j: int| 0 <= j < i ==> props@[j].0 != property_id,
        decreases n - i,
    {
        if props[i].0 == property_id {
            let hit = props[i].1.eq(value);
            proof {
                lemma_assoc_scan(props@, property_id, i as int);
            }
            return hit;
        }
        i = i + 1;
    }
    proof {
        lemma_assoc_scan(props@, property_id, n as int);
    }
    false
}

/// The position of the first item with the given identity, if any.
fn rid_position(items: &Vec<ContainerItem>, rid: u64) -> (r: Option<usize>)
    ensures
        match spec_rid_index(items@, rid, 0) {
            Some(k) => r matches Some(u) && u as int == k,
            None => r is None,
        },
        r matches Some(u) ==> (u as int) < items@.len(),
{
    let n = items.len();
    let mut i: usize = 0;
    while i < n
        invariant
            0 <= i <= n,
            n == items@.len(),
            forall|j: int| 0 <= j < i ==> (*items@[j].element.object).runtime_id != rid,
        decreases n - i,
    {
        if items[i].element.runtime_id() == rid {
            proof {
                lemma_rid_scan(items@, rid, 0, i as int);
            }
            return Some(i);
        }
        i = i + 1;
    }
    proof {
        lemma_rid_scan(items@, rid, 0, n as int);
    }
    None
}

impl UIItemContainerPattern {
    /// Finds the first item past `start_after` that carries `value` under
    /// `property_id`; the search fails with a not-found error when no item
    /// past that point matches.
    pub fn find_item_by_property(
        &self,
        start_after: UIElement,
        property_id: i32,
        value: Variant,
    ) -> (r: Result<UIElement>)
        ensures
            match spec_find_item(
                *self.state,
                (*start_after.object).runtime_id,
                property_id,
                value.value,
            ) {
                Some(e) => r == Result::<UIElement>::Ok(e),
                None => r matches Err(er) && is_item_not_found_error(er),
            },
    {
        let items = &self.state.items;
        let n = items.len();
        let rid = start_after.runtime_id();
        let begin: usize = match rid_position(items, rid) {
            Some(k) => k + 1,
            None => 0,
        };
        proof {
            assert(begin as int == spec_search_start(items@, rid));
        }
        let mut j: usize = begin;
        while j < n
            invariant
                begin <= j <= n,
                n == items@.len(),
                rid == (*start_after.object).runtime_id,
                begin as int == spec_search_start((*self.state).items@, rid),
                items@ == (*self.state).items@,
                forall|k: int| begin <= k < j ==> !spec_item_matches(
                    items@[k],
                    property_id,
                    value.value,
                ),
            decreases n - j,
        {
            if item_matches(&items[j], property_id, &value.value) {
                proof {
                    lemma_find_scan(items@, property_id, value.value, begin as int, j as int);
                }
                return Ok(items[j].element.clone());
            }
            j = j + 1;
        }
        proof {
            lemma_find_scan(items@, property_id, value.value, begin as int, n as int);
        }
        Err(item_not_found_error())
    }

    /// The identity cast from an opaque capability reference.
    pub fn try_from(pattern: PatternRef) -> (r: Result<Self>)
        ensures
            ((*pattern.object) is ItemContainer) ==> (r matches Ok(w) && w.state
                == (*pattern.object)->ItemContainer_0),
            !((*pattern.object) is ItemContainer) ==> (r matches Err(e) && is_no_interface_error(e)),
    {
        match &*pattern.object {
            PatternState::ItemContainer(st) => Ok(UIItemContainerPattern { state: st.clone() }),
            _ => Err(no_interface_error()),
        }
    }

    /// Wraps an already-typed capability object.
    pub fn from(state: Rc<ItemContainerState>) -> (r: Self)
        ensures
            r.state == state,
    {
        UIItemContainerPattern { state }
    }

    /// Hands the typed capability object back.
    pub fn into(self) -> (r: Rc<ItemContainerState>)
        ensures
            r == self.state,
    {
        self.state
    }

    /// Borrows the typed capability object.
    pub fn as_ref(&self) -> (r: &Rc<ItemContainerState>)
        ensures
            r == self.state,
    {
        &self.state
    }
}

impl IUIPattern for UIItemContainerPattern {
    open spec fn spec_pattern_id() -> i32 {
        UIA_ITEM_CONTAINER_PATTERN_ID
    }

    open spec fn spec_supports(p: PatternRef) -> bool {
        (*p.object) is ItemContainer
    }

    open spec fn spec_wrap(p: PatternRef) -> Self {
        UIItemContainerPattern { state: (*p.object)->ItemContainer_0 }
    }

    fn pattern_id() -> (r: i32) {
        UIA_ITEM_CONTAINER_PATTERN_ID
    }

    fn new(pattern: PatternRef) -> (r: Result<Self>) {
        UIItemContainerPattern::try_from(pattern)
    }
}

/// Wraps the Window capability of one element.
pub struct UIWindowPattern {
    pub state: Rc<WindowState>,
}

/// Whether the window is in the given visual state, as a native response:
/// the comparison is by value on the state the native layer reports.
pub open spec fn spec_visual_state_is(st: WindowState, which: WindowVisualState) -> Result<bool> {
    match st.visual_state {
        Ok(s) => Ok(s == which),
        Err(ne) => Err(spec_from_native(ne)),
    }
}

impl UIWindowPattern {
    /// Asks the window to close; the outcome is the native response.
    pub fn close(&self) -> (r: Result<()>)
        ensures
            r == spec_native((*self.state).close_response),
    {
        match &self.state.close_response {
            Ok(_) => Ok(()),
            Err(ne) => Err(error_from_native(ne)),
        }
    }

    /// Waits until the window's input is idle or the given number of
    /// milliseconds has passed; whether it became idle is the native
    /// response.
    pub fn wait_for_input_idle(&self, milliseconds: i32) -> (r: Result<bool>)
        ensures
            r == spec_native((*self.state).wait_idle),
    {
        let _ = milliseconds;
        match &self.state.wait_idle {
            Ok(b) => Ok(*b),
            Err(ne) => Err(error_from_native(ne)),
        }
    }

    /// Queries the window's visual state.
    pub fn get_window_visual_state(&self) -> (r: Result<WindowVisualState>)
        ensures
            r == spec_native((*self.state).visual_state),
    {
        match &self.state.visual_state {
            Ok(s) => Ok(*s),
            Err(ne) => Err(error_from_native(ne)),
        }
    }

    /// Asks the native layer to put the window into the given visual state;
    /// the outcome is whatever the layer responds to the request.
    pub fn set_window_visual_state(&self, state: WindowVisualState) -> (r: Result<()>)
        ensures
            r == spec_native((*self.state).set_visual_response),
    {
        let _ = state;
        match &self.state.set_visual_response {
            Ok(_) => Ok(()),
            Err(ne) => Err(error_from_native(ne)),
        }
    }

    /// Whether the window is in the normal visual state.
    pub fn is_normal(&self) -> (r: Result<bool>)
        ensures
            r == spec_visual_state_is(*self.state, WindowVisualState::Normal),
    {
        match self.get_window_visual_state() {
            Ok(s) => Ok(s == WindowVisualState::Normal),
            Err(e) => Err(e),
        }
    }

    /// Puts the window into the normal visual state.
    pub fn normal(&self) -> (r: Result<()>)
        ensures
            r == spec_native((*self.state).set_visual_response),
    {
        self.set_window_visual_state(WindowVisualState::Normal)
    }

    /// Whether the window can be maximized.
    pub fn can_maximize(&self) -> (r: Result<bool>)
        ensures
            r == spec_native((*self.state).can_maximize),
    {
        match &self.state.can_maximize {
            Ok(b) => Ok(*b),
            Err(ne) => Err(error_from_native(ne)),
        }
    }

    /// Whether the window is maximized.
    pub fn is_maximized(&self) -> (r: Result<bool>)
        ensures
            r == spec_visual_state_is(*self.state, WindowVisualState::Maximized),
    {
        match self.get_window_visual_state() {
            Ok(s) => Ok(s == WindowVisualState::Maximized),
            Err(e) => Err(e),
        }
    }

    /// Maximizes the window.
    pub fn maximize(&self) -> (r: Result<()>)
        ensures
            r == spec_native((*self.state).set_visual_response),
    {
        self.set_window_visual_state(WindowVisualState::Maximized)
    }

    /// Whether the window can be minimized.
    pub fn can_minimize(&self) -> (r: Result<bool>)
        ensures
            r == spec_native((*self.state).can_minimize),
    {
        match &self.state.can_minimize {
            Ok(b) => Ok(*b),
            Err(ne) => Err(error_from_native(ne)),
        }
    }

    /// Whether the window is minimized.
    pub fn is_minimized(&self) -> (r: Result<bool>)
        ensures
            r == spec_visual_state_is(*self.state, WindowVisualState::Minimized),
    {
        match self.get_window_visual_state() {
            Ok(s) => Ok(s == WindowVisualState::Minimized),
            Err(e) => Err(e),
        }
    }

    /// Minimizes the window.
    pub fn minimize(&self) -> (r: Result<()>)
        ensures
            r == spec_native((*self.state).set_visual_response),
    {
        self.set_window_visual_state(WindowVisualState::Minimized)
    }

    /// Whether the window is modal.
    pub fn is_modal(&self) -> (r: Result<bool>)
        ensures
            r == spec_native((*self.state).is_modal),
    {
        match &self.state.is_modal {
            Ok(b) => Ok(*b),
            Err(ne) => Err(error_from_native(ne)),
        }
    }

    /// Whether the window is topmost.
    pub fn is_topmost(&self) -> (r: Result<bool>)
        ensures
            r == spec_native((*self.state).is_topmost),
    {
        match &self.state.is_topmost {
            Ok(b) => Ok(*b),
            Err(ne) => Err(error_from_native(ne)),
        }
    }

    /// Queries the window's interaction state.
    pub fn get_window_interaction_state(&self) -> (r: Result<WindowInteractionState>)
        ensures
            r == spec_native((*self.state).interaction_state),
    {
        match &self.state.interaction_state {
            Ok(s) => Ok(*s),
            Err(ne) => Err(error_from_native(ne)),
        }
    }

    /// The identity cast from an opaque capability reference.
    pub fn try_from(pattern: PatternRef) -> (r: Result<Self>)
        ensures
            ((*pattern.object) is Window) ==> (r matches Ok(w) && w.state
                == (*pattern.object)->Window_0),
            !((*pattern.object) is Window) ==> (r matches Err(e) && is_no_interface_error(e)),
    {
        match &*pattern.object {
            PatternState::Window(st) => Ok(UIWindowPattern { state: st.clone() }),
            _ => Err(no_interface_error()),
        }
    }

    /// Wraps an already-typed capability object.
    pub fn from(state: Rc<WindowState>) -> (r: Self)
        ensures
            r.state == state,
    {
        UIWindowPattern { state }
    }

    /// Hands the typed capability object back.
    pub fn into(self) -> (r: Rc<WindowState>)
        ensures
            r == self.state,
    {
        self.state
    }

    /// Borrows the typed capability object.
    pub fn as_ref(&self) -> (r: &Rc<WindowState>)
        ensures
            r == self.state,
    {
        &self.state
    }
}

impl IUIPattern for UIWindowPattern {
    open spec fn spec_pattern_id() -> i32 {
        UIA_WINDOW_PATTERN_ID
    }

    open spec fn spec_supports(p: PatternRef) -> bool {
        (*p.object) is Window
    }

    open spec fn spec_wrap(p: PatternRef) -> Self {
        UIWindowPattern { state: (*p.object)->Window_0 }
    }

    fn pattern_id() -> (r: i32) {
        UIA_WINDOW_PATTERN_ID
    }

    fn new(pattern: PatternRef) -> (r: Result<Self>) {
        UIWindowPattern::try_from(pattern)
    }
}

/// Wraps the Transform capability of one element, as far as its surface is
/// free of floating-point quantities: the capability probes that must be
/// checked before attempting the corresponding mutator — the mutators do not
/// self-guard — and the stepwise zoom.
pub struct UITransformPattern {
    pub state: Rc<TransformState>,
}

impl UITransformPattern {
    /// Whether the element can be moved.
    pub fn can_move(&self) -> (r: Result<bool>)
        ensures
            r == spec_native((*self.state).can_move),
    {
        match &self.state.can_move {
            Ok(b) => Ok(*b),
            Err(ne) => Err(error_from_native(ne)),
        }
    }

    /// Whether the element can be resized.
    pub fn can_resize(&self) -> (r: Result<bool>)
        ensures
            r == spec_native((*self.state).can_resize),
    {
        match &self.state.can_resize {
            Ok(b) => Ok(*b),
            Err(ne) => Err(error_from_native(ne)),
        }
    }

    /// Whether the element can be rotated.
    pub fn can_rotate(&self) -> (r: Result<bool>)
        ensures
            r == spec_native((*self.state).can_rotate),
    {
        match &self.state.can_rotate {
            Ok(b) => Ok(*b),
            Err(ne) => Err(error_from_native(ne)),
        }
    }

    /// Whether the element's zoom level can be changed.
    pub fn can_zoom(&self) -> (r: Result<bool>)
        ensures
            r == spec_native((*self.state).can_zoom),
    {
        match &self.state.can_zoom {
            Ok(b) => Ok(*b),
            Err(ne) => Err(error_from_native(ne)),
        }
    }

    /// Asks the native layer to zoom the element by the given step; the
    /// outcome is whatever the layer responds to the request.
    pub fn zoom_by_unit(&self, zoom_unit: ZoomUnit) -> (r: Result<()>)
        ensures
            r == spec_native((*self.state).zoom_by_unit_response),
    {
        let _ = zoom_unit;
        match &self.state.zoom_by_unit_response {
            Ok(_) => Ok(()),
            Err(ne) => Err(error_from_native(ne)),
        }
    }

    /// The identity cast from an opaque capability reference.
    pub fn try_from(pattern: PatternRef) -> (r: Result<Self>)
        ensures
            ((*pattern.object) is Transform) ==> (r matches Ok(w) && w.state
                == (*pattern.object)->Transform_0),
            !((*pattern.object) is Transform) ==> (r matches Err(e) && is_no_interface_error(e)),
    {
        match &*pattern.object {
            PatternState::Transform(st) => Ok(UITransformPattern { state: st.clone() }),
            _ => Err(no_interface_error()),
        }
    }

    /// Wraps an already-typed capability object.
    pub fn from(state: Rc<TransformState>) -> (r: Self)
        ensures
            r.state == state,
    {
        UITransformPattern { state }
    }

    /// Hands the typed capability object back.
    pub fn into(self) -> (r: Rc<TransformState>)
        ensures
            r == self.state,
    {
        self.state
    }

    /// Borrows the typed capability object.
    pub fn as_ref(&self) -> (r: &Rc<TransformState>)
        ensures
            r == self.state,
    {
        &self.state
    }
}

impl IUIPattern for UITransformPattern {
    open spec fn spec_pattern_id() -> i32 {
        UIA_TRANSFORM_PATTERN_ID
    }

    open spec fn spec_supports(p: PatternRef) -> bool {
        (*p.object) is Transform
    }

    open spec fn spec_wrap(p: PatternRef) -> Self {
        UITransformPattern { state: (*p.object)->Transform_0 }
    }

    fn pattern_id() -> (r: i32) {
        UIA_TRANSFORM_PATTERN_ID
    }

    fn new(pattern: PatternRef) -> (r: Result<Self>) {
        UITransformPattern::try_from(pattern)
    }
}

} // verus!
