//! The render handler object.
use vstd::prelude::*;

use crate::ref_count::RefCount;

verus! {

/// The slots of CEF's `cef_render_handler_t` table, each filled or empty.
#[derive(Debug, Clone, Copy, PartialEq, Eq)]
pub struct RenderHandlerCallbacks {
    pub get_accessibility_handler: bool,
    pub get_root_screen_rect: bool,
    pub get_view_rect: bool,
    pub get_screen_point: bool,
    pub get_screen_info: bool,
    pub on_popup_show: bool,
    pub on_popup_size: bool,
    pub on_paint: bool,
    pub on_accelerated_paint: bool,
    pub start_dragging: bool,
    pub update_drag_cursor: bool,
    pub on_scroll_offset_changed: bool,
    pub on_ime_composition_range_changed: bool,
    pub on_text_selection_changed: bool,
    pub on_virtual_keyboard_requested: bool,
}

impl RenderHandlerCallbacks {
    /// The slots that this object fills: the others stay empty.
    pub open spec fn installed() -> RenderHandlerCallbacks {
        RenderHandlerCallbacks {
            get_accessibility_handler: false,
            get_root_screen_rect: false,
            get_view_rect: false,
            get_screen_point: false,
            get_screen_info: false,
            on_popup_show: false,
            on_popup_size: false,
            on_paint: false,
            on_accelerated_paint: false,
            start_dragging: false,
            update_drag_cursor: false,
            on_scroll_offset_changed: false,
            on_ime_composition_range_changed: false,
            on_text_selection_changed: false,
            on_virtual_keyboard_requested: true,
        }
    }
}

/// The render handler, told when a virtual keyboard is asked for.
#[derive(Debug)]
pub struct RenderHandler {
    pub callbacks: RenderHandlerCallbacks,
    /// Whether the link back to the owning `Handler` is set.
    pub linked: bool,
    pub ref_count: RefCount,
}

impl RenderHandler {
    /// The object as `allocate` makes it, with the back-link set or not.
    pub open spec fn fresh(linked: bool) -> RenderHandler {
        RenderHandler { callbacks: RenderHandlerCallbacks::installed(), linked, ref_count: RefCount { count: 1 } }
    }

    /// A new render handler: the slots above are filled, the back-link is
    /// unset and one reference is held.
    pub fn allocate() -> (r: RenderHandler)
        ensures
            r == RenderHandler::fresh(false),
    {
        RenderHandler {
            callbacks: RenderHandlerCallbacks {
                get_accessibility_handler: false,
                get_root_screen_rect: false,
                get_view_rect: false,
                get_screen_point: false,
                get_screen_info: false,
                on_popup_show: false,
                on_popup_size: false,
                on_paint: false,
                on_accelerated_paint: false,
                start_dragging: false,
                update_drag_cursor: false,
                on_scroll_offset_changed: false,
                on_ime_composition_range_changed: false,
                on_text_selection_changed: false,
                on_virtual_keyboard_requested: true,
            },
            linked: false,
            ref_count: RefCount::new(1),
        }
    }
}

/// A new render handler fills exactly these slots of its table, the ones
/// CEF calls it through, and leaves every other one empty: `on_virtual_keyboard_requested`.
pub proof fn lemma_render_handler_slots()
    ensures
        !RenderHandlerCallbacks::installed().get_accessibility_handler,
        !RenderHandlerCallbacks::installed().get_root_screen_rect,
        !RenderHandlerCallbacks::installed().get_view_rect,
        !RenderHandlerCallbacks::installed().get_screen_point,
        !RenderHandlerCallbacks::installed().get_screen_info,
        !RenderHandlerCallbacks::installed().on_popup_show,
        !RenderHandlerCallbacks::installed().on_popup_size,
        !RenderHandlerCallbacks::installed().on_paint,
        !RenderHandlerCallbacks::installed().on_accelerated_paint,
        !RenderHandlerCallbacks::installed().start_dragging,
        !RenderHandlerCallbacks::installed().update_drag_cursor,
        !RenderHandlerCallbacks::installed().on_scroll_offset_changed,
        !RenderHandlerCallbacks::installed().on_ime_composition_range_changed,
        !RenderHandlerCallbacks::installed().on_text_selection_changed,
        RenderHandlerCallbacks::installed().on_virtual_keyboard_requested,
{
}

/// A new render handler holds one reference, carries the link it is given and
/// fills the slots of its table.
pub proof fn lemma_render_handler_fresh(linked: bool)
    ensures
        RenderHandler::fresh(linked).ref_count.count == 1,
        RenderHandler::fresh(linked).linked == linked,
        RenderHandler::fresh(linked).callbacks == RenderHandlerCallbacks::installed(),
{
}

} // verus!
