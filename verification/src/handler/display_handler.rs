//! The display handler object.
use vstd::prelude::*;

use crate::ref_count::{all_released, counted_up, RefCount};

verus! {

/// The slots of CEF's `cef_display_handler_t` table, each filled or empty.
#[derive(Debug, Clone, Copy, PartialEq, Eq)]
pub struct DisplayHandlerCallbacks {
    pub on_title_change: bool,
    pub on_tooltip: bool,
    pub on_auto_resize: bool,
    pub on_cursor_change: bool,
    pub on_address_change: bool,
    pub on_status_message: bool,
    pub on_console_message: bool,
    pub on_favicon_urlchange: bool,
    pub on_fullscreen_mode_change: bool,
    pub on_loading_progress_change: bool,
}

impl DisplayHandlerCallbacks {
    /// The slots that this object fills: the others stay empty.
    pub open spec fn installed() -> DisplayHandlerCallbacks {
        DisplayHandlerCallbacks {
            on_title_change: true,
            on_tooltip: false,
            on_auto_resize: false,
            on_cursor_change: false,
            on_address_change: false,
            on_status_message: false,
            on_console_message: false,
            on_favicon_urlchange: false,
            on_fullscreen_mode_change: false,
            on_loading_progress_change: false,
        }
    }
}

/// The display handler, told of title changes.
#[derive(Debug)]
pub struct DisplayHandler {
    pub callbacks: DisplayHandlerCallbacks,
    /// Whether the link back to the owning `Handler` is set.
    pub linked: bool,
    pub ref_count: RefCount,
}

impl DisplayHandler {
    /// The object as `allocate` makes it, with the back-link set or not.
    pub open spec fn fresh(linked: bool) -> DisplayHandler {
        DisplayHandler { callbacks: DisplayHandlerCallbacks::installed(), linked, ref_count: RefCount { count: 1 } }
    }

    /// The same object with its back-link set.
    pub open spec fn with_link(self) -> DisplayHandler {
        DisplayHandler { callbacks: self.callbacks, linked: true, ref_count: self.ref_count }
    }

    /// The same object holding one more reference.
    pub open spec fn referenced(self) -> DisplayHandler {
        DisplayHandler { callbacks: self.callbacks, linked: self.linked, ref_count: RefCount { count: counted_up(self.ref_count.count) } }
    }

    /// The same object once every reference it held is given back.
    pub open spec fn released(self) -> DisplayHandler {
        DisplayHandler { callbacks: self.callbacks, linked: self.linked, ref_count: RefCount { count: all_released(self.ref_count.count) } }
    }

    /// A new display handler: the slots above are filled, the back-link is
    /// unset and one reference is held.
    pub fn allocate() -> (r: DisplayHandler)
        ensures
            r == DisplayHandler::fresh(false),
    {
        DisplayHandler {
            callbacks: DisplayHandlerCallbacks {
                on_title_change: true,
                on_tooltip: false,
                on_auto_resize: false,
                on_cursor_change: false,
                on_address_change: false,
                on_status_message: false,
                on_console_message: false,
                on_favicon_urlchange: false,
                on_fullscreen_mode_change: false,
                on_loading_progress_change: false,
            },
            linked: false,
            ref_count: RefCount::new(1),
        }
    }

    /// The title of a browser changed: the new title is set on the window
    /// of the browser's view, when the browser has a view and the view a
    /// window; otherwise nothing is done.
    pub fn on_title_change(has_browser_view: bool, has_window: bool) -> (set_title: bool)
        ensures
            set_title == (has_browser_view && has_window),
    {
        has_browser_view && has_window
    }
}

/// A new display handler fills exactly these slots of its table, the ones
/// CEF calls it through, and leaves every other one empty: `on_title_change`.
pub proof fn lemma_display_handler_slots()
    ensures
        DisplayHandlerCallbacks::installed().on_title_change,
        !DisplayHandlerCallbacks::installed().on_tooltip,
        !DisplayHandlerCallbacks::installed().on_auto_resize,
        !DisplayHandlerCallbacks::installed().on_cursor_change,
        !DisplayHandlerCallbacks::installed().on_address_change,
        !DisplayHandlerCallbacks::installed().on_status_message,
        !DisplayHandlerCallbacks::installed().on_console_message,
        !DisplayHandlerCallbacks::installed().on_favicon_urlchange,
        !DisplayHandlerCallbacks::installed().on_fullscreen_mode_change,
        !DisplayHandlerCallbacks::installed().on_loading_progress_change,
{
}

/// The display handler: a new one holds one reference and carries the
/// link it is given; setting the link changes nothing else; each hand-out
/// adds one reference to the count and changes nothing else.
/// Giving back every reference leaves none, and nothing else changes.
pub proof fn lemma_display_handler_counting(x: DisplayHandler, linked: bool)
    ensures
        DisplayHandler::fresh(linked).ref_count.count == 1,
        DisplayHandler::fresh(linked).linked == linked,
        DisplayHandler::fresh(linked).callbacks == DisplayHandlerCallbacks::installed(),
        x.with_link().linked,
        x.with_link().callbacks == x.callbacks,
        x.with_link().ref_count == x.ref_count,
        x.ref_count.count < isize::MAX ==> x.referenced().ref_count.count == x.ref_count.count + 1,
        x.ref_count.count == isize::MAX ==> x.referenced().ref_count.count == isize::MIN,
        x.referenced().callbacks == x.callbacks,
        x.referenced().linked == x.linked,
        x.ref_count.count >= 1 ==> x.released().ref_count.count == 0,
        x.ref_count.count < 1 ==> x.released().ref_count.count == x.ref_count.count,
        x.released().callbacks == x.callbacks,
        x.released().linked == x.linked,
{
}

} // verus!
