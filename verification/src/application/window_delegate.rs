//! The delegate of a top level window.
use vstd::prelude::*;

use crate::ref_count::RefCount;

use super::ViewHandle;

verus! {

/// The slots of CEF's `cef_window_delegate_t` table, those of the panel and view delegates it extends included, each filled or empty.
#[derive(Debug, Clone, Copy, PartialEq, Eq)]
pub struct WindowDelegateCallbacks {
    pub get_preferred_size: bool,
    pub get_minimum_size: bool,
    pub get_maximum_size: bool,
    pub get_height_for_width: bool,
    pub on_parent_view_changed: bool,
    pub on_child_view_changed: bool,
    pub on_window_changed: bool,
    pub on_layout_changed: bool,
    pub on_focus: bool,
    pub on_blur: bool,
    pub on_window_created: bool,
    pub on_window_destroyed: bool,
    pub get_parent_window: bool,
    pub is_frameless: bool,
    pub can_resize: bool,
    pub can_maximize: bool,
    pub can_minimize: bool,
    pub can_close: bool,
    pub on_accelerator: bool,
    pub on_key_event: bool,
    pub get_initial_bounds: bool,
    pub get_initial_show_state: bool,
}

impl WindowDelegateCallbacks {
    /// The slots that this object fills: the others stay empty.
    pub open spec fn installed() -> WindowDelegateCallbacks {
        WindowDelegateCallbacks {
            get_preferred_size: true,
            get_minimum_size: false,
            get_maximum_size: false,
            get_height_for_width: false,
            on_parent_view_changed: false,
            on_child_view_changed: false,
            on_window_changed: false,
            on_layout_changed: false,
            on_focus: false,
            on_blur: false,
            on_window_created: true,
            on_window_destroyed: true,
            get_parent_window: false,
            is_frameless: false,
            can_resize: false,
            can_maximize: false,
            can_minimize: false,
            can_close: true,
            on_accelerator: false,
            on_key_event: false,
            get_initial_bounds: false,
            get_initial_show_state: false,
        }
    }
}

/// The size that a view asks for.
#[derive(Debug, Clone, Copy, PartialEq, Eq)]
pub struct CefSize {
    pub width: i32,
    pub height: i32,
}

/// What `can_close` decides.
#[derive(Debug, Clone, Copy, PartialEq, Eq)]
pub struct CanClose {
    /// The answer given to CEF: `1`, the window may close.
    pub result: i32,
    /// Whether the browser shown in the window is to be asked to close.
    pub try_close_browser: bool,
}

/// The delegate of a top level window that shows one browser view.
#[derive(Debug)]
pub struct WindowDelegate {
    pub callbacks: WindowDelegateCallbacks,
    /// The browser view shown in the window, until the window is destroyed.
    pub browser_view: Option<ViewHandle>,
    pub ref_count: RefCount,
}

impl WindowDelegate {
    /// The delegate as `allocate` makes it for a browser view.
    pub open spec fn fresh(browser_view: Option<ViewHandle>) -> WindowDelegate {
        WindowDelegate {
            callbacks: WindowDelegateCallbacks::installed(),
            browser_view,
            ref_count: RefCount { count: 1 },
        }
    }

    /// A new window delegate for `browser_view`: the slots above are
    /// filled and one reference is held.
    pub fn allocate(browser_view: Option<ViewHandle>) -> (r: WindowDelegate)
        ensures
            r == WindowDelegate::fresh(browser_view),
    {
        WindowDelegate {
            callbacks: WindowDelegateCallbacks {
                get_preferred_size: true,
                get_minimum_size: false,
                get_maximum_size: false,
                get_height_for_width: false,
                on_parent_view_changed: false,
                on_child_view_changed: false,
                on_window_changed: false,
                on_layout_changed: false,
                on_focus: false,
                on_blur: false,
                on_window_created: true,
                on_window_destroyed: true,
                get_parent_window: false,
                is_frameless: false,
                can_resize: false,
                can_maximize: false,
                can_minimize: false,
                can_close: true,
                on_accelerator: false,
                on_key_event: false,
                get_initial_bounds: false,
                get_initial_show_state: false,
            },
            browser_view,
            ref_count: RefCount::new(1),
        }
    }

    /// The window was created: the browser view is the child view to add
    /// to it, before the window is shown.
    pub fn on_window_created(&self) -> (view: ViewHandle)
        requires
            self.browser_view is Some,
        ensures
            self.browser_view == Some(view),
    {
        match self.browser_view {
            Some(view) => view,
            None => 0,
        }
    }

    /// The window was destroyed: the delegate lets go of the browser view.
    pub fn on_window_destroyed(&mut self)
        ensures
            final(self).browser_view is None,
            final(self).callbacks == old(self).callbacks,
            final(self).ref_count == old(self).ref_count,
    {
        self.browser_view = None;
    }

    /// The size that the window asks for: 800 by 600.
    pub fn get_preferred_size() -> (size: CefSize)
        ensures
            size == (CefSize { width: 800, height: 600 }),
    {
        CefSize { width: 800, height: 600 }
    }

    /// The window is asked whether it may close. It may, always; and when
    /// the browser view still shows a browser (`has_browser`), that browser
    /// is asked to close first.
    pub fn can_close(&self, has_browser: bool) -> (r: CanClose)
        requires
            self.browser_view is Some,
        ensures
            r == (CanClose { result: 1, try_close_browser: has_browser }),
    {
        CanClose { result: 1, try_close_browser: has_browser }
    }
}

/// A new window delegate fills exactly these slots of its table, the ones
/// CEF calls it through, and leaves every other one empty: `get_preferred_size`, `on_window_created`, `on_window_destroyed`, `can_close`.
pub proof fn lemma_window_delegate_slots()
    ensures
        WindowDelegateCallbacks::installed().get_preferred_size,
        !WindowDelegateCallbacks::installed().get_minimum_size,
        !WindowDelegateCallbacks::installed().get_maximum_size,
        !WindowDelegateCallbacks::installed().get_height_for_width,
        !WindowDelegateCallbacks::installed().on_parent_view_changed,
        !WindowDelegateCallbacks::installed().on_child_view_changed,
        !WindowDelegateCallbacks::installed().on_window_changed,
        !WindowDelegateCallbacks::installed().on_layout_changed,
        !WindowDelegateCallbacks::installed().on_focus,
        !WindowDelegateCallbacks::installed().on_blur,
        WindowDelegateCallbacks::installed().on_window_created,
        WindowDelegateCallbacks::installed().on_window_destroyed,
        !WindowDelegateCallbacks::installed().get_parent_window,
        !WindowDelegateCallbacks::installed().is_frameless,
        !WindowDelegateCallbacks::installed().can_resize,
        !WindowDelegateCallbacks::installed().can_maximize,
        !WindowDelegateCallbacks::installed().can_minimize,
        WindowDelegateCallbacks::installed().can_close,
        !WindowDelegateCallbacks::installed().on_accelerator,
        !WindowDelegateCallbacks::installed().on_key_event,
        !WindowDelegateCallbacks::installed().get_initial_bounds,
        !WindowDelegateCallbacks::installed().get_initial_show_state,
{
}

/// A new window delegate holds one reference, shows the browser view it is
/// made for and fills the slots of its table.
pub proof fn lemma_window_delegate_fresh(browser_view: Option<ViewHandle>)
    ensures
        WindowDelegate::fresh(browser_view).ref_count.count == 1,
        WindowDelegate::fresh(browser_view).browser_view == browser_view,
        WindowDelegate::fresh(browser_view).callbacks == WindowDelegateCallbacks::installed(),
{
}

} // verus!
