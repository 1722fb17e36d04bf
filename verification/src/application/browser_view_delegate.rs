//! The delegate of a browser view.
use vstd::prelude::*;

use crate::ref_count::RefCount;

use super::window_delegate::WindowDelegate;
use super::ViewHandle;

verus! {

/// The slots of CEF's `cef_browser_view_delegate_t` table, those of the view delegate it extends included, each filled or empty.
#[derive(Debug, Clone, Copy, PartialEq, Eq)]
pub struct BrowserViewDelegateCallbacks {
    pub get_preferred_size: bool,
    pub get_minimum_size: bool,
    pub get_maximum_size: bool,
    pub get_height_for_width: bool,
    pub on_parent_view_changed: bool,
    pub on_child_view_changed: bool,
    pub on_window_changed: bool,
    pub on_layout_changed: bool,
    pub on_focus: bool,
    pub on_blur: bool,
    pub on_browser_created: bool,
    pub on_browser_destroyed: bool,
    pub get_delegate_for_popup_browser_view: bool,
    pub on_popup_browser_view_created: bool,
    pub get_chrome_toolbar_type: bool,
}

impl BrowserViewDelegateCallbacks {
    /// The slots that this object fills: the others stay empty.
    pub open spec fn installed() -> BrowserViewDelegateCallbacks {
        BrowserViewDelegateCallbacks {
            get_preferred_size: false,
            get_minimum_size: false,
            get_maximum_size: false,
            get_height_for_width: false,
            on_parent_view_changed: false,
            on_child_view_changed: false,
            on_window_changed: false,
            on_layout_changed: false,
            on_focus: false,
            on_blur: false,
            on_browser_created: false,
            on_browser_destroyed: false,
            get_delegate_for_popup_browser_view: false,
            on_popup_browser_view_created: true,
            get_chrome_toolbar_type: false,
        }
    }
}

/// The delegate of the browser view that shows the start page.
#[derive(Debug)]
pub struct BrowserViewDelegate {
    pub callbacks: BrowserViewDelegateCallbacks,
    pub ref_count: RefCount,
}

impl BrowserViewDelegate {
    /// The object as `allocate` makes it.
    pub open spec fn fresh() -> BrowserViewDelegate {
        BrowserViewDelegate { callbacks: BrowserViewDelegateCallbacks::installed(), ref_count: RefCount { count: 1 } }
    }

    /// A new browser view delegate: the slots above are filled and one
    /// reference is held.
    pub fn allocate() -> (r: BrowserViewDelegate)
        ensures
            r == BrowserViewDelegate::fresh(),
    {
        BrowserViewDelegate {
            callbacks: BrowserViewDelegateCallbacks {
                get_preferred_size: false,
                get_minimum_size: false,
                get_maximum_size: false,
                get_height_for_width: false,
                on_parent_view_changed: false,
                on_child_view_changed: false,
                on_window_changed: false,
                on_layout_changed: false,
                on_focus: false,
                on_blur: false,
                on_browser_created: false,
                on_browser_destroyed: false,
                get_delegate_for_popup_browser_view: false,
                on_popup_browser_view_created: true,
                get_chrome_toolbar_type: false,
            },
            ref_count: RefCount::new(1),
        }
    }

    /// A popup opened its own browser view: a new window delegate is made
    /// for it, to open a top level window that shows it. The answer is
    /// always `1`: the popup is taken care of.
    pub fn on_popup_browser_view_created(popup_browser_view: Option<ViewHandle>) -> (r: (WindowDelegate, i32))
        ensures
            r.0 == WindowDelegate::fresh(popup_browser_view),
            r.1 == 1,
    {
        (WindowDelegate::allocate(popup_browser_view), 1)
    }
}

/// A new browser view delegate fills exactly these slots of its table, the ones
/// CEF calls it through, and leaves every other one empty: `on_popup_browser_view_created`.
pub proof fn lemma_browser_view_delegate_slots()
    ensures
        !BrowserViewDelegateCallbacks::installed().get_preferred_size,
        !BrowserViewDelegateCallbacks::installed().get_minimum_size,
        !BrowserViewDelegateCallbacks::installed().get_maximum_size,
        !BrowserViewDelegateCallbacks::installed().get_height_for_width,
        !BrowserViewDelegateCallbacks::installed().on_parent_view_changed,
        !BrowserViewDelegateCallbacks::installed().on_child_view_changed,
        !BrowserViewDelegateCallbacks::installed().on_window_changed,
        !BrowserViewDelegateCallbacks::installed().on_layout_changed,
        !BrowserViewDelegateCallbacks::installed().on_focus,
        !BrowserViewDelegateCallbacks::installed().on_blur,
        !BrowserViewDelegateCallbacks::installed().on_browser_created,
        !BrowserViewDelegateCallbacks::installed().on_browser_destroyed,
        !BrowserViewDelegateCallbacks::installed().get_delegate_for_popup_browser_view,
        BrowserViewDelegateCallbacks::installed().on_popup_browser_view_created,
        !BrowserViewDelegateCallbacks::installed().get_chrome_toolbar_type,
{
}

/// A new browser view delegate holds one reference and fills the slots of
/// its table.
pub proof fn lemma_browser_view_delegate_fresh()
    ensures
        BrowserViewDelegate::fresh().ref_count.count == 1,
        BrowserViewDelegate::fresh().callbacks == BrowserViewDelegateCallbacks::installed(),
{
}

} // verus!
