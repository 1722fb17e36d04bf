//! The application object that CEF is started with.
use vstd::prelude::*;

use crate::ref_count::{all_released, counted_up, RefCount};

use super::Application;

verus! {

/// The slots of CEF's `cef_app_t` table, each filled or empty.
#[derive(Debug, Clone, Copy, PartialEq, Eq)]
pub struct AppCallbacks {
    pub on_before_command_line_processing: bool,
    pub on_register_custom_schemes: bool,
    pub get_render_process_handler: bool,
    pub get_browser_process_handler: bool,
    pub get_resource_bundle_handler: bool,
}

impl AppCallbacks {
    /// The slots that this object fills: the others stay empty.
    pub open spec fn installed() -> AppCallbacks {
        AppCallbacks {
            on_before_command_line_processing: false,
            on_register_custom_schemes: false,
            get_render_process_handler: false,
            get_browser_process_handler: true,
            get_resource_bundle_handler: false,
        }
    }
}

/// The application object handed to CEF at start-up.
#[derive(Debug)]
pub struct App {
    pub callbacks: AppCallbacks,
    /// Whether the link back to the owning `Application` is set.
    pub linked: bool,
    pub ref_count: RefCount,
}

impl App {
    /// The object as `allocate` makes it, with the back-link set or not.
    pub open spec fn fresh(linked: bool) -> App {
        App { callbacks: AppCallbacks::installed(), linked, ref_count: RefCount { count: 1 } }
    }

    /// The same object with its back-link set.
    pub open spec fn with_link(self) -> App {
        App { callbacks: self.callbacks, linked: true, ref_count: self.ref_count }
    }

    /// The same object holding one more reference.
    pub open spec fn referenced(self) -> App {
        App { callbacks: self.callbacks, linked: self.linked, ref_count: RefCount { count: counted_up(self.ref_count.count) } }
    }

    /// The same object once every reference it held is given back.
    pub open spec fn released(self) -> App {
        App { callbacks: self.callbacks, linked: self.linked, ref_count: RefCount { count: all_released(self.ref_count.count) } }
    }

    /// A new application object: the slots above are filled, the back-link
    /// is unset and one reference is held.
    pub fn allocate() -> (r: App)
        ensures
            r == App::fresh(false),
    {
        App {
            callbacks: AppCallbacks {
                on_before_command_line_processing: false,
                on_register_custom_schemes: false,
                get_render_process_handler: false,
                get_browser_process_handler: true,
                get_resource_bundle_handler: false,
            },
            linked: false,
            ref_count: RefCount::new(1),
        }
    }

    /// CEF asks the application object for its browser process handler:
    /// one more reference to it is handed out.
    pub fn get_browser_process_handler(application: &mut Application)
        requires
            old(application).app.linked,
        ensures
            final(application).app == old(application).app,
            final(application).browser_process_handler == old(application).browser_process_handler.referenced(),
            old(application).browser_process_handler.ref_count.count < isize::MAX ==> final(application).browser_process_handler.ref_count.count == old(application).browser_process_handler.ref_count.count + 1,
    {
        application.browser_process_handler_ptr();
    }
}

/// A new application object fills exactly these slots of its table, the ones
/// CEF calls it through, and leaves every other one empty: `get_browser_process_handler`.
pub proof fn lemma_app_slots()
    ensures
        !AppCallbacks::installed().on_before_command_line_processing,
        !AppCallbacks::installed().on_register_custom_schemes,
        !AppCallbacks::installed().get_render_process_handler,
        AppCallbacks::installed().get_browser_process_handler,
        !AppCallbacks::installed().get_resource_bundle_handler,
{
}

/// The application object: a new one holds one reference and carries the
/// link it is given; setting the link changes nothing else; each hand-out
/// adds one reference to the count and changes nothing else.
/// Giving back every reference leaves none, and nothing else changes.
pub proof fn lemma_app_counting(x: App, linked: bool)
    ensures
        App::fresh(linked).ref_count.count == 1,
        App::fresh(linked).linked == linked,
        App::fresh(linked).callbacks == AppCallbacks::installed(),
        x.with_link().linked,
        x.with_link().callbacks == x.callbacks,
        x.with_link().ref_count == x.ref_count,
        x.ref_count.count < isize::MAX ==> x.referenced().ref_count.count == x.ref_count.count + 1,
        x.ref_count.count == isize::MAX ==> x.referenced().ref_count.count == isize::MIN,
        x.referenced().callbacks == x.callbacks,
        x.referenced().linked == x.linked,
        x.ref_count.count >= 1 ==> x.released().ref_count.count == 0,
        x.ref_count.count < 1 ==> x.released().ref_count.count == x.ref_count.count,
        x.released().callbacks == x.callbacks,
        x.released().linked == x.linked,
{
}

} // verus!
