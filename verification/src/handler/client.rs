//! The client object, through which CEF reaches the other handlers.
use vstd::prelude::*;

use crate::ref_count::{all_released, counted_up, RefCount};

use super::Handler;

verus! {

/// The slots of CEF's `cef_client_t` table, each filled or empty.
#[derive(Debug, Clone, Copy, PartialEq, Eq)]
pub struct ClientCallbacks {
    pub get_audio_handler: bool,
    pub get_context_menu_handler: bool,
    pub get_dialog_handler: bool,
    pub get_display_handler: bool,
    pub get_download_handler: bool,
    pub get_drag_handler: bool,
    pub get_find_handler: bool,
    pub get_focus_handler: bool,
    pub get_frame_handler: bool,
    pub get_jsdialog_handler: bool,
    pub get_keyboard_handler: bool,
    pub get_life_span_handler: bool,
    pub get_load_handler: bool,
    pub get_print_handler: bool,
    pub get_render_handler: bool,
    pub get_request_handler: bool,
    pub on_process_message_received: bool,
}

impl ClientCallbacks {
    /// The slots that this object fills: the others stay empty.
    pub open spec fn installed() -> ClientCallbacks {
        ClientCallbacks {
            get_audio_handler: false,
            get_context_menu_handler: false,
            get_dialog_handler: false,
            get_display_handler: true,
            get_download_handler: false,
            get_drag_handler: false,
            get_find_handler: false,
            get_focus_handler: false,
            get_frame_handler: false,
            get_jsdialog_handler: false,
            get_keyboard_handler: false,
            get_life_span_handler: true,
            get_load_handler: true,
            get_print_handler: false,
            get_render_handler: false,
            get_request_handler: false,
            on_process_message_received: false,
        }
    }
}

/// The client object that CEF asks for the handlers of a browser.
#[derive(Debug)]
pub struct Client {
    pub callbacks: ClientCallbacks,
    /// Whether the link back to the owning `Handler` is set.
    pub linked: bool,
    pub ref_count: RefCount,
}

impl Client {
    /// The object as `allocate` makes it, with the back-link set or not.
    pub open spec fn fresh(linked: bool) -> Client {
        Client { callbacks: ClientCallbacks::installed(), linked, ref_count: RefCount { count: 1 } }
    }

    /// The same object with its back-link set.
    pub open spec fn with_link(self) -> Client {
        Client { callbacks: self.callbacks, linked: true, ref_count: self.ref_count }
    }

    /// The same object holding one more reference.
    pub open spec fn referenced(self) -> Client {
        Client { callbacks: self.callbacks, linked: self.linked, ref_count: RefCount { count: counted_up(self.ref_count.count) } }
    }

    /// The same object once every reference it held is given back.
    pub open spec fn released(self) -> Client {
        Client { callbacks: self.callbacks, linked: self.linked, ref_count: RefCount { count: all_released(self.ref_count.count) } }
    }

    /// A new client: the slots above are filled, the back-link is unset and
    /// one reference is held.
    pub fn allocate() -> (r: Client)
        ensures
            r == Client::fresh(false),
    {
        Client {
            callbacks: ClientCallbacks {
                get_audio_handler: false,
                get_context_menu_handler: false,
                get_dialog_handler: false,
                get_display_handler: true,
                get_download_handler: false,
                get_drag_handler: false,
                get_find_handler: false,
                get_focus_handler: false,
                get_frame_handler: false,
                get_jsdialog_handler: false,
                get_keyboard_handler: false,
                get_life_span_handler: true,
                get_load_handler: true,
                get_print_handler: false,
                get_render_handler: false,
                get_request_handler: false,
                on_process_message_received: false,
            },
            linked: false,
            ref_count: RefCount::new(1),
        }
    }

    /// CEF asks the client for its display handler: one more reference to
    /// the handler's display handler is handed out.
    pub fn get_display_handler(handler: &mut Handler)
        requires
            old(handler).client.linked,
        ensures
            *final(handler) == old(handler).with_display_handler(old(handler).display_handler.referenced()),
            old(handler).display_handler.ref_count.count < isize::MAX ==> final(handler).display_handler.ref_count.count == old(handler).display_handler.ref_count.count + 1,
    {
        handler.display_handler_ptr();
    }

    /// CEF asks the client for its life span handler: one more reference to
    /// it is handed out.
    pub fn get_life_span_handler(handler: &mut Handler)
        requires
            old(handler).client.linked,
        ensures
            *final(handler) == old(handler).with_life_span_handler(old(handler).life_span_handler.referenced()),
            old(handler).life_span_handler.ref_count.count < isize::MAX ==> final(handler).life_span_handler.ref_count.count == old(handler).life_span_handler.ref_count.count + 1,
    {
        handler.life_span_handler_ptr();
    }

    /// CEF asks the client for its load handler: one more reference to it
    /// is handed out.
    pub fn get_load_handler(handler: &mut Handler)
        requires
            old(handler).client.linked,
        ensures
            *final(handler) == old(handler).with_load_handler(old(handler).load_handler.referenced()),
            old(handler).load_handler.ref_count.count < isize::MAX ==> final(handler).load_handler.ref_count.count == old(handler).load_handler.ref_count.count + 1,
    {
        handler.load_handler_ptr();
    }
}

/// A new client fills exactly these slots of its table, the ones
/// CEF calls it through, and leaves every other one empty: `get_display_handler`, `get_life_span_handler`, `get_load_handler`.
pub proof fn lemma_client_slots()
    ensures
        !ClientCallbacks::installed().get_audio_handler,
        !ClientCallbacks::installed().get_context_menu_handler,
        !ClientCallbacks::installed().get_dialog_handler,
        ClientCallbacks::installed().get_display_handler,
        !ClientCallbacks::installed().get_download_handler,
        !ClientCallbacks::installed().get_drag_handler,
        !ClientCallbacks::installed().get_find_handler,
        !ClientCallbacks::installed().get_focus_handler,
        !ClientCallbacks::installed().get_frame_handler,
        !ClientCallbacks::installed().get_jsdialog_handler,
        !ClientCallbacks::installed().get_keyboard_handler,
        ClientCallbacks::installed().get_life_span_handler,
        ClientCallbacks::installed().get_load_handler,
        !ClientCallbacks::installed().get_print_handler,
        !ClientCallbacks::installed().get_render_handler,
        !ClientCallbacks::installed().get_request_handler,
        !ClientCallbacks::installed().on_process_message_received,
{
}

/// The client: a new one holds one reference and carries the
/// link it is given; setting the link changes nothing else; each hand-out
/// adds one reference to the count and changes nothing else.
/// Giving back every reference leaves none, and nothing else changes.
pub proof fn lemma_client_counting(x: Client, linked: bool)
    ensures
        Client::fresh(linked).ref_count.count == 1,
        Client::fresh(linked).linked == linked,
        Client::fresh(linked).callbacks == ClientCallbacks::installed(),
        x.with_link().linked,
        x.with_link().callbacks == x.callbacks,
        x.with_link().ref_count == x.ref_count,
        x.ref_count.count < isize::MAX ==> x.referenced().ref_count.count == x.ref_count.count + 1,
        x.ref_count.count == isize::MAX ==> x.referenced().ref_count.count == isize::MIN,
        x.referenced().callbacks == x.callbacks,
        x.referenced().linked == x.linked,
        x.ref_count.count >= 1 ==> x.released().ref_count.count == 0,
        x.ref_count.count < 1 ==> x.released().ref_count.count == x.ref_count.count,
        x.released().callbacks == x.callbacks,
        x.released().linked == x.linked,
{
}

} // verus!
