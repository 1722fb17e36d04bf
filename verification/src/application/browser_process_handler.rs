//! The browser process handler.
use vstd::prelude::*;

use crate::ref_count::{counted_up, RefCount};
use crate::handler::client::Client;
use crate::handler::display_handler::DisplayHandler;
use crate::handler::life_span_handler::LifeSpanHandler;
use crate::handler::load_handler::LoadHandler;
use crate::handler::{BrowserId, Handler};

use super::browser_view_delegate::BrowserViewDelegate;

verus! {

/// The slots of CEF's `cef_browser_process_handler_t` table, each filled or empty.
#[derive(Debug, Clone, Copy, PartialEq, Eq)]
pub struct BrowserProcessHandlerCallbacks {
    pub on_context_initialized: bool,
    pub get_default_client: bool,
    pub on_before_child_process_launch: bool,
    pub on_schedule_message_pump_work: bool,
}

impl BrowserProcessHandlerCallbacks {
    /// The slots that this object fills: the others stay empty.
    pub open spec fn installed() -> BrowserProcessHandlerCallbacks {
        BrowserProcessHandlerCallbacks {
            on_context_initialized: true,
            get_default_client: true,
            on_before_child_process_launch: false,
            on_schedule_message_pump_work: false,
        }
    }
}

/// The address that the first browser opens.
pub open spec fn start_url() -> Seq<char> {
    "https://google.ca"@
}

/// What the browser process needs, once its context is ready, to open the
/// first browser: the handler that serves it, with one reference to its
/// client taken for the browser view, the address to open, and the delegate
/// of the browser view.
#[derive(Debug)]
pub struct ContextStart {
    pub handler: Handler,
    pub url: String,
    pub browser_view_delegate: BrowserViewDelegate,
}

/// The browser process handler, which opens the first browser and serves
/// the default client.
#[derive(Debug)]
pub struct BrowserProcessHandler {
    pub callbacks: BrowserProcessHandlerCallbacks,
    /// Whether the link back to the owning `Application` is set.
    pub linked: bool,
    /// The handler of the browsers, once the first one was opened.
    pub handler: Option<Handler>,
    pub ref_count: RefCount,
}

impl BrowserProcessHandler {
    /// The object as `allocate` makes it, with the back-link set or not.
    pub open spec fn fresh(linked: bool) -> BrowserProcessHandler {
        BrowserProcessHandler {
            callbacks: BrowserProcessHandlerCallbacks::installed(),
            linked,
            handler: None,
            ref_count: RefCount { count: 1 },
        }
    }

    /// The same object with its back-link set.
    pub open spec fn with_link(self) -> BrowserProcessHandler {
        BrowserProcessHandler { linked: true, ..self }
    }

    /// The same object holding one more reference.
    pub open spec fn referenced(self) -> BrowserProcessHandler {
        BrowserProcessHandler { ref_count: RefCount { count: counted_up(self.ref_count.count) }, ..self }
    }

    /// A new browser process handler: the slots above are filled, the
    /// back-link is unset, there is no handler yet and one reference is
    /// held.
    pub fn allocate() -> (r: BrowserProcessHandler)
        ensures
            r == BrowserProcessHandler::fresh(false),
    {
        BrowserProcessHandler {
            callbacks: BrowserProcessHandlerCallbacks {
                on_context_initialized: true,
                get_default_client: true,
                on_before_child_process_launch: false,
                on_schedule_message_pump_work: false,
            },
            linked: false,
            handler: None,
            ref_count: RefCount::new(1),
        }
    }

    /// The browser process context is ready: a new handler is made and
    /// linked, one reference to its client is taken for the browser view,
    /// and a delegate is made for that view, which is to show the start
    /// page.
    pub fn on_context_initialized() -> (start: ContextStart)
        ensures
            start.handler.client == Client::fresh(true).referenced(),
            start.handler.display_handler == DisplayHandler::fresh(true),
            start.handler.life_span_handler == LifeSpanHandler::fresh(true),
            start.handler.load_handler == LoadHandler::fresh(true),
            start.handler.browsers@ == Seq::<BrowserId>::empty(),
            !start.handler.is_closing,
            start.url@ == start_url(),
            start.browser_view_delegate == BrowserViewDelegate::fresh(),
    {
        let mut handler = Handler::new();
        handler.apply_pointers();
        handler.client_ptr();
        let url = String::from_str("https://google.ca");
        ContextStart { handler, url, browser_view_delegate: BrowserViewDelegate::allocate() }
    }

    /// Keeps the handler of the opened browser, linked to it. A handler
    /// kept before goes away and gives back every reference its objects
    /// hold; the result carries, when there was one, which of its objects
    /// were reported destroyed (client, display, life span and load
    /// handler).
    pub fn attach_handler(&mut self, handler: Handler) -> (freed: Option<(bool, bool, bool, bool)>)
        ensures
            final(self).handler == Some(handler.with_links()),
            final(self).callbacks == old(self).callbacks,
            final(self).linked == old(self).linked,
            final(self).ref_count == old(self).ref_count,
            freed == (match old(self).handler {
                Some(h) => Some((
                    h.client.ref_count.count >= 1,
                    h.display_handler.ref_count.count >= 1,
                    h.life_span_handler.ref_count.count >= 1,
                    h.load_handler.ref_count.count >= 1,
                )),
                None => None,
            }),
    {
        let freed = self.destroy();
        let mut handler = handler;
        handler.apply_pointers();
        self.handler = Some(handler);
        freed
    }

    /// CEF asks for the default client. When there is a handler, one more
    /// reference to its client is handed out and the result is `true`;
    /// before the first browser there is none, and the result is `false`.
    pub fn get_default_client(&mut self) -> (has_client: bool)
        ensures
            has_client == old(self).handler is Some,
            final(self).handler == (match old(self).handler {
                Some(h) => Some(h.with_client(h.client.referenced())),
                None => None,
            }),
            final(self).callbacks == old(self).callbacks,
            final(self).linked == old(self).linked,
            final(self).ref_count == old(self).ref_count,
            old(self).handler is Some && old(self).handler.unwrap().client.ref_count.count < isize::MAX
                ==> final(self).handler is Some && final(self).handler.unwrap().client.ref_count.count
                == old(self).handler.unwrap().client.ref_count.count + 1,
    {
        match self.handler.take() {
            Some(mut handler) => {
                handler.client_ptr();
                self.handler = Some(handler);
                true
            },
            None => false,
        }
    }

    /// The object is destroyed: the handler it holds goes with it and
    /// gives back every reference its objects hold. The result carries,
    /// when there was a handler, which of its objects were reported
    /// destroyed (client, display, life span and load handler).
    pub fn destroy(&mut self) -> (freed: Option<(bool, bool, bool, bool)>)
        ensures
            final(self).handler is None,
            final(self).callbacks == old(self).callbacks,
            final(self).linked == old(self).linked,
            final(self).ref_count == old(self).ref_count,
            freed == (match old(self).handler {
                Some(h) => Some((
                    h.client.ref_count.count >= 1,
                    h.display_handler.ref_count.count >= 1,
                    h.life_span_handler.ref_count.count >= 1,
                    h.load_handler.ref_count.count >= 1,
                )),
                None => None,
            }),
    {
        match self.handler.take() {
            Some(mut handler) => Some(handler.release_all()),
            None => None,
        }
    }
}

/// A new browser process handler fills exactly these slots of its table, the ones
/// CEF calls it through, and leaves every other one empty: `on_context_initialized`, `get_default_client`.
pub proof fn lemma_browser_process_handler_slots()
    ensures
        BrowserProcessHandlerCallbacks::installed().on_context_initialized,
        BrowserProcessHandlerCallbacks::installed().get_default_client,
        !BrowserProcessHandlerCallbacks::installed().on_before_child_process_launch,
        !BrowserProcessHandlerCallbacks::installed().on_schedule_message_pump_work,
{
}

/// The browser process handler: a new one holds one reference and carries the
/// link it is given; setting the link changes nothing else; each hand-out
/// adds one reference to the count and changes nothing else.
pub proof fn lemma_browser_process_handler_counting(x: BrowserProcessHandler, linked: bool)
    ensures
        BrowserProcessHandler::fresh(linked).ref_count.count == 1,
        BrowserProcessHandler::fresh(linked).linked == linked,
        BrowserProcessHandler::fresh(linked).callbacks == BrowserProcessHandlerCallbacks::installed(),
        x.with_link().linked,
        x.with_link().callbacks == x.callbacks,
        x.with_link().ref_count == x.ref_count,
        x.ref_count.count < isize::MAX ==> x.referenced().ref_count.count == x.ref_count.count + 1,
        x.ref_count.count == isize::MAX ==> x.referenced().ref_count.count == isize::MIN,
        x.referenced().callbacks == x.callbacks,
        x.referenced().linked == x.linked,
        BrowserProcessHandler::fresh(linked).handler is None,
        x.with_link().handler == x.handler,
        x.referenced().handler == x.handler,
{
}

} // verus!
