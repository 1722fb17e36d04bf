//! The handler: the client and the handlers it hands to CEF, and the list of
//! browsers that are open.
use vstd::prelude::*;

pub mod client;
pub mod display_handler;
pub mod life_span_handler;
pub mod load_handler;
pub mod render_handler;

use client::Client;
use display_handler::DisplayHandler;
use life_span_handler::LifeSpanHandler;
use load_handler::LoadHandler;

use crate::ref_count::{counted_up_times, lemma_add_ref_times, RefCount};

verus! {

/// How a browser is told apart from others: CEF's browser identifier.
pub type BrowserId = i32;

/// The objects that serve the browsers, and the browsers that are open.
#[derive(Debug)]
pub struct Handler {
    pub client: Client,
    pub display_handler: DisplayHandler,
    pub life_span_handler: LifeSpanHandler,
    pub load_handler: LoadHandler,
    /// The open browsers, in the order in which they were created.
    pub browsers: Vec<BrowserId>,
    /// Set once the last open browser was asked to close.
    pub is_closing: bool,
}

impl Handler {
    /// The same handler with every object linked back to it.
    pub open spec fn with_links(self) -> Handler {
        Handler {
            client: self.client.with_link(),
            display_handler: self.display_handler.with_link(),
            life_span_handler: self.life_span_handler.with_link(),
            load_handler: self.load_handler.with_link(),
            ..self
        }
    }

    /// The same handler with another client.
    pub open spec fn with_client(self, client: Client) -> Handler {
        Handler { client, ..self }
    }

    /// The handler after `k` calls of `client_ptr`, one after the other.
    pub open spec fn after_client_ptr(self, k: nat) -> Handler
        decreases k,
    {
        if k == 0 {
            self
        } else {
            self.with_client(self.client.referenced()).after_client_ptr((k - 1) as nat)
        }
    }

    /// The same handler with another display handler.
    pub open spec fn with_display_handler(self, display_handler: DisplayHandler) -> Handler {
        Handler { display_handler, ..self }
    }

    /// The same handler with another life span handler.
    pub open spec fn with_life_span_handler(self, life_span_handler: LifeSpanHandler) -> Handler {
        Handler { life_span_handler, ..self }
    }

    /// The same handler with another load handler.
    pub open spec fn with_load_handler(self, load_handler: LoadHandler) -> Handler {
        Handler { load_handler, ..self }
    }

    /// A handler with a new client and new handlers, each holding one
    /// reference and linked back to it, and no browser.
    pub fn new() -> (h: Handler)
        ensures
            h.client == Client::fresh(true),
            h.display_handler == DisplayHandler::fresh(true),
            h.life_span_handler == LifeSpanHandler::fresh(true),
            h.load_handler == LoadHandler::fresh(true),
            h.browsers@ == Seq::<BrowserId>::empty(),
            !h.is_closing,
    {
        let mut handler = Handler {
            client: Client::allocate(),
            display_handler: DisplayHandler::allocate(),
            life_span_handler: LifeSpanHandler::allocate(),
            load_handler: LoadHandler::allocate(),
            browsers: Vec::new(),
            is_closing: false,
        };
        handler.apply_pointers();
        handler
    }

    /// Links every object of the handler back to it.
    pub fn apply_pointers(&mut self)
        ensures
            *final(self) == old(self).with_links(),
    {
        self.client.linked = true;
        self.display_handler.linked = true;
        self.life_span_handler.linked = true;
        self.load_handler.linked = true;
    }

    /// Hands out one more reference to the client.
    pub fn client_ptr(&mut self)
        ensures
            *final(self) == old(self).with_client(old(self).client.referenced()),
            old(self).client.ref_count.count < isize::MAX ==> final(self).client.ref_count.count == old(self).client.ref_count.count + 1,
    {
        self.client.ref_count.add_ref();
    }

    /// Hands out one more reference to the display handler.
    pub fn display_handler_ptr(&mut self)
        ensures
            *final(self) == old(self).with_display_handler(old(self).display_handler.referenced()),
            old(self).display_handler.ref_count.count < isize::MAX ==> final(self).display_handler.ref_count.count == old(self).display_handler.ref_count.count + 1,
    {
        self.display_handler.ref_count.add_ref();
    }

    /// Hands out one more reference to the life span handler.
    pub fn life_span_handler_ptr(&mut self)
        ensures
            *final(self) == old(self).with_life_span_handler(old(self).life_span_handler.referenced()),
            old(self).life_span_handler.ref_count.count < isize::MAX ==> final(self).life_span_handler.ref_count.count == old(self).life_span_handler.ref_count.count + 1,
    {
        self.life_span_handler.ref_count.add_ref();
    }

    /// Hands out one more reference to the load handler.
    pub fn load_handler_ptr(&mut self)
        ensures
            *final(self) == old(self).with_load_handler(old(self).load_handler.referenced()),
            old(self).load_handler.ref_count.count < isize::MAX ==> final(self).load_handler.ref_count.count == old(self).load_handler.ref_count.count + 1,
    {
        self.load_handler.ref_count.add_ref();
    }

    /// Gives back every reference that the client and the handlers still
    /// hold, as the handler goes away. Each flag of the result tells
    /// whether that object was reported destroyed, in the order client,
    /// display handler, life span handler, load handler.
    pub fn release_all(&mut self) -> (freed: (bool, bool, bool, bool))
        ensures
            final(self).client == old(self).client.released(),
            final(self).display_handler == old(self).display_handler.released(),
            final(self).life_span_handler == old(self).life_span_handler.released(),
            final(self).load_handler == old(self).load_handler.released(),
            final(self).browsers == old(self).browsers,
            final(self).is_closing == old(self).is_closing,
            freed.0 == (old(self).client.ref_count.count >= 1),
            freed.1 == (old(self).display_handler.ref_count.count >= 1),
            freed.2 == (old(self).life_span_handler.ref_count.count >= 1),
            freed.3 == (old(self).load_handler.ref_count.count >= 1),
            old(self).client.ref_count.count >= 1 ==> final(self).client.ref_count.count == 0,
            old(self).display_handler.ref_count.count >= 1 ==> final(self).display_handler.ref_count.count == 0,
            old(self).life_span_handler.ref_count.count >= 1 ==> final(self).life_span_handler.ref_count.count == 0,
            old(self).load_handler.ref_count.count >= 1 ==> final(self).load_handler.ref_count.count == 0,
    {
        let a = self.client.ref_count.release_all();
        let b = self.display_handler.ref_count.release_all();
        let c = self.life_span_handler.ref_count.release_all();
        let d = self.load_handler.ref_count.release_all();
        (a, b, c, d)
    }
}

/// `k` calls of `client_ptr`, one after the other, take `k` references to
/// the client and change nothing else, as long as its count stays at most
/// `isize::MAX`.
pub proof fn lemma_client_ptr_times(handler: Handler, k: nat)
    requires
        handler.client.ref_count.count + k <= isize::MAX,
    ensures
        handler.after_client_ptr(k).client.ref_count.count == handler.client.ref_count.count + k,
        handler.after_client_ptr(k) == handler.with_client(
            Client {
                ref_count: RefCount { count: counted_up_times(handler.client.ref_count.count, k) },
                ..handler.client
            },
        ),
    decreases k,
{
    lemma_add_ref_times(handler.client.ref_count.count, k);
    if k > 0 {
        let next = handler.with_client(handler.client.referenced());
        lemma_client_ptr_times(next, (k - 1) as nat);
        assert(next.with_client(
            Client {
                ref_count: RefCount {
                    count: counted_up_times(next.client.ref_count.count, (k - 1) as nat),
                },
                ..next.client
            },
        ) == handler.with_client(
            Client {
                ref_count: RefCount { count: counted_up_times(handler.client.ref_count.count, k) },
                ..handler.client
            },
        ));
    }
}

/// Replacing one object of a handler changes that object alone, and
/// linking a handler sets every object's link and changes nothing else.
pub proof fn lemma_handler_updates(
    h: Handler,
    client: Client,
    display_handler: DisplayHandler,
    life_span_handler: LifeSpanHandler,
    load_handler: LoadHandler,
)
    ensures
        h.with_client(client).client == client,
        h.with_client(client).display_handler == h.display_handler,
        h.with_client(client).life_span_handler == h.life_span_handler,
        h.with_client(client).load_handler == h.load_handler,
        h.with_client(client).browsers == h.browsers,
        h.with_client(client).is_closing == h.is_closing,
        h.with_display_handler(display_handler).display_handler == display_handler,
        h.with_display_handler(display_handler).client == h.client,
        h.with_display_handler(display_handler).life_span_handler == h.life_span_handler,
        h.with_display_handler(display_handler).load_handler == h.load_handler,
        h.with_display_handler(display_handler).browsers == h.browsers,
        h.with_display_handler(display_handler).is_closing == h.is_closing,
        h.with_life_span_handler(life_span_handler).life_span_handler == life_span_handler,
        h.with_life_span_handler(life_span_handler).client == h.client,
        h.with_life_span_handler(life_span_handler).display_handler == h.display_handler,
        h.with_life_span_handler(life_span_handler).load_handler == h.load_handler,
        h.with_life_span_handler(life_span_handler).browsers == h.browsers,
        h.with_life_span_handler(life_span_handler).is_closing == h.is_closing,
        h.with_load_handler(load_handler).load_handler == load_handler,
        h.with_load_handler(load_handler).client == h.client,
        h.with_load_handler(load_handler).display_handler == h.display_handler,
        h.with_load_handler(load_handler).life_span_handler == h.life_span_handler,
        h.with_load_handler(load_handler).browsers == h.browsers,
        h.with_load_handler(load_handler).is_closing == h.is_closing,
        h.with_links().client.linked,
        h.with_links().display_handler.linked,
        h.with_links().life_span_handler.linked,
        h.with_links().load_handler.linked,
        h.with_links().client.ref_count == h.client.ref_count,
        h.with_links().display_handler.ref_count == h.display_handler.ref_count,
        h.with_links().life_span_handler.ref_count == h.life_span_handler.ref_count,
        h.with_links().load_handler.ref_count == h.load_handler.ref_count,
        h.with_links().client.callbacks == h.client.callbacks,
        h.with_links().display_handler.callbacks == h.display_handler.callbacks,
        h.with_links().life_span_handler.callbacks == h.life_span_handler.callbacks,
        h.with_links().load_handler.callbacks == h.load_handler.callbacks,
        h.with_links().browsers == h.browsers,
        h.with_links().is_closing == h.is_closing,
{
}

/// Each hand-out of one of the handler's objects takes exactly one reference
/// to that object and to no other: below the top of the counter, the count
/// of the object handed out grows by one and every other count stays.
pub proof fn lemma_hand_outs_take_one_reference(h: Handler)
    ensures
        h.client.ref_count.count < isize::MAX ==> h.with_client(h.client.referenced()).client.ref_count.count
            == h.client.ref_count.count + 1,
        h.display_handler.ref_count.count < isize::MAX ==> h.with_display_handler(
            h.display_handler.referenced(),
        ).display_handler.ref_count.count == h.display_handler.ref_count.count + 1,
        h.life_span_handler.ref_count.count < isize::MAX ==> h.with_life_span_handler(
            h.life_span_handler.referenced(),
        ).life_span_handler.ref_count.count == h.life_span_handler.ref_count.count + 1,
        h.load_handler.ref_count.count < isize::MAX ==> h.with_load_handler(
            h.load_handler.referenced(),
        ).load_handler.ref_count.count == h.load_handler.ref_count.count + 1,
        h.with_display_handler(h.display_handler.referenced()).client == h.client,
        h.with_display_handler(h.display_handler.referenced()).life_span_handler == h.life_span_handler,
        h.with_display_handler(h.display_handler.referenced()).load_handler == h.load_handler,
{
}

} // verus!
