//! The life span handler object and the list of open browsers.
use vstd::prelude::*;

use crate::ref_count::{all_released, counted_up, RefCount};

use super::{BrowserId, Handler};

verus! {

/// The slots of CEF's `cef_life_span_handler_t` table, each filled or empty.
#[derive(Debug, Clone, Copy, PartialEq, Eq)]
pub struct LifeSpanHandlerCallbacks {
    pub on_before_popup: bool,
    pub on_after_created: bool,
    pub on_before_close: bool,
    pub do_close: bool,
}

impl LifeSpanHandlerCallbacks {
    /// The slots that this object fills: the others stay empty.
    pub open spec fn installed() -> LifeSpanHandlerCallbacks {
        LifeSpanHandlerCallbacks {
            on_before_popup: false,
            on_after_created: true,
            on_before_close: true,
            do_close: true,
        }
    }
}

/// The life span handler, which keeps the list of open browsers.
#[derive(Debug)]
pub struct LifeSpanHandler {
    pub callbacks: LifeSpanHandlerCallbacks,
    /// Whether the link back to the owning `Handler` is set.
    pub linked: bool,
    pub ref_count: RefCount,
}

impl LifeSpanHandler {
    /// The object as `allocate` makes it, with the back-link set or not.
    pub open spec fn fresh(linked: bool) -> LifeSpanHandler {
        LifeSpanHandler { callbacks: LifeSpanHandlerCallbacks::installed(), linked, ref_count: RefCount { count: 1 } }
    }

    /// The same object with its back-link set.
    pub open spec fn with_link(self) -> LifeSpanHandler {
        LifeSpanHandler { callbacks: self.callbacks, linked: true, ref_count: self.ref_count }
    }

    /// The same object holding one more reference.
    pub open spec fn referenced(self) -> LifeSpanHandler {
        LifeSpanHandler { callbacks: self.callbacks, linked: self.linked, ref_count: RefCount { count: counted_up(self.ref_count.count) } }
    }

    /// The same object once every reference it held is given back.
    pub open spec fn released(self) -> LifeSpanHandler {
        LifeSpanHandler { callbacks: self.callbacks, linked: self.linked, ref_count: RefCount { count: all_released(self.ref_count.count) } }
    }

    /// A new life span handler: the slots above are filled, the back-link
    /// is unset and one reference is held.
    pub fn allocate() -> (r: LifeSpanHandler)
        ensures
            r == LifeSpanHandler::fresh(false),
    {
        LifeSpanHandler {
            callbacks: LifeSpanHandlerCallbacks {
                on_before_popup: false,
                on_after_created: true,
                on_before_close: true,
                do_close: true,
            },
            linked: false,
            ref_count: RefCount::new(1),
        }
    }

    /// A browser was created: it joins the end of the handler's list.
    pub fn on_after_created(handler: &mut Handler, browser: BrowserId)
        requires
            old(handler).life_span_handler.linked,
        ensures
            final(handler).browsers@ == old(handler).browsers@.push(browser),
            final(handler).client == old(handler).client,
            final(handler).display_handler == old(handler).display_handler,
            final(handler).life_span_handler == old(handler).life_span_handler,
            final(handler).load_handler == old(handler).load_handler,
            final(handler).is_closing == old(handler).is_closing,
    {
        handler.browsers.push(browser);
    }

    /// A browser is about to close: the first entry of the list that is
    /// the same browser leaves it. The result tells whether the list is now
    /// empty, in which case the message loop is to be quit.
    pub fn on_before_close(handler: &mut Handler, browser: BrowserId) -> (quit: bool)
        requires
            old(handler).life_span_handler.linked,
        ensures
            final(handler).browsers@ == old(handler).browsers@.remove_value(browser),
            quit == (final(handler).browsers@.len() == 0),
            final(handler).client == old(handler).client,
            final(handler).display_handler == old(handler).display_handler,
            final(handler).life_span_handler == old(handler).life_span_handler,
            final(handler).load_handler == old(handler).load_handler,
            final(handler).is_closing == old(handler).is_closing,
    {
        let ghost before = handler.browsers@;
        let n: usize = handler.browsers.len();
        let mut first: Option<usize> = None;
        let mut i: usize = 0;
        while i < n
            invariant
                n == before.len(),
                before == handler.browsers@,
                i <= n,
                first is None ==> forall|j: int| 0 <= j < i ==> before[j] != browser,
                first matches Some(k) ==> {
                    &&& k < i
                    &&& before[k as int] == browser
                    &&& forall|j: int| 0 <= j < k ==> before[j] != browser
                },
            decreases n - i,
        {
            if first.is_none() && handler.browsers[i] == browser {
                first = Some(i);
            }
            i = i + 1;
        }
        proof {
            before.index_of_first_ensures(browser);
        }
        if let Some(k) = first {
            proof {
                let f: int = before.index_of_first(browser).unwrap();
                assert(f == k as int);
            }
            handler.browsers.remove(k);
        }
        handler.browsers.len() == 0
    }

    /// A browser asks whether it may close: when it is the only one left,
    /// the handler is marked as closing. The answer is always `0`, letting
    /// the close go on.
    pub fn do_close(handler: &mut Handler) -> (r: i32)
        requires
            old(handler).life_span_handler.linked,
        ensures
            r == 0,
            final(handler).is_closing == (old(handler).browsers@.len() == 1 || old(handler).is_closing),
            final(handler).browsers@ == old(handler).browsers@,
            final(handler).client == old(handler).client,
            final(handler).display_handler == old(handler).display_handler,
            final(handler).life_span_handler == old(handler).life_span_handler,
            final(handler).load_handler == old(handler).load_handler,
    {
        if handler.browsers.len() == 1 {
            handler.is_closing = true;
        }
        0
    }
}

/// A browser that opens and then closes leaves the set of open browsers as
/// it was; when it was not open before, the list itself is as it was. When it
/// was the only browser, closing it asks for the message loop to be quit.
pub proof fn lemma_open_then_close(browsers: Seq<BrowserId>, browser: BrowserId)
    ensures
        browsers.push(browser).remove_value(browser).to_multiset() == browsers.to_multiset(),
        !browsers.contains(browser) ==> browsers.push(browser).remove_value(browser) == browsers,
        browsers.len() == 0 ==> browsers.push(browser).remove_value(browser).len() == 0,
{
    let pushed = browsers.push(browser);
    pushed.index_of_first_ensures(browser);
    browsers.index_of_first_ensures(browser);
    assert(pushed[browsers.len() as int] == browser);
    let k: int = pushed.index_of_first(browser).unwrap();
    pushed.to_multiset_ensures();
    browsers.to_multiset_ensures();
    if browsers.contains(browser) {
        let i: int = browsers.index_of_first(browser).unwrap();
        assert(k == i) by {
            if k < i {
                assert(browsers[k] == browser);
            }
            if k > i {
                assert(pushed[i] == browser);
            }
        }
        assert(pushed.remove(k) =~= browsers.remove(i).push(browser));
        browsers.remove(i).to_multiset_ensures();
        assert(browsers.to_multiset().remove(browser).insert(browser) =~= browsers.to_multiset());
    } else {
        assert(k == browsers.len()) by {
            if k < browsers.len() {
                assert(browsers[k] == browser);
            }
        }
        assert(pushed.remove(k) =~= browsers);
    }
}

/// A new life span handler fills exactly these slots of its table, the ones
/// CEF calls it through, and leaves every other one empty: `on_after_created`, `on_before_close`, `do_close`.
pub proof fn lemma_life_span_handler_slots()
    ensures
        !LifeSpanHandlerCallbacks::installed().on_before_popup,
        LifeSpanHandlerCallbacks::installed().on_after_created,
        LifeSpanHandlerCallbacks::installed().on_before_close,
        LifeSpanHandlerCallbacks::installed().do_close,
{
}

/// The life span handler: a new one holds one reference and carries the
/// link it is given; setting the link changes nothing else; each hand-out
/// adds one reference to the count and changes nothing else.
/// Giving back every reference leaves none, and nothing else changes.
pub proof fn lemma_life_span_handler_counting(x: LifeSpanHandler, linked: bool)
    ensures
        LifeSpanHandler::fresh(linked).ref_count.count == 1,
        LifeSpanHandler::fresh(linked).linked == linked,
        LifeSpanHandler::fresh(linked).callbacks == LifeSpanHandlerCallbacks::installed(),
        x.with_link().linked,
        x.with_link().callbacks == x.callbacks,
        x.with_link().ref_count == x.ref_count,
        x.ref_count.count < isize::MAX ==> x.referenced().ref_count.count == x.ref_count.count + 1,
        x.ref_count.count == isize::MAX ==> x.referenced().ref_count.count == isize::MIN,
        x.referenced().callbacks == x.callbacks,
        x.referenced().linked == x.linked,
        x.ref_count.count >= 1 ==> x.released().ref_count.count == 0,
        x.ref_count.count < 1 ==> x.released().ref_count.count == x.ref_count.count,
        x.released().callbacks == x.callbacks,
        x.released().linked == x.linked,
{
}

} // verus!
