//! The load handler object and the page shown when a load fails.
use vstd::prelude::*;

use crate::decimal::{decimal, decimal_string};
use crate::ref_count::{all_released, counted_up, RefCount};

verus! {

/// CEF's error code for a load that was aborted, as for a file handed to a
/// download.
pub const ERR_ABORTED: i32 = -3;

/// The page that tells of a failed load.
pub open spec fn error_page(failed_url: Seq<char>, error_text: Seq<char>, error_code: int) -> Seq<char> {
    "<html><body bgcolor='white'><h2>Failed to load!</h2><p>Failed to load URL '"@ + failed_url
        + "' with error: "@ + error_text + " ("@ + decimal(error_code) + ").</p></body></html>"@
}

/// The slots of CEF's `cef_load_handler_t` table, each filled or empty.
#[derive(Debug, Clone, Copy, PartialEq, Eq)]
pub struct LoadHandlerCallbacks {
    pub on_loading_state_change: bool,
    pub on_load_end: bool,
    pub on_load_error: bool,
    pub on_load_start: bool,
}

impl LoadHandlerCallbacks {
    /// The slots that this object fills: the others stay empty.
    pub open spec fn installed() -> LoadHandlerCallbacks {
        LoadHandlerCallbacks {
            on_loading_state_change: false,
            on_load_end: false,
            on_load_error: true,
            on_load_start: false,
        }
    }
}

/// The load handler, told when a page fails to load.
#[derive(Debug)]
pub struct LoadHandler {
    pub callbacks: LoadHandlerCallbacks,
    /// Whether the link back to the owning `Handler` is set.
    pub linked: bool,
    pub ref_count: RefCount,
}

impl LoadHandler {
    /// The object as `allocate` makes it, with the back-link set or not.
    pub open spec fn fresh(linked: bool) -> LoadHandler {
        LoadHandler { callbacks: LoadHandlerCallbacks::installed(), linked, ref_count: RefCount { count: 1 } }
    }

    /// The same object with its back-link set.
    pub open spec fn with_link(self) -> LoadHandler {
        LoadHandler { callbacks: self.callbacks, linked: true, ref_count: self.ref_count }
    }

    /// The same object holding one more reference.
    pub open spec fn referenced(self) -> LoadHandler {
        LoadHandler { callbacks: self.callbacks, linked: self.linked, ref_count: RefCount { count: counted_up(self.ref_count.count) } }
    }

    /// The same object once every reference it held is given back.
    pub open spec fn released(self) -> LoadHandler {
        LoadHandler { callbacks: self.callbacks, linked: self.linked, ref_count: RefCount { count: all_released(self.ref_count.count) } }
    }

    /// A new load handler: the slots above are filled, the back-link is
    /// unset and one reference is held.
    pub fn allocate() -> (r: LoadHandler)
        ensures
            r == LoadHandler::fresh(false),
    {
        LoadHandler {
            callbacks: LoadHandlerCallbacks {
                on_loading_state_change: false,
                on_load_end: false,
                on_load_error: true,
                on_load_start: false,
            },
            linked: false,
            ref_count: RefCount::new(1),
        }
    }

    /// A page failed to load. No page is made for an aborted load, so that
    /// nothing is shown for a download; any other failure gets a page that
    /// names the URL, the error text and the error code.
    pub fn on_load_error(error_code: i32, error_text: &str, failed_url: &str) -> (page: Option<String>)
        ensures
            page is None <==> error_code == ERR_ABORTED,
            page matches Some(p) ==> p@ == error_page(failed_url@, error_text@, error_code as int),
    {
        if error_code == ERR_ABORTED {
            return None;
        }
        let mut page = String::from_str(
            "<html><body bgcolor='white'><h2>Failed to load!</h2><p>Failed to load URL '",
        );
        page.append(failed_url);
        page.append("' with error: ");
        page.append(error_text);
        page.append(" (");
        let code = decimal_string(error_code);
        page.append(code.as_str());
        page.append(").</p></body></html>");
        assert(page@ =~= error_page(failed_url@, error_text@, error_code as int));
        Some(page)
    }
}

/// A new load handler fills exactly these slots of its table, the ones
/// CEF calls it through, and leaves every other one empty: `on_load_error`.
pub proof fn lemma_load_handler_slots()
    ensures
        !LoadHandlerCallbacks::installed().on_loading_state_change,
        !LoadHandlerCallbacks::installed().on_load_end,
        LoadHandlerCallbacks::installed().on_load_error,
        !LoadHandlerCallbacks::installed().on_load_start,
{
}

/// The load handler: a new one holds one reference and carries the
/// link it is given; setting the link changes nothing else; each hand-out
/// adds one reference to the count and changes nothing else.
/// Giving back every reference leaves none, and nothing else changes.
pub proof fn lemma_load_handler_counting(x: LoadHandler, linked: bool)
    ensures
        LoadHandler::fresh(linked).ref_count.count == 1,
        LoadHandler::fresh(linked).linked == linked,
        LoadHandler::fresh(linked).callbacks == LoadHandlerCallbacks::installed(),
        x.with_link().linked,
        x.with_link().callbacks == x.callbacks,
        x.with_link().ref_count == x.ref_count,
        x.ref_count.count < isize::MAX ==> x.referenced().ref_count.count == x.ref_count.count + 1,
        x.ref_count.count == isize::MAX ==> x.referenced().ref_count.count == isize::MIN,
        x.referenced().callbacks == x.callbacks,
        x.referenced().linked == x.linked,
        x.ref_count.count >= 1 ==> x.released().ref_count.count == 0,
        x.ref_count.count < 1 ==> x.released().ref_count.count == x.ref_count.count,
        x.released().callbacks == x.callbacks,
        x.released().linked == x.linked,
{
}

/// The page for a failed load is the one template, whatever the code: the
/// fixed head, then the failed URL, then `' with error: `, then the error
/// text, then ` (`, then the code in decimal, then the fixed tail.
pub proof fn lemma_error_page_layout(failed_url: Seq<char>, error_text: Seq<char>, error_code: int)
    ensures
        ({
            let page = error_page(failed_url, error_text, error_code);
            let head = "<html><body bgcolor='white'><h2>Failed to load!</h2><p>Failed to load URL '"@;
            let mid = "' with error: "@;
            let open = " ("@;
            let code = decimal(error_code);
            let tail = ").</p></body></html>"@;
            let a = head.len() as int;
            let b = a + failed_url.len();
            let c = b + mid.len();
            let d = c + error_text.len();
            let e = d + open.len();
            let g = e + code.len();
            &&& page.len() == g + tail.len()
            &&& page.subrange(0, a) == head
            &&& page.subrange(a, b) == failed_url
            &&& page.subrange(b, c) == mid
            &&& page.subrange(c, d) == error_text
            &&& page.subrange(d, e) == open
            &&& page.subrange(e, g) == code
            &&& page.subrange(g, page.len() as int) == tail
        }),
{
    let page = error_page(failed_url, error_text, error_code);
    let head = "<html><body bgcolor='white'><h2>Failed to load!</h2><p>Failed to load URL '"@;
    let mid = "' with error: "@;
    let open = " ("@;
    let code = decimal(error_code);
    let tail = ").</p></body></html>"@;
    let a = head.len() as int;
    let b = a + failed_url.len();
    let c = b + mid.len();
    let d = c + error_text.len();
    let e = d + open.len();
    let g = e + code.len();
    assert(page =~= head + failed_url + mid + error_text + open + code + tail);
    assert(page.subrange(0, a) =~= head);
    assert(page.subrange(a, b) =~= failed_url);
    assert(page.subrange(b, c) =~= mid);
    assert(page.subrange(c, d) =~= error_text);
    assert(page.subrange(d, e) =~= open);
    assert(page.subrange(e, g) =~= code);
    assert(page.subrange(g, page.len() as int) =~= tail);
}

} // verus!
