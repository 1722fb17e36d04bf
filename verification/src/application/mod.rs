//! The application: the objects that CEF is started with.
use vstd::prelude::*;

pub mod app;
pub mod browser_process_handler;
pub mod browser_view_delegate;
pub mod window_delegate;

use app::App;
use browser_process_handler::BrowserProcessHandler;

verus! {

/// How a browser view is found again: an opaque handle that the embedder
/// gives out and the library only keeps and hands back.
pub type ViewHandle = usize;

/// The application object and the browser process handler that CEF is
/// started with.
#[derive(Debug)]
pub struct Application {
    pub app: App,
    pub browser_process_handler: BrowserProcessHandler,
}

impl Application {
    /// A new application: a new application object and a new browser
    /// process handler, each holding one reference and linked back to it.
    pub fn new() -> (application: Application)
        ensures
            application.app == App::fresh(true),
            application.browser_process_handler == BrowserProcessHandler::fresh(true),
    {
        let mut application = Application {
            app: App::allocate(),
            browser_process_handler: BrowserProcessHandler::allocate(),
        };
        application.apply_pointers();
        application
    }

    /// Links both objects back to the application.
    pub fn apply_pointers(&mut self)
        ensures
            final(self).app == old(self).app.with_link(),
            final(self).browser_process_handler == old(self).browser_process_handler.with_link(),
    {
        self.app.linked = true;
        self.browser_process_handler.linked = true;
    }

    /// Hands out one more reference to the application object.
    pub fn app_ptr(&mut self)
        ensures
            final(self).app == old(self).app.referenced(),
            final(self).browser_process_handler == old(self).browser_process_handler,
            old(self).app.ref_count.count < isize::MAX ==> final(self).app.ref_count.count == old(self).app.ref_count.count + 1,
    {
        self.app.ref_count.add_ref();
    }

    /// Hands out one more reference to the browser process handler.
    pub fn browser_process_handler_ptr(&mut self)
        ensures
            final(self).app == old(self).app,
            final(self).browser_process_handler == old(self).browser_process_handler.referenced(),
            old(self).browser_process_handler.ref_count.count < isize::MAX ==> final(self).browser_process_handler.ref_count.count == old(self).browser_process_handler.ref_count.count + 1,
    {
        self.browser_process_handler.ref_count.add_ref();
    }

    /// Gives back every reference that the two objects still hold, as the
    /// application goes away. The result tells whether the application
    /// object and the browser process handler were reported destroyed,
    /// and, when the handler was destroyed holding a handler of browsers,
    /// which objects of that one were.
    pub fn release_all(&mut self) -> (freed: (bool, bool, Option<(bool, bool, bool, bool)>))
        ensures
            final(self).app == old(self).app.released(),
            final(self).browser_process_handler.callbacks == old(self).browser_process_handler.callbacks,
            final(self).browser_process_handler.linked == old(self).browser_process_handler.linked,
            final(self).browser_process_handler.ref_count.count == crate::ref_count::all_released(
                old(self).browser_process_handler.ref_count.count,
            ),
            freed.0 == (old(self).app.ref_count.count >= 1),
            freed.1 == (old(self).browser_process_handler.ref_count.count >= 1),
            freed.1 ==> final(self).browser_process_handler.handler is None,
            !freed.1 ==> final(self).browser_process_handler.handler == old(self).browser_process_handler.handler,
            freed.2 == (if freed.1 {
                match old(self).browser_process_handler.handler {
                    Some(h) => Some((
                        h.client.ref_count.count >= 1,
                        h.display_handler.ref_count.count >= 1,
                        h.life_span_handler.ref_count.count >= 1,
                        h.load_handler.ref_count.count >= 1,
                    )),
                    None => None,
                }
            } else {
                None
            }),
            old(self).app.ref_count.count >= 1 ==> final(self).app.ref_count.count == 0,
            old(self).browser_process_handler.ref_count.count >= 1 ==> final(self).browser_process_handler.ref_count.count == 0,
    {
        let app_freed = self.app.ref_count.release_all();
        let handler_freed = self.browser_process_handler.ref_count.release_all();
        let inner = if handler_freed {
            self.browser_process_handler.destroy()
        } else {
            None
        };
        (app_freed, handler_freed, inner)
    }
}

} // verus!
