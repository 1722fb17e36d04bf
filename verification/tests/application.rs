use cef::application::app::App;
use cef::application::browser_process_handler::BrowserProcessHandler;
use cef::application::browser_view_delegate::BrowserViewDelegate;
use cef::application::window_delegate::{CanClose, CefSize, WindowDelegate};
use cef::application::Application;
use cef::handler::Handler;

#[test]
fn new_application_links_fresh_objects() {
    let application = Application::new();
    assert!(application.app.linked);
    assert!(application.browser_process_handler.linked);
    assert_eq!(application.app.ref_count.load(), 1);
    assert_eq!(application.browser_process_handler.ref_count.load(), 1);
    assert!(application.browser_process_handler.handler.is_none());
    assert!(application.app.callbacks.get_browser_process_handler);
    assert!(!application.app.callbacks.get_render_process_handler);
}

#[test]
fn allocated_objects_start_unlinked() {
    let app = App::allocate();
    assert!(!app.linked);
    assert_eq!(app.ref_count.load(), 1);
    let handler = BrowserProcessHandler::allocate();
    assert!(!handler.linked);
    assert!(handler.callbacks.on_context_initialized);
    assert!(handler.callbacks.get_default_client);
    assert!(!handler.callbacks.on_schedule_message_pump_work);
}

#[test]
fn pointers_take_references() {
    let mut application = Application::new();
    application.app_ptr();
    application.browser_process_handler_ptr();
    App::get_browser_process_handler(&mut application);
    assert_eq!(application.app.ref_count.load(), 2);
    assert_eq!(application.browser_process_handler.ref_count.load(), 3);
}

#[test]
fn context_start_opens_the_start_page() {
    let start = BrowserProcessHandler::on_context_initialized();
    assert_eq!(start.url, "https://google.ca");
    assert_eq!(start.handler.client.ref_count.load(), 2);
    assert_eq!(start.handler.display_handler.ref_count.load(), 1);
    assert!(start.handler.client.linked);
    assert!(start.browser_view_delegate.callbacks.on_popup_browser_view_created);
    assert!(!start.browser_view_delegate.callbacks.on_browser_created);
    assert_eq!(start.browser_view_delegate.ref_count.load(), 1);
}

#[test]
fn default_client_only_after_context_start() {
    let mut application = Application::new();
    let process = &mut application.browser_process_handler;
    assert!(!process.get_default_client());
    let start = BrowserProcessHandler::on_context_initialized();
    assert_eq!(process.attach_handler(start.handler), None);
    assert!(process.get_default_client());
    assert_eq!(process.handler.as_ref().unwrap().client.ref_count.load(), 3);
    assert_eq!(process.ref_count.load(), 1);
}

#[test]
fn release_all_takes_the_handler_along() {
    let mut application = Application::new();
    let mut handler = Handler::new();
    handler.client_ptr();
    assert_eq!(application.browser_process_handler.attach_handler(handler), None);
    application.app_ptr();
    let freed = application.release_all();
    assert_eq!(freed, (true, true, Some((true, true, true, true))));
    assert_eq!(application.app.ref_count.load(), 0);
    assert_eq!(application.browser_process_handler.ref_count.load(), 0);
    assert!(application.browser_process_handler.handler.is_none());
}

#[test]
fn release_all_after_cef_let_go() {
    let mut application = Application::new();
    assert_eq!(application.browser_process_handler.ref_count.release(), 1);
    let freed = application.release_all();
    assert_eq!(freed, (true, false, None));
}

#[test]
fn popup_gets_its_own_window() {
    let (window, result) = BrowserViewDelegate::on_popup_browser_view_created(Some(0x1000));
    assert_eq!(result, 1);
    assert_eq!(window.browser_view, Some(0x1000));
    assert_eq!(window.ref_count.load(), 1);
    assert!(window.callbacks.can_close && window.callbacks.on_window_created);
    assert!(!window.callbacks.is_frameless);
}

#[test]
fn window_delegate_shows_and_lets_go_of_its_view() {
    let mut window = WindowDelegate::allocate(Some(42));
    assert_eq!(window.on_window_created(), 42);
    assert_eq!(WindowDelegate::get_preferred_size(), CefSize { width: 800, height: 600 });
    assert_eq!(window.can_close(true), CanClose { result: 1, try_close_browser: true });
    assert_eq!(window.can_close(false), CanClose { result: 1, try_close_browser: false });
    window.on_window_destroyed();
    assert_eq!(window.browser_view, None);
}

#[test]
fn attaching_a_new_handler_lets_the_old_one_go() {
    let mut process = BrowserProcessHandler::allocate();
    let mut first = Handler::new();
    assert_eq!(first.load_handler.ref_count.release(), 1);
    assert_eq!(process.attach_handler(first), None);
    let second = Handler::new();
    assert_eq!(process.attach_handler(second), Some((true, true, true, false)));
    assert_eq!(process.handler.as_ref().unwrap().client.ref_count.load(), 1);
}
