use cef::handler::client::Client;
use cef::handler::display_handler::DisplayHandler;
use cef::handler::life_span_handler::LifeSpanHandler;
use cef::handler::load_handler::{LoadHandler, ERR_ABORTED};
use cef::handler::render_handler::RenderHandler;
use cef::handler::Handler;

#[test]
fn new_handler_links_fresh_objects() {
    let handler = Handler::new();
    assert!(handler.client.linked);
    assert!(handler.display_handler.linked);
    assert!(handler.life_span_handler.linked);
    assert!(handler.load_handler.linked);
    assert_eq!(handler.client.ref_count.load(), 1);
    assert_eq!(handler.display_handler.ref_count.load(), 1);
    assert_eq!(handler.life_span_handler.ref_count.load(), 1);
    assert_eq!(handler.load_handler.ref_count.load(), 1);
    assert!(handler.browsers.is_empty());
    assert!(!handler.is_closing);
}

#[test]
fn allocated_objects_are_unlinked_and_fill_their_slots() {
    let client = Client::allocate();
    assert!(!client.linked);
    assert!(client.callbacks.get_display_handler);
    assert!(client.callbacks.get_life_span_handler);
    assert!(client.callbacks.get_load_handler);
    assert!(!client.callbacks.get_render_handler);
    assert!(!client.callbacks.on_process_message_received);
    let display = DisplayHandler::allocate();
    assert!(display.callbacks.on_title_change);
    assert!(!display.callbacks.on_tooltip);
    let life_span = LifeSpanHandler::allocate();
    assert!(life_span.callbacks.on_after_created && life_span.callbacks.on_before_close);
    assert!(life_span.callbacks.do_close && !life_span.callbacks.on_before_popup);
    let load = LoadHandler::allocate();
    assert!(load.callbacks.on_load_error && !load.callbacks.on_load_end);
    let render = RenderHandler::allocate();
    assert!(render.callbacks.on_virtual_keyboard_requested);
    assert!(!render.callbacks.on_paint);
    assert_eq!(render.ref_count.load(), 1);
}

#[test]
fn each_pointer_takes_one_reference_to_its_object() {
    let mut handler = Handler::new();
    handler.client_ptr();
    handler.client_ptr();
    handler.display_handler_ptr();
    handler.life_span_handler_ptr();
    handler.load_handler_ptr();
    handler.load_handler_ptr();
    handler.load_handler_ptr();
    assert_eq!(handler.client.ref_count.load(), 3);
    assert_eq!(handler.display_handler.ref_count.load(), 2);
    assert_eq!(handler.life_span_handler.ref_count.load(), 2);
    assert_eq!(handler.load_handler.ref_count.load(), 4);
}

#[test]
fn client_hands_out_the_handlers() {
    let mut handler = Handler::new();
    Client::get_display_handler(&mut handler);
    Client::get_life_span_handler(&mut handler);
    Client::get_life_span_handler(&mut handler);
    Client::get_load_handler(&mut handler);
    assert_eq!(handler.client.ref_count.load(), 1);
    assert_eq!(handler.display_handler.ref_count.load(), 2);
    assert_eq!(handler.life_span_handler.ref_count.load(), 3);
    assert_eq!(handler.load_handler.ref_count.load(), 2);
}

#[test]
fn release_all_destroys_each_object_once() {
    let mut handler = Handler::new();
    handler.client_ptr();
    assert_eq!(handler.display_handler.ref_count.release(), 1);
    let freed = handler.release_all();
    assert_eq!(freed, (true, false, true, true));
    assert_eq!(handler.client.ref_count.load(), 0);
    assert_eq!(handler.display_handler.ref_count.load(), 0);
    assert_eq!(handler.life_span_handler.ref_count.load(), 0);
    assert_eq!(handler.load_handler.ref_count.load(), 0);
}

#[test]
fn browsers_open_and_close_in_any_order() {
    let mut handler = Handler::new();
    LifeSpanHandler::on_after_created(&mut handler, 7);
    LifeSpanHandler::on_after_created(&mut handler, 9);
    LifeSpanHandler::on_after_created(&mut handler, 11);
    assert_eq!(handler.browsers, vec![7, 9, 11]);
    assert!(!LifeSpanHandler::on_before_close(&mut handler, 9));
    assert_eq!(handler.browsers, vec![7, 11]);
    assert!(!LifeSpanHandler::on_before_close(&mut handler, 7));
    assert_eq!(handler.browsers, vec![11]);
    assert!(LifeSpanHandler::on_before_close(&mut handler, 11));
    assert!(handler.browsers.is_empty());
}

#[test]
fn closing_removes_only_the_first_same_browser() {
    let mut handler = Handler::new();
    LifeSpanHandler::on_after_created(&mut handler, 3);
    LifeSpanHandler::on_after_created(&mut handler, 4);
    LifeSpanHandler::on_after_created(&mut handler, 3);
    assert!(!LifeSpanHandler::on_before_close(&mut handler, 3));
    assert_eq!(handler.browsers, vec![4, 3]);
}

#[test]
fn closing_an_unknown_browser_keeps_the_list() {
    let mut handler = Handler::new();
    LifeSpanHandler::on_after_created(&mut handler, 5);
    assert!(!LifeSpanHandler::on_before_close(&mut handler, 6));
    assert_eq!(handler.browsers, vec![5]);
    let mut empty = Handler::new();
    assert!(LifeSpanHandler::on_before_close(&mut empty, 6));
    assert!(empty.browsers.is_empty());
}

#[test]
fn do_close_marks_closing_for_the_last_browser() {
    let mut handler = Handler::new();
    assert_eq!(LifeSpanHandler::do_close(&mut handler), 0);
    assert!(!handler.is_closing);
    LifeSpanHandler::on_after_created(&mut handler, 1);
    LifeSpanHandler::on_after_created(&mut handler, 2);
    assert_eq!(LifeSpanHandler::do_close(&mut handler), 0);
    assert!(!handler.is_closing);
    LifeSpanHandler::on_before_close(&mut handler, 1);
    assert_eq!(LifeSpanHandler::do_close(&mut handler), 0);
    assert!(handler.is_closing);
    assert_eq!(handler.browsers, vec![2]);
}

#[test]
fn aborted_load_gets_no_page() {
    assert_eq!(ERR_ABORTED, -3);
    assert_eq!(LoadHandler::on_load_error(-3, "net::ERR_ABORTED", "https://example.com/file.zip"), None);
}

#[test]
fn failed_load_gets_an_error_page() {
    let page = LoadHandler::on_load_error(-105, "net::ERR_NAME_NOT_RESOLVED", "https://nowhere.invalid/");
    assert_eq!(
        page,
        Some(format!(
            "<html><body bgcolor='white'><h2>Failed to load!</h2><p>Failed to load URL '{}' with error: {} ({}).</p></body></html>",
            "https://nowhere.invalid/", "net::ERR_NAME_NOT_RESOLVED", -105
        ))
    );
    let page = LoadHandler::on_load_error(0, "", "");
    assert_eq!(
        page.unwrap(),
        "<html><body bgcolor='white'><h2>Failed to load!</h2><p>Failed to load URL '' with error:  (0).</p></body></html>"
    );
}

#[test]
fn title_is_set_only_on_a_window_of_a_view() {
    assert!(DisplayHandler::on_title_change(true, true));
    assert!(!DisplayHandler::on_title_change(true, false));
    assert!(!DisplayHandler::on_title_change(false, false));
}

#[test]
fn repeated_client_pointers_add_one_reference_each() {
    let mut handler = Handler::new();
    for _ in 0..5 {
        handler.client_ptr();
    }
    assert_eq!(handler.client.ref_count.load(), 6);
    assert_eq!(handler.display_handler.ref_count.load(), 1);
    assert_eq!(handler.life_span_handler.ref_count.load(), 1);
    assert_eq!(handler.load_handler.ref_count.load(), 1);
}
