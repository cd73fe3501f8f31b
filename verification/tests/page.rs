//! The text of the page.

use stratus::page::{repeats, PLAIN_REPEATS, TLS_REPEATS};
use stratus::{handler, page, repeat_text, Transport, GREETING};

#[test]
fn greeting_is_the_fixed_fragment() {
    assert_eq!(GREETING, "<h1>Hello, World!</h1>");
    assert_eq!(GREETING.len(), 22);
}

#[test]
fn handler_repeats_the_greeting_a_hundred_times() {
    let body = handler();
    assert_eq!(body, "<h1>Hello, World!</h1>".repeat(100));
    assert_eq!(body.len(), 2200);
    assert!(body.len() > 100);
    assert!(body.contains("<h1>Hello, World!</h1>"));
}

#[test]
fn handler_answers_the_same_every_time() {
    assert_eq!(handler(), handler());
}

#[test]
fn every_stretch_of_the_page_is_the_greeting() {
    let body = handler();
    for k in 0..100 {
        assert_eq!(&body[22 * k..22 * k + 22], GREETING);
    }
}

#[test]
fn handler_is_the_tls_page() {
    assert_eq!(handler(), page(Transport::Tls));
}

#[test]
fn plain_page_is_the_greeting_once() {
    assert_eq!(page(Transport::Plain), "<h1>Hello, World!</h1>");
}

#[test]
fn repeats_by_transport() {
    assert_eq!(repeats(Transport::Plain), 1);
    assert_eq!(repeats(Transport::Tls), 100);
    assert_eq!(PLAIN_REPEATS, 1);
    assert_eq!(TLS_REPEATS, 100);
}

#[test]
fn repeat_text_zero_times_is_empty() {
    assert_eq!(repeat_text("abc", 0), "");
}

#[test]
fn repeat_text_of_nothing_is_empty() {
    assert_eq!(repeat_text("", 7), "");
}

#[test]
fn repeat_text_writes_each_copy() {
    assert_eq!(repeat_text("ab", 1), "ab");
    assert_eq!(repeat_text("ab", 3), "ababab");
    assert_eq!(repeat_text("é!", 2), "é!é!");
}

#[test]
fn repeat_text_agrees_with_std() {
    for times in 0..20 {
        assert_eq!(repeat_text("xyz", times), "xyz".repeat(times));
        assert_eq!(repeat_text("xyz", times).len(), 3 * times);
    }
}
