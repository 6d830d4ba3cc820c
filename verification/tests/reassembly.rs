use chatsounds_plugin::reassembly::{starts_continuation, ChatReassembler};

#[test]
fn new_reassembler_stores_nothing() {
    let r = ChatReassembler::new();
    assert_eq!(r.last_line(), None);
}

#[test]
fn top_level_line_is_forwarded_unchanged_and_stored() {
    let mut r = ChatReassembler::new();
    let out = r.reassemble("hello there");
    assert_eq!(out, "hello there");
    assert_eq!(r.last_line(), Some("hello there"));
}

#[test]
fn top_level_line_overwrites_the_stored_one() {
    let mut r = ChatReassembler::new();
    r.reassemble("first");
    let out = r.reassemble("second");
    assert_eq!(out, "second");
    assert_eq!(r.last_line(), Some("second"));
}

#[test]
fn continuation_is_joined_with_one_space() {
    let mut r = ChatReassembler::new();
    r.reassemble("hello there");
    let out = r.reassemble("> &fworld");
    assert_eq!(out, "hello there world");
}

#[test]
fn continuation_leaves_the_stored_line() {
    let mut r = ChatReassembler::new();
    r.reassemble("hello there");
    r.reassemble("> &fworld");
    assert_eq!(r.last_line(), Some("hello there"));
    let out = r.reassemble("> &fagain");
    assert_eq!(out, "hello there again");
}

#[test]
fn continuation_with_nothing_stored_forwards_the_payload() {
    let mut r = ChatReassembler::new();
    let out = r.reassemble("> &fworld");
    assert_eq!(out, "world");
    assert_eq!(r.last_line(), None);
}

#[test]
fn continuation_after_an_empty_top_level_line() {
    let mut r = ChatReassembler::new();
    assert_eq!(r.reassemble(""), "");
    assert_eq!(r.last_line(), Some(""));
    assert_eq!(r.reassemble("> &fworld"), " world");
}

#[test]
fn bare_prefix_has_an_empty_payload() {
    let mut r = ChatReassembler::new();
    r.reassemble("hello");
    assert_eq!(r.reassemble("> &f"), "hello ");
}

#[test]
fn prefix_is_recognised_exactly() {
    assert!(starts_continuation("> &f"));
    assert!(starts_continuation("> &fworld"));
    assert!(!starts_continuation(""));
    assert!(!starts_continuation(">"));
    assert!(!starts_continuation("> &"));
    assert!(!starts_continuation("> &e"));
    assert!(!starts_continuation(">  &f"));
    assert!(!starts_continuation(" > &f"));
    assert!(!starts_continuation("hello > &f"));
}

#[test]
fn wide_characters_are_kept_whole() {
    let mut r = ChatReassembler::new();
    assert_eq!(r.reassemble("h\u{e9}llo \u{8d8a}"), "h\u{e9}llo \u{8d8a}");
    assert_eq!(r.reassemble("> &fw\u{f6}rld"), "h\u{e9}llo \u{8d8a} w\u{f6}rld");
}
