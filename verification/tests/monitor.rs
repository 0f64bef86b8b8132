use activity_tracker::monitor::{decode_measured, process_name, window_title, ProcessLookup};
use activity_tracker::ActivityEvent;

fn units(text: &str, capacity: usize) -> Vec<u16> {
    let mut buffer: Vec<u16> = text.encode_utf16().collect();
    buffer.resize(capacity, 0);
    buffer
}

#[test]
fn decode_measured_reads_the_measured_prefix() {
    let buffer = units("notepad.exe", 260);
    assert_eq!(decode_measured(&buffer, 11), "notepad.exe");
    assert_eq!(decode_measured(&buffer, 7), "notepad");
    assert_eq!(decode_measured(&buffer, 0), "");
}

#[test]
fn decode_measured_stops_at_the_capacity() {
    let buffer: Vec<u16> = "abcd".encode_utf16().collect();
    assert_eq!(decode_measured(&buffer, 4), "abcd");
    assert_eq!(decode_measured(&buffer, 5), "abcd");
    assert_eq!(decode_measured(&buffer, usize::MAX), "abcd");
    assert_eq!(decode_measured(&[], 3), "");
}

#[test]
fn decode_measured_replaces_what_is_not_utf16() {
    let buffer: [u16; 3] = [0x0041, 0xD800, 0x0042];
    assert_eq!(decode_measured(&buffer, 3), "A\u{FFFD}B");
}

#[test]
fn decode_measured_joins_surrogate_pairs() {
    let buffer: [u16; 3] = [0xD83D, 0xDE00, 0x0021];
    assert_eq!(decode_measured(&buffer, 3), "\u{1F600}!");
    assert_eq!(decode_measured(&buffer, 1), "\u{FFFD}");
}

#[test]
fn window_title_reads_the_measured_prefix() {
    let buffer = units("Untitled - Notepad", 512);
    assert_eq!(window_title(&buffer, 18), "Untitled - Notepad");
    assert_eq!(window_title(&buffer, 8), "Untitled");
}

#[test]
fn window_title_is_empty_where_no_text_was_reported() {
    let buffer = units("stale caption", 512);
    assert_eq!(window_title(&buffer, 0), "");
    assert_eq!(window_title(&buffer, -1), "");
    assert_eq!(window_title(&buffer, i32::MIN), "");
    assert_eq!(window_title(&[], 0), "");
}

#[test]
fn window_title_stops_at_the_capacity() {
    let buffer: Vec<u16> = "full".encode_utf16().collect();
    assert_eq!(window_title(&buffer, i32::MAX), "full");
}

#[test]
fn window_without_a_caption_still_makes_an_event() {
    let buffer = [0u16; 512];
    let name = units("explorer.exe", 260);
    let event = ActivityEvent {
        title: window_title(&buffer, 0),
        process_name: process_name(ProcessLookup::Answered { buffer: &name, len: 12 }),
    };
    assert_eq!(event.title, "");
    assert_eq!(event.process_name, "explorer.exe");
}

#[test]
fn process_name_of_a_denied_lookup_is_the_fallback() {
    assert_eq!(process_name(ProcessLookup::Denied), "System/Protected");
}

#[test]
fn process_name_of_an_empty_answer_is_unknown() {
    let buffer = units("stale.exe", 260);
    assert_eq!(process_name(ProcessLookup::Answered { buffer: &buffer, len: 0 }), "Unknown");
}

#[test]
fn process_name_of_an_answer_is_its_text() {
    let buffer = units("explorer.exe", 260);
    assert_eq!(process_name(ProcessLookup::Answered { buffer: &buffer, len: 12 }), "explorer.exe");
    assert_eq!(process_name(ProcessLookup::Answered { buffer: &buffer, len: 8 }), "explorer");
}

#[test]
fn process_name_stops_at_the_capacity() {
    let buffer: Vec<u16> = "a.exe".encode_utf16().collect();
    assert_eq!(process_name(ProcessLookup::Answered { buffer: &buffer, len: u32::MAX }), "a.exe");
}

#[test]
fn events_compare_by_their_text() {
    let one = ActivityEvent { title: "T".to_string(), process_name: "p".to_string() };
    let same = one.clone();
    let other = ActivityEvent { title: "T".to_string(), process_name: "q".to_string() };
    assert_eq!(one, same);
    assert_ne!(one, other);
}
