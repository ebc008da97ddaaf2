use boardpilot_bridge::event::Event;
use boardpilot_bridge::manager::ConnectionManager;
use boardpilot_bridge::reader::Reader;
use boardpilot_bridge::text::decode_chunk;

fn connect(manager: &mut ConnectionManager, dialed: bool) -> Option<u64> {
    let _shutdown = manager.connect_begin();
    assert!(manager.next_generation() < u64::MAX);
    manager.connect_finish(dialed)
}

#[test]
fn send_with_no_connection_is_noop() {
    let manager = ConnectionManager::new();
    assert!(manager.send_plan("hello").is_none());
}

#[test]
fn connect_refused_returns_false_and_no_events() {
    let mut manager = ConnectionManager::new();
    let shutdown = manager.connect_begin();
    assert_eq!(shutdown, None);
    let opened = manager.connect_finish(false);
    assert_eq!(opened, None);
    assert!(!manager.is_current(0));
    assert!(manager.send_plan("hello").is_none());
}

#[test]
fn failed_reconnect_leaves_no_current_connection() {
    let mut manager = ConnectionManager::new();
    let id = connect(&mut manager, true).expect("dial succeeded");
    assert!(manager.is_current(id));
    let shutdown = manager.connect_begin();
    assert_eq!(shutdown, Some(id));
    let opened = manager.connect_finish(false);
    assert_eq!(opened, None);
    assert!(!manager.is_current(id));
    assert!(manager.send_plan("hello").is_none());
}

#[test]
fn echo_session_event_sequence() {
    let mut manager = ConnectionManager::new();
    let id = connect(&mut manager, true).expect("dial succeeded");

    let mut observed: Vec<Event> = Vec::new();
    let (mut reader, opened) = Reader::spawn(id);
    observed.push(opened);
    observed.push(reader.on_data(b"hello"));
    observed.push(reader.on_eof());

    assert_eq!(
        observed,
        vec![
            Event::Opened,
            Event::Message(String::from("hello")),
            Event::Closed,
        ]
    );
}

#[test]
fn send_ping_writes_exactly_four_bytes() {
    let mut manager = ConnectionManager::new();
    let id = connect(&mut manager, true).expect("dial succeeded");
    let op = manager.send_plan("ping").expect("a connection is current");
    assert_eq!(op.conn, id);
    assert_eq!(op.bytes, b"ping".to_vec());
    assert_eq!(op.bytes.len(), 4);
}

#[test]
fn send_plan_encodes_utf8_without_framing() {
    let mut manager = ConnectionManager::new();
    connect(&mut manager, true).expect("dial succeeded");
    let op = manager.send_plan("héllo\u{2713}").expect("a connection is current");
    assert_eq!(op.bytes, "héllo\u{2713}".as_bytes().to_vec());
    let empty = manager.send_plan("").expect("a connection is current");
    assert_eq!(empty.bytes, Vec::<u8>::new());
}

#[test]
fn reconnect_replaces_old_connection() {
    let mut manager = ConnectionManager::new();
    let first = connect(&mut manager, true).expect("dial succeeded");
    let (mut old_reader, _) = Reader::spawn(first);

    let shutdown = manager.connect_begin();
    assert_eq!(shutdown, Some(first));
    assert!(manager.next_generation() < u64::MAX);
    let second = manager.connect_finish(true).expect("dial succeeded");
    assert_ne!(second, first);
    assert!(!manager.is_current(first));
    assert!(manager.is_current(second));

    // The old reader observes the forced shutdown as a read error; because
    // its connection is no longer current, it exits without an event.
    let still_current = manager.is_current(first);
    assert_eq!(old_reader.on_error(still_current), None);

    // The new connection gets exactly one Opened of its own.
    let (_new_reader, opened) = Reader::spawn(second);
    assert_eq!(opened, Event::Opened);
}

#[test]
fn read_error_on_current_connection_emits_closed() {
    let mut manager = ConnectionManager::new();
    let id = connect(&mut manager, true).expect("dial succeeded");
    let (mut reader, _) = Reader::spawn(id);
    let still_current = manager.is_current(id);
    assert_eq!(reader.on_error(still_current), Some(Event::Closed));
}

#[test]
fn opened_comes_first_and_only_once() {
    let (mut reader, first) = Reader::spawn(7);
    let mut observed = vec![first];
    observed.push(reader.on_data(b"a"));
    observed.push(reader.on_data(b"b"));
    observed.push(reader.on_eof());
    assert_eq!(observed[0], Event::Opened);
    assert!(observed[1..].iter().all(|e| *e != Event::Opened));
    assert_eq!(observed.last(), Some(&Event::Closed));
}

#[test]
fn trailing_nul_padding_is_trimmed() {
    let mut buffer = vec![0u8; 4096];
    buffer[..2].copy_from_slice(b"hi");
    assert_eq!(decode_chunk(&buffer), "hi");
}

#[test]
fn leading_and_interior_nuls_are_kept() {
    assert_eq!(decode_chunk(b"\0\0hi"), "\0\0hi");
    assert_eq!(decode_chunk(b"a\0b"), "a\0b");
    assert_eq!(decode_chunk(b"a\0b\0\0"), "a\0b");
}

#[test]
fn invalid_utf8_is_replaced_not_echoed() {
    assert_eq!(decode_chunk(&[0xFF, b'a']), "\u{FFFD}a");
    assert_eq!(decode_chunk(&[0xC2, 0x00, b'x']), "\u{FFFD}\0x");
}

#[test]
fn nul_only_and_empty_chunks_decode_to_empty() {
    assert_eq!(decode_chunk(&[0u8; 5]), "");
    assert_eq!(decode_chunk(b""), "");
}

#[test]
fn multibyte_text_survives_decoding() {
    assert_eq!(decode_chunk("héllo\u{2713}".as_bytes()), "héllo\u{2713}");
}

#[test]
fn chunked_reads_reassemble() {
    let (mut reader, _) = Reader::spawn(1);
    let events = vec![reader.on_data(b"he\0\0"), reader.on_data(b"llo")];
    let mut reassembled = String::new();
    for event in events {
        match event {
            Event::Message(text) => reassembled.push_str(&text),
            _ => panic!("expected a message"),
        }
    }
    assert_eq!(reassembled, "hello");
}

#[test]
fn message_events_carry_decoded_text() {
    let (mut reader, _) = Reader::spawn(0);
    let event = reader.on_data(b"ping\0\0");
    assert_eq!(event, Event::Message(String::from("ping")));
}
