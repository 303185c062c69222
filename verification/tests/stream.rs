use gemini_rs::decode::Decoded;
use gemini_rs::framing::collect;
use gemini_rs::framing::Collected;
use gemini_rs::stream::Event;
use gemini_rs::stream::ParseOutcome;
use gemini_rs::stream::ParseState;
use gemini_rs::stream::Pulled;
use gemini_rs::stream::RouteStream;
use gemini_rs::stream::StreamError;
use gemini_rs::stream::COMPACTION_THRESHOLD;

const THREE: &str = r#" [ {"a":1} , {"b":[1,2,{"c":"x]y"}]},{"d":"\"}"} ] "#;

fn three_items() -> Vec<Vec<u8>> {
    vec![
        br#"{"a":1}"#.to_vec(),
        br#"{"b":[1,2,{"c":"x]y"}]}"#.to_vec(),
        br#"{"d":"\"}"}"#.to_vec(),
    ]
}

fn one_chunk(text: &str) -> Vec<Vec<u8>> {
    vec![text.as_bytes().to_vec()]
}

fn run(chunks: &Vec<Vec<u8>>) -> Collected {
    collect(chunks, COMPACTION_THRESHOLD)
}

fn is_clean(c: &Collected) -> bool {
    c.error.is_none()
}

#[test]
fn array_in_one_chunk_yields_its_elements() {
    let got = run(&one_chunk(THREE));
    assert_eq!(got.items, three_items());
    assert!(is_clean(&got));
}

#[test]
fn array_split_at_every_offset_yields_the_same() {
    let bytes = THREE.as_bytes();
    for cut in 0..=bytes.len() {
        let chunks = vec![bytes[..cut].to_vec(), bytes[cut..].to_vec()];
        let got = run(&chunks);
        assert_eq!(got.items, three_items(), "cut at {}", cut);
        assert!(is_clean(&got), "cut at {}", cut);
    }
}

#[test]
fn array_split_at_every_pair_of_offsets_yields_the_same() {
    let bytes = THREE.as_bytes();
    for first in 0..=bytes.len() {
        for second in first..=bytes.len() {
            let chunks = vec![
                bytes[..first].to_vec(),
                bytes[first..second].to_vec(),
                bytes[second..].to_vec(),
            ];
            let got = run(&chunks);
            assert_eq!(got.items, three_items());
            assert!(is_clean(&got));
        }
    }
}

#[test]
fn array_delivered_byte_by_byte_yields_the_same() {
    let chunks: Vec<Vec<u8>> = THREE.bytes().map(|b| vec![b]).collect();
    let got = run(&chunks);
    assert_eq!(got.items, three_items());
    assert!(is_clean(&got));
}

#[test]
fn empty_chunks_change_nothing() {
    let chunks = vec![
        Vec::new(),
        b"[{\"a\"".to_vec(),
        Vec::new(),
        b":1}".to_vec(),
        Vec::new(),
        b"]".to_vec(),
        Vec::new(),
    ];
    let got = run(&chunks);
    assert_eq!(got.items, vec![br#"{"a":1}"#.to_vec()]);
    assert!(is_clean(&got));
}

#[test]
fn negative_numbers_and_escapes_survive_any_cut() {
    let text = r#"[{"n":-12.5e-3,"s":"é\\","t":true,"z":null},{"k":[]}]"#;
    let want = vec![
        r#"{"n":-12.5e-3,"s":"é\\","t":true,"z":null}"#.as_bytes().to_vec(),
        br#"{"k":[]}"#.to_vec(),
    ];
    let bytes = text.as_bytes();
    for cut in 0..=bytes.len() {
        let got = run(&vec![bytes[..cut].to_vec(), bytes[cut..].to_vec()]);
        assert_eq!(got.items, want, "cut at {}", cut);
        assert!(is_clean(&got), "cut at {}", cut);
    }
}

#[test]
fn transport_without_bytes_ends_cleanly() {
    let got = run(&Vec::new());
    assert!(got.items.is_empty());
    assert!(is_clean(&got));
    let got = run(&vec![Vec::new(), Vec::new()]);
    assert!(got.items.is_empty());
    assert!(is_clean(&got));
}

#[test]
fn whitespace_only_ends_cleanly() {
    let got = run(&one_chunk(" \n\t\r "));
    assert!(got.items.is_empty());
    assert!(is_clean(&got));
}

#[test]
fn opening_bracket_alone_ends_cleanly() {
    let got = run(&one_chunk(" [ \n"));
    assert!(got.items.is_empty());
    assert!(is_clean(&got));
}

#[test]
fn closing_bracket_where_an_element_is_due_is_a_decode_error() {
    for chunks in [one_chunk("[]"), one_chunk(" [ ] "), vec![b"[".to_vec(), b"]".to_vec()]] {
        let got = run(&chunks);
        assert!(got.items.is_empty());
        assert!(matches!(got.error, Some(StreamError::Serde(_))));
    }
}

#[test]
fn end_right_after_closing_bracket_is_clean() {
    let mut s = RouteStream::new();
    assert!(matches!(s.poll_next(), Pulled::Pending));
    match s.resume(Event::Chunk(br#"[{"a":1}]"#.to_vec())) {
        Pulled::Item(frame) => assert_eq!(frame, br#"{"a":1}"#.to_vec()),
        other => panic!("unexpected {:?}", other),
    }
    assert!(matches!(s.poll_next(), Pulled::Finished));
    assert_eq!(s.state(), ParseState::Finished);
    assert!(matches!(s.resume(Event::Closed), Pulled::Finished));
    assert!(matches!(s.poll_next(), Pulled::Finished));
}

#[test]
fn unterminated_object_is_one_incomplete_error() {
    let got = run(&one_chunk(r#"[{"a":1"#));
    assert!(got.items.is_empty());
    match got.error {
        Some(StreamError::Incomplete { state, unparsed }) => {
            assert_eq!(state, ParseState::ReadingValue);
            assert_eq!(unparsed, 6);
        }
        other => panic!("unexpected {:?}", other),
    }
}

#[test]
fn incomplete_error_ends_the_sequence() {
    let mut s = RouteStream::new();
    assert!(matches!(s.resume(Event::Chunk(br#"[{"a":1"#.to_vec())), Pulled::Pending));
    assert_eq!(s.state(), ParseState::ReadingValue);
    assert_eq!(s.unparsed_len(), 6);
    assert!(matches!(
        s.resume(Event::Closed),
        Pulled::Failed(StreamError::Incomplete { state: ParseState::ReadingValue, unparsed: 6 })
    ));
    assert_eq!(s.state(), ParseState::Finished);
    assert!(matches!(s.poll_next(), Pulled::Finished));
}

#[test]
fn dangling_comma_with_text_is_incomplete() {
    let got = run(&one_chunk(r#"[{"a":1},{"b""#));
    assert_eq!(got.items, vec![br#"{"a":1}"#.to_vec()]);
    assert!(matches!(
        got.error,
        Some(StreamError::Incomplete { state: ParseState::ReadingValue, unparsed: 4 })
    ));
}

#[test]
fn element_without_closing_bracket_ends_cleanly_when_all_is_digested() {
    let got = run(&one_chunk(r#"[{"a":1} "#));
    assert_eq!(got.items, vec![br#"{"a":1}"#.to_vec()]);
    assert!(is_clean(&got));
}

#[test]
fn invalid_token_is_one_decode_error() {
    let got = run(&one_chunk(r#"[{"a":}]"#));
    assert!(got.items.is_empty());
    match got.error {
        Some(StreamError::Serde(detail)) => {
            assert_eq!(detail, "expected value at line 1 column 6");
        }
        other => panic!("unexpected {:?}", other),
    }
}

#[test]
fn decode_error_ends_the_sequence() {
    let mut s = RouteStream::new();
    assert!(matches!(
        s.resume(Event::Chunk(br#"[{"a":1},{"a":}]"#.to_vec())),
        Pulled::Item(_)
    ));
    assert!(matches!(s.poll_next(), Pulled::Failed(StreamError::Serde(_))));
    assert_eq!(s.state(), ParseState::Finished);
    assert!(matches!(s.poll_next(), Pulled::Finished));
    assert!(matches!(s.resume(Event::Closed), Pulled::Finished));
}

#[test]
fn invalid_token_is_found_however_the_text_is_cut() {
    let bytes = br#"[{"a":1},{"a":}]"#;
    for cut in 0..=bytes.len() {
        let got = run(&vec![bytes[..cut].to_vec(), bytes[cut..].to_vec()]);
        assert_eq!(got.items, vec![br#"{"a":1}"#.to_vec()], "cut at {}", cut);
        assert!(matches!(got.error, Some(StreamError::Serde(_))), "cut at {}", cut);
    }
}

#[test]
fn foreign_byte_where_a_bracket_is_due_stalls_until_the_end() {
    let mut s = RouteStream::new();
    assert!(matches!(s.resume(Event::Chunk(b" x[{}]".to_vec())), Pulled::Pending));
    assert_eq!(s.state(), ParseState::ReadingChars);
    assert_eq!(s.unparsed_len(), 5);
    assert!(matches!(
        s.resume(Event::Closed),
        Pulled::Failed(StreamError::Incomplete { state: ParseState::ReadingChars, unparsed: 5 })
    ));
}

#[test]
fn bytes_behind_the_closing_bracket_are_left_alone() {
    let got = run(&vec![br#"[{"a":1}] trailing"#.to_vec(), b"more".to_vec()]);
    assert_eq!(got.items, vec![br#"{"a":1}"#.to_vec()]);
    assert!(is_clean(&got));
}

#[test]
fn broken_transport_fails_and_finishes() {
    let mut s = RouteStream::new();
    assert!(matches!(s.resume(Event::Chunk(br#"[{"a""#.to_vec())), Pulled::Pending));
    assert_eq!(s.unparsed_len(), 4);
    assert!(matches!(s.resume(Event::Broken), Pulled::Failed(StreamError::Http)));
    assert_eq!(s.state(), ParseState::Finished);
    assert_eq!(s.unparsed_len(), 0);
    assert_eq!(s.buffered_len(), 0);
    assert!(matches!(s.poll_next(), Pulled::Finished));
}

#[test]
fn new_stream_cannot_advance() {
    let s = RouteStream::new();
    assert_eq!(s.state(), ParseState::CannotAdvance);
    assert_eq!(s.unparsed_len(), 0);
    assert_eq!(s.buffered_len(), 0);
}

#[test]
fn first_non_empty_chunk_starts_the_parser() {
    let mut s = RouteStream::new();
    s.append(b"");
    assert_eq!(s.state(), ParseState::CannotAdvance);
    s.append(b" ");
    assert_eq!(s.state(), ParseState::ReadingChars);
    s.append(b"");
    assert_eq!(s.state(), ParseState::ReadingChars);
    assert_eq!(s.unparsed_len(), 1);
}

#[test]
fn try_parse_next_moves_one_step_at_a_time() {
    let mut s = RouteStream::new();
    assert!(matches!(s.try_parse_next(), Some(ParseOutcome::Eof)));
    s.append(br#"  [ {"a":1}  ,{"b":2}]"#);
    assert!(s.try_parse_next().is_none());
    assert_eq!(s.state(), ParseState::ReadingValue);
    assert_eq!(s.unparsed_len(), 19);
    match s.try_parse_next() {
        Some(ParseOutcome::Value(frame)) => assert_eq!(frame, br#"{"a":1}"#.to_vec()),
        other => panic!("unexpected {:?}", other),
    }
    assert_eq!(s.state(), ParseState::ReadingChars);
    assert_eq!(s.unparsed_len(), 11);
    assert!(s.try_parse_next().is_none());
    assert_eq!(s.unparsed_len(), 8);
    match s.try_parse_next() {
        Some(ParseOutcome::Value(frame)) => assert_eq!(frame, br#"{"b":2}"#.to_vec()),
        other => panic!("unexpected {:?}", other),
    }
    assert!(matches!(s.try_parse_next(), Some(ParseOutcome::End)));
    assert_eq!(s.state(), ParseState::Finished);
    assert_eq!(s.unparsed_len(), 1);
    assert!(matches!(s.try_parse_next(), Some(ParseOutcome::End)));
}

#[test]
fn partial_element_waits_and_keeps_its_state() {
    let mut s = RouteStream::new();
    s.append(br#"[ {"a":"#);
    assert!(s.try_parse_next().is_none());
    assert!(matches!(s.try_parse_next(), Some(ParseOutcome::Eof)));
    assert_eq!(s.state(), ParseState::ReadingValue);
    assert_eq!(s.unparsed_len(), 5);
    s.append(b"1}");
    match s.try_parse_next() {
        Some(ParseOutcome::Value(frame)) => assert_eq!(frame, br#"{"a":1}"#.to_vec()),
        other => panic!("unexpected {:?}", other),
    }
}

#[test]
fn whitespace_helpers_follow_the_cursor() {
    let mut s = RouteStream::new();
    s.append(b" \t\n\x0c\r[x");
    assert_eq!(s.current_char(), Some(b' '));
    assert!(!s.is_bridge_char());
    assert_eq!(s.next_char_pos(), Some(5));
    assert_eq!(s.advance_next_char(), Some(b'['));
    assert!(s.is_bridge_char());
    assert_eq!(s.unparsed_len(), 2);
    let mut t = RouteStream::new();
    t.append(b"  ");
    assert_eq!(t.next_char_pos(), None);
    assert_eq!(t.advance_next_char(), None);
    assert_eq!(t.unparsed_len(), 0);
    assert_eq!(t.current_char(), None);
}

#[test]
fn vertical_tab_is_no_whitespace() {
    let mut s = RouteStream::new();
    s.append(b"\x0b[");
    assert_eq!(s.next_char_pos(), Some(0));
}

fn long_array(n: usize) -> (Vec<u8>, Vec<Vec<u8>>) {
    let mut text = Vec::new();
    let mut items = Vec::new();
    text.push(b'[');
    for i in 0..n {
        if i > 0 {
            text.extend_from_slice(b" ,\n");
        }
        let item = format!("{{\"index\":{},\"text\":\"{}\"}}", i, "x".repeat(i % 97));
        text.extend_from_slice(item.as_bytes());
        items.push(item.into_bytes());
    }
    text.extend_from_slice(b"]");
    (text, items)
}

#[test]
fn compaction_threshold_does_not_change_the_outcome() {
    let (text, items) = long_array(200);
    assert!(text.len() > 4 * COMPACTION_THRESHOLD);
    for size in [1usize, 7, 100, 3000, text.len()] {
        let chunks: Vec<Vec<u8>> = text.chunks(size).map(|c| c.to_vec()).collect();
        let unbounded = collect(&chunks, usize::MAX);
        let default = collect(&chunks, COMPACTION_THRESHOLD);
        let eager = collect(&chunks, 1);
        assert_eq!(unbounded.items, items);
        assert_eq!(default.items, items);
        assert_eq!(eager.items, items);
        assert!(is_clean(&unbounded) && is_clean(&default) && is_clean(&eager));
    }
}

#[test]
fn compaction_threshold_does_not_change_a_failure() {
    let (mut text, items) = long_array(120);
    text.pop();
    text.extend_from_slice(b",{\"a\":}]");
    let chunks: Vec<Vec<u8>> = text.chunks(13).map(|c| c.to_vec()).collect();
    for threshold in [1usize, COMPACTION_THRESHOLD, usize::MAX] {
        let got = collect(&chunks, threshold);
        assert_eq!(got.items, items);
        match got.error {
            Some(StreamError::Serde(detail)) => {
                assert_eq!(detail, "expected value at line 1 column 6")
            }
            other => panic!("unexpected {:?}", other),
        }
    }
}

#[test]
fn compact_drops_the_digested_prefix_above_the_threshold() {
    let mut s = RouteStream::with_threshold(3);
    s.append(br#"[{"a":1},{"b":2}]"#);
    assert!(s.try_parse_next().is_none());
    s.compact();
    assert_eq!(s.buffered_len(), 17);
    assert!(matches!(s.try_parse_next(), Some(ParseOutcome::Value(_))));
    assert_eq!(s.unparsed_len(), 9);
    s.compact();
    assert_eq!(s.buffered_len(), 9);
    assert_eq!(s.unparsed_len(), 9);
    assert_eq!(s.current_char(), Some(b','));
    assert_eq!(s.state(), ParseState::ReadingChars);
}

#[test]
fn compact_keeps_everything_at_the_threshold() {
    let mut s = RouteStream::with_threshold(1);
    s.append(b"[{}]");
    assert!(s.try_parse_next().is_none());
    s.compact();
    assert_eq!(s.buffered_len(), 4);
    assert!(matches!(s.try_parse_next(), Some(ParseOutcome::Value(_))));
    s.compact();
    assert_eq!(s.buffered_len(), 1);
}

#[test]
fn default_stream_holds_digested_bytes_up_to_the_threshold() {
    let (text, _) = long_array(60);
    let mut s = RouteStream::new();
    s.append(&text);
    let mut seen = 0;
    loop {
        match s.poll_next() {
            Pulled::Item(_) => {
                seen += 1;
                assert!(s.buffered_len() - s.unparsed_len() <= COMPACTION_THRESHOLD + 200);
            }
            Pulled::Finished => break,
            other => panic!("unexpected {:?}", other),
        }
    }
    assert_eq!(seen, 60);
    assert!(s.buffered_len() < text.len());
}

#[test]
fn scalar_elements_are_cut_where_the_decoder_stops() {
    let got = run(&one_chunk(r#"[1, "two" ,[3],null]"#));
    assert_eq!(
        got.items,
        vec![b"1".to_vec(), b"\"two\"".to_vec(), b"[3]".to_vec(), b"null".to_vec()]
    );
    assert!(is_clean(&got));
}

#[test]
fn accept_cuts_exactly_the_consumed_bytes() {
    let mut s = RouteStream::new();
    s.append(b"[abcdef");
    assert!(s.try_parse_next().is_none());
    match s.accept(Decoded::Value { consumed: 4 }) {
        ParseOutcome::Value(frame) => assert_eq!(frame, b"abcd".to_vec()),
        other => panic!("unexpected {:?}", other),
    }
    assert_eq!(s.unparsed_len(), 2);
    assert_eq!(s.current_char(), Some(b'e'));
    assert_eq!(s.state(), ParseState::ReadingValue);
    match s.accept(Decoded::Value { consumed: 0 }) {
        ParseOutcome::Value(frame) => assert!(frame.is_empty()),
        other => panic!("unexpected {:?}", other),
    }
    assert_eq!(s.unparsed_len(), 2);
    match s.accept(Decoded::Value { consumed: 2 }) {
        ParseOutcome::Value(frame) => assert_eq!(frame, b"ef".to_vec()),
        other => panic!("unexpected {:?}", other),
    }
    assert_eq!(s.unparsed_len(), 0);
}

#[test]
fn accept_passes_waits_and_errors_on() {
    let mut s = RouteStream::new();
    s.append(b"[abc");
    assert!(s.try_parse_next().is_none());
    assert!(matches!(s.accept(Decoded::Eof), ParseOutcome::Eof));
    assert!(matches!(s.accept(Decoded::Empty), ParseOutcome::Eof));
    match s.accept(Decoded::Invalid { detail: String::from("bad") }) {
        ParseOutcome::Invalid(detail) => assert_eq!(detail, "bad"),
        other => panic!("unexpected {:?}", other),
    }
    assert_eq!(s.unparsed_len(), 3);
    assert_eq!(s.state(), ParseState::ReadingValue);
}

#[test]
fn parse_chunk_leaves_the_state_alone() {
    let mut s = RouteStream::new();
    s.append(br#"{"a":1} ,"#);
    assert_eq!(s.state(), ParseState::ReadingChars);
    match s.parse_chunk() {
        ParseOutcome::Value(frame) => assert_eq!(frame, br#"{"a":1}"#.to_vec()),
        other => panic!("unexpected {:?}", other),
    }
    assert_eq!(s.state(), ParseState::ReadingChars);
    assert_eq!(s.unparsed_len(), 2);
    let mut t = RouteStream::new();
    assert!(matches!(t.parse_chunk(), ParseOutcome::Eof));
    t.append(b"{\"a\"");
    assert!(matches!(t.parse_chunk(), ParseOutcome::Eof));
    assert_eq!(t.unparsed_len(), 4);
    t.append(b"}");
    assert!(matches!(t.parse_chunk(), ParseOutcome::Invalid(_)));
    assert_eq!(t.unparsed_len(), 5);
}

#[test]
fn abort_finishes_the_stream() {
    let mut s = RouteStream::new();
    s.append(br#"[{"a":1},{"b":2}]"#);
    assert!(matches!(s.poll_next(), Pulled::Item(_)));
    s.abort();
    assert_eq!(s.state(), ParseState::Finished);
    assert_eq!(s.unparsed_len(), 9);
    assert!(matches!(s.poll_next(), Pulled::Finished));
}

#[test]
fn end_inside_a_later_element_keeps_the_earlier_ones() {
    let text = br#"[{"a":1} , {"b":"#;
    for cut in 0..=text.len() {
        let got = run(&vec![text[..cut].to_vec(), text[cut..].to_vec()]);
        assert_eq!(got.items, vec![br#"{"a":1}"#.to_vec()], "cut at {}", cut);
        assert!(
            matches!(
                got.error,
                Some(StreamError::Incomplete { state: ParseState::ReadingValue, unparsed: 5 })
            ),
            "cut at {}",
            cut
        );
    }
}

#[test]
fn unterminated_object_is_incomplete_however_the_text_is_cut() {
    let text = br#" [ {"a":1"#;
    for cut in 0..=text.len() {
        let got = run(&vec![text[..cut].to_vec(), text[cut..].to_vec()]);
        assert!(got.items.is_empty(), "cut at {}", cut);
        assert!(
            matches!(
                got.error,
                Some(StreamError::Incomplete { state: ParseState::ReadingValue, unparsed: 6 })
            ),
            "cut at {}",
            cut
        );
    }
}
