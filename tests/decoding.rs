use chat_stream::decoder::{ChatEvent, DecodeError, Parsed, Reading, StreamDecoder};

fn read_event(text: &[u8]) -> Parsed {
    let text = String::from_utf8_lossy(text);
    let reading = match serde_json::from_str::<serde_json::Value>(&text) {
        Ok(value) => {
            let choices = value.get("choices").and_then(|c| c.as_array());
            match choices {
                Some(choices) => {
                    let mut contents = Vec::new();
                    let mut ok = true;
                    for choice in choices {
                        match choice.get("delta").map(|d| d.get("content")) {
                            Some(Some(serde_json::Value::String(s))) => contents.push(Some(s.clone())),
                            Some(Some(serde_json::Value::Null)) | Some(None) => contents.push(None),
                            _ => ok = false,
                        }
                    }
                    if ok {
                        Reading::Event(contents)
                    } else {
                        Reading::Failure
                    }
                }
                None => Reading::Failure,
            }
        }
        Err(e) if e.is_eof() => Reading::EndOfInput,
        Err(_) => Reading::Failure,
    };
    Parsed::from_reading(reading)
}

fn take_line(decoder: &mut StreamDecoder, line: &[u8], events: &mut Vec<ChatEvent>) {
    let parsed = match decoder.event_text(line) {
        Some(text) => read_event(&text),
        None => Parsed::NoContent,
    };
    if let Some(event) = decoder.apply(line, parsed) {
        events.push(event);
    }
}

fn decode_with_events(chunks: &[&[u8]]) -> (Result<String, DecodeError>, Vec<ChatEvent>) {
    let mut decoder = StreamDecoder::new();
    let mut events = Vec::new();
    for chunk in chunks {
        if !decoder.is_streaming() {
            break;
        }
        for line in decoder.feed(chunk) {
            take_line(&mut decoder, &line, &mut events);
        }
    }
    for line in decoder.end_of_input() {
        take_line(&mut decoder, &line, &mut events);
    }
    (decoder.into_result(), events)
}

fn decode(chunks: &[&[u8]]) -> Result<String, DecodeError> {
    decode_with_events(chunks).0
}

const HEL: &str = "data: {\"choices\":[{\"delta\":{\"content\":\"Hel\"}}]}\n";
const LO_DONE: &str = "data: {\"choices\":[{\"delta\":{\"content\":\"lo\"}}]}\n\ndata: [DONE]\n";

#[test]
fn two_chunks_give_hello() {
    let r = decode(&[HEL.as_bytes(), LO_DONE.as_bytes()]);
    assert_eq!(r.unwrap(), "Hello");
}

#[test]
fn three_chunks_split_inside_json_give_hello() {
    let whole = format!("{}{}", HEL, LO_DONE);
    let bytes = whole.as_bytes();
    let a = 20;
    let b = HEL.len() + 30;
    let r = decode(&[&bytes[..a], &bytes[a..b], &bytes[b..]]);
    assert_eq!(r.unwrap(), "Hello");
}

#[test]
fn every_cut_point_gives_hello() {
    let whole = format!("{}{}", HEL, LO_DONE);
    let bytes = whole.as_bytes();
    for cut in 0..=bytes.len() {
        let r = decode(&[&bytes[..cut], &bytes[cut..]]);
        assert_eq!(r.unwrap(), "Hello", "cut at {}", cut);
    }
}

#[test]
fn byte_by_byte_gives_hello() {
    let whole = format!("{}{}", HEL, LO_DONE);
    let chunks: Vec<&[u8]> = whole.as_bytes().chunks(1).collect();
    assert_eq!(decode(&chunks).unwrap(), "Hello");
}

#[test]
fn deltas_are_reported_in_order() {
    let (r, events) = decode_with_events(&[HEL.as_bytes(), LO_DONE.as_bytes()]);
    assert_eq!(r.unwrap(), "Hello");
    assert_eq!(events.len(), 3);
    assert!(matches!(&events[0], ChatEvent::ContentDelta(c) if c == "Hel"));
    assert!(matches!(&events[1], ChatEvent::ContentDelta(c) if c == "lo"));
    assert!(matches!(&events[2], ChatEvent::Done));
}

#[test]
fn refused_request_gives_its_message() {
    let mut decoder = StreamDecoder::new();
    let body = b"{\"error\":{\"message\":\"invalid api key\"}}";
    let event = decoder.reject(body, Some("invalid api key".to_string()));
    assert!(matches!(event, Some(ChatEvent::ErrorPayload(ref m)) if m == "invalid api key"));
    assert!(!decoder.is_streaming());
    match decoder.into_result() {
        Err(DecodeError::HttpFailure(m)) => assert_eq!(m, "invalid api key"),
        other => panic!("unexpected {:?}", other),
    }
}

#[test]
fn refused_request_with_unreadable_body_is_malformed() {
    let mut decoder = StreamDecoder::new();
    let event = decoder.reject(b"oops", None);
    assert!(matches!(event, Some(ChatEvent::Malformed(ref t)) if t == b"oops"));
    assert!(matches!(decoder.into_result(), Err(DecodeError::MalformedEvent(t)) if t == b"oops"));
}

#[test]
fn invalid_json_is_fatal_and_discards_text() {
    let bad = "data: {\"choices\": nope}\n";
    let (r, events) = decode_with_events(&[HEL.as_bytes(), bad.as_bytes(), LO_DONE.as_bytes()]);
    match r {
        Err(DecodeError::MalformedEvent(t)) => assert_eq!(t, b"{\"choices\": nope}"),
        other => panic!("unexpected {:?}", other),
    }
    assert!(matches!(events.last(), Some(ChatEvent::Malformed(_))));
}

#[test]
fn no_chunks_is_unterminated() {
    assert!(matches!(decode(&[]), Err(DecodeError::UnterminatedStream)));
}

#[test]
fn missing_marker_is_unterminated() {
    assert!(matches!(decode(&[HEL.as_bytes()]), Err(DecodeError::UnterminatedStream)));
}

#[test]
fn nothing_is_read_after_done() {
    let mut decoder = StreamDecoder::new();
    let lines = decoder.feed(b"data: [DONE]\n");
    assert_eq!(lines.len(), 1);
    assert!(matches!(decoder.apply(&lines[0], Parsed::NoContent), Some(ChatEvent::Done)));
    assert!(decoder.feed(HEL.as_bytes()).is_empty());
    assert!(decoder.end_of_input().is_empty());
    assert!(decoder.apply(b"data: x", Parsed::Content("x".to_string())).is_none());
    assert_eq!(decoder.into_result().unwrap(), "");
}

#[test]
fn text_after_done_in_same_chunk_is_ignored() {
    let body = format!("{}data: [DONE]\n{}", HEL, LO_DONE);
    assert_eq!(decode(&[body.as_bytes()]).unwrap(), "Hel");
}

#[test]
fn truncated_event_is_completed_by_next_line() {
    let body = "data: {\"choices\":[{\"delta\":\n{\"content\":\"X\"}}]}\ndata: [DONE]\n";
    assert_eq!(decode(&[body.as_bytes()]).unwrap(), "X");
}

#[test]
fn repeated_truncation_without_progress_is_malformed() {
    let body = "data: \ndata: \ndata: [DONE]\n";
    match decode(&[body.as_bytes()]) {
        Err(DecodeError::MalformedEvent(t)) => assert!(t.is_empty()),
        other => panic!("unexpected {:?}", other),
    }
}

#[test]
fn event_without_content_adds_nothing() {
    let body = "data: {\"choices\":[{\"delta\":{\"role\":\"assistant\"}}]}\ndata: {\"choices\":[{\"delta\":{\"content\":\"Hi\"}}]}\ndata: [DONE]\n";
    assert_eq!(decode(&[body.as_bytes()]).unwrap(), "Hi");
}

#[test]
fn crlf_lines_and_unprefixed_json_are_read() {
    let body = "{\"choices\":[{\"delta\":{\"content\":\"A\"}}]}\r\ndata: {\"choices\":[{\"delta\":{\"content\":\"B\"}}]}\r\n\r\ndata: [DONE]\r\n";
    assert_eq!(decode(&[body.as_bytes()]).unwrap(), "AB");
}

#[test]
fn marker_without_final_terminator_ends_the_stream() {
    let body = format!("{}data: [DONE]", HEL);
    assert_eq!(decode(&[body.as_bytes()]).unwrap(), "Hel");
}

#[test]
fn event_text_strips_envelope_and_keeps_fragment() {
    let mut decoder = StreamDecoder::new();
    assert_eq!(decoder.event_text(b"data: {\"a\":").unwrap(), b"{\"a\":");
    assert!(decoder.event_text(b"").is_none());
    assert!(decoder.event_text(b"data: [DONE]").is_none());
    assert!(decoder.apply(b"data: {\"a\":", Parsed::Truncated).is_none());
    assert_eq!(decoder.event_text(b"1}").unwrap(), b"{\"a\":1}");
}

#[test]
fn invalid_after_content_returns_event_text() {
    let mut decoder = StreamDecoder::new();
    let e = decoder.apply(b"data: {\"x\"", Parsed::Content("ab".to_string()));
    assert!(matches!(e, Some(ChatEvent::ContentDelta(ref c)) if c == "ab"));
    let e = decoder.apply(b"data: zz", Parsed::Invalid);
    assert!(matches!(e, Some(ChatEvent::Malformed(ref t)) if t == b"zz"));
    assert!(matches!(decoder.into_result(), Err(DecodeError::MalformedEvent(t)) if t == b"zz"));
}

#[test]
fn reading_takes_the_first_choice() {
    let p = Parsed::from_reading(Reading::Event(vec![Some("a".to_string()), Some("b".to_string())]));
    assert!(matches!(p, Parsed::Content(ref c) if c == "a"));
    assert!(matches!(Parsed::from_reading(Reading::Event(vec![None, Some("b".to_string())])), Parsed::NoContent));
    assert!(matches!(Parsed::from_reading(Reading::Event(Vec::new())), Parsed::Invalid));
    assert!(matches!(Parsed::from_reading(Reading::EndOfInput), Parsed::Truncated));
    assert!(matches!(Parsed::from_reading(Reading::Failure), Parsed::Invalid));
}

#[test]
fn event_without_choices_is_malformed() {
    let body = "data: {\"choices\":[]}\ndata: [DONE]\n";
    assert!(matches!(decode(&[body.as_bytes()]), Err(DecodeError::MalformedEvent(_))));
}
