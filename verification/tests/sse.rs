use adaptive_reasoner::sse::{
    decode_body, encode_frame, terminator_frame, SseEvent, SseFrameDecoder,
};

fn data(text: &str) -> SseEvent {
    SseEvent::Data(text.as_bytes().to_vec())
}

fn decode_all(reads: &[&[u8]]) -> Vec<SseEvent> {
    let mut decoder = SseFrameDecoder::new();
    let mut events = Vec::new();
    for read in reads {
        events.extend(decoder.feed(read));
    }
    events.extend(decoder.finish());
    events
}

#[test]
fn one_chunk_then_the_terminator() {
    let mut decoder = SseFrameDecoder::new();
    let events = decoder.feed(b"data: {\"id\":\"a\"}\n\ndata: [DONE]\n\n");
    assert_eq!(events, vec![data("{\"id\":\"a\"}"), SseEvent::Done]);
    assert!(decoder.is_finished());
    assert_eq!(decoder.finish(), vec![]);
}

#[test]
fn several_events_in_one_read() {
    let events = decode_all(&[b"data: 1\n\ndata: 2\n\ndata: 3\n\n"]);
    assert_eq!(events, vec![data("1"), data("2"), data("3")]);
}

#[test]
fn a_segment_without_the_prefix_is_skipped() {
    let events = decode_all(&[b": keep-alive\n\ndata: 1\n\nevent: x\n\ndata: 2\n\ndata: [DONE]\n\n"]);
    assert_eq!(events, vec![data("1"), data("2"), SseEvent::Done]);
    let events = decode_all(&[b"data:1\n\ndata\n\n\n\ndata: ok\n\n"]);
    assert_eq!(events, vec![data("ok")]);
}

#[test]
fn the_payload_is_handed_on_as_it_is() {
    let events = decode_all(&[b"data: {not json\n\ndata:  two spaces\n\ndata: \n\n"]);
    assert_eq!(events, vec![data("{not json"), data(" two spaces"), data("")]);
}

#[test]
fn carriage_returns_are_tolerated() {
    let events = decode_all(&[b"data: 1\r\n\r\ndata: 2\r\n\r\ndata: [DONE]\r\n\r\n"]);
    assert_eq!(events, vec![data("1"), data("2"), SseEvent::Done]);
    let events = decode_all(&[b"data: 1\r\n\r\ndata: 2\n\n"]);
    assert_eq!(events, vec![data("1"), data("2")]);
}

#[test]
fn an_event_may_be_split_across_reads() {
    let body = b"data: {\"a\":1}\n\ndata: {\"b\":2}\r\n\r\nnoise\n\ndata: [DONE]\n\n";
    let whole = decode_all(&[body]);
    assert_eq!(
        whole,
        vec![data("{\"a\":1}"), data("{\"b\":2}"), SseEvent::Done]
    );
    for cut in 0..=body.len() {
        let (a, b) = body.split_at(cut);
        assert_eq!(decode_all(&[a, b]), whole, "cut at {}", cut);
    }
    let bytes: Vec<&[u8]> = body.chunks(1).collect();
    assert_eq!(decode_all(&bytes), whole);
}

#[test]
fn each_read_gives_the_events_that_it_completes() {
    let mut decoder = SseFrameDecoder::new();
    assert_eq!(decoder.feed(b"da"), vec![]);
    assert_eq!(decoder.feed(b"ta: x\n"), vec![]);
    assert_eq!(decoder.feed(b"\ndata: y"), vec![data("x")]);
    assert_eq!(decoder.feed(b""), vec![]);
    assert_eq!(decoder.feed(b"\n\ndata: z\n\n"), vec![data("y"), data("z")]);
    assert!(!decoder.is_finished());
    assert_eq!(decoder.finish(), vec![]);
    assert!(decoder.is_finished());
}

#[test]
fn nothing_is_decoded_after_the_terminator() {
    let mut decoder = SseFrameDecoder::new();
    let events = decoder.feed(b"data: 1\n\ndata: [DONE]\n\ndata: 2\n\n");
    assert_eq!(events, vec![data("1"), SseEvent::Done]);
    assert_eq!(decoder.feed(b"data: 3\n\n"), vec![]);
    assert_eq!(decoder.finish(), vec![]);
}

#[test]
fn the_terminator_is_found_anywhere_behind_the_prefix() {
    assert_eq!(decode_all(&[b"data:  [DONE] \n\n"]), vec![SseEvent::Done]);
    assert_eq!(decode_all(&[b"data: x[DONE]y\n\ndata: 1\n\n"]), vec![SseEvent::Done]);
    assert_eq!(decode_all(&[b"data: [DONE\n\n"]), vec![data("[DONE")]);
    assert_eq!(decode_all(&[b"[DONE]\n\ndata: 1\n\n"]), vec![data("1")]);
}

#[test]
fn a_body_that_ends_in_an_open_segment_gives_it_at_the_close() {
    assert_eq!(decode_all(&[b"data: 1\n\ndata: 2"]), vec![data("1"), data("2")]);
    assert_eq!(decode_all(&[b"data: 1\n\ndata: [DONE]"]), vec![data("1"), SseEvent::Done]);
    assert_eq!(decode_all(&[b"data: 1\n\nrest"]), vec![data("1")]);
    assert_eq!(decode_all(&[b""]), vec![]);
    assert_eq!(decode_all(&[]), vec![]);
}

#[test]
fn what_is_framed_is_what_is_decoded() {
    let frame = encode_frame(b"{\"id\":\"a\"}");
    assert_eq!(frame, b"data: {\"id\":\"a\"}\n\n".to_vec());
    assert_eq!(terminator_frame(), b"data: [DONE]\n\n".to_vec());
    let mut body = frame;
    body.extend(encode_frame(b""));
    body.extend(terminator_frame());
    assert_eq!(
        decode_all(&[&body]),
        vec![data("{\"id\":\"a\"}"), data(""), SseEvent::Done]
    );
}

#[test]
fn a_whole_body_is_decoded_at_once() {
    assert_eq!(
        decode_body(b"data: 1\n\nskip\n\ndata: 2\r\n\r\ndata: [DONE]\n\ndata: 3\n\n"),
        vec![data("1"), data("2"), SseEvent::Done]
    );
    assert_eq!(decode_body(b"data: 1\n\ndata: 2"), vec![data("1"), data("2")]);
    assert_eq!(decode_body(b""), vec![]);
    let body = b"data: {\"a\":1}\n\ndata: {\"b\":2}\r\n\r\nnoise\n\ndata: [DONE]\n\n";
    assert_eq!(decode_body(body), decode_all(&[body]));
}
