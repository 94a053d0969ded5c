use anthropic_ai_sdk::error::DispatchError;
use anthropic_ai_sdk::stream::decoder::{EventStreamDecoder, Frame, Pull, StreamState};
use anthropic_ai_sdk::stream::scanner::{find_line, read_block, scan_from};
use eventsource_stream::Eventsource;
use futures_util::{FutureExt, StreamExt};

/// What the source does once its chunks are used up.
enum Ending {
    Clean,
    Error(&'static str),
}

/// Runs a decoder over `chunks` the way a consumer does: pull, and answer
/// each pull. A payload decodes if it is a JSON document.
fn run(chunks: &[&[u8]], ending: Ending) -> (Vec<Result<Frame, DispatchError>>, StreamState) {
    let mut decoder = EventStreamDecoder::new();
    let mut items = Vec::new();
    let mut next = 0;
    for _ in 0..10_000 {
        match decoder.poll() {
            Pull::Frame(frame) => {
                match serde_json::from_str::<serde_json::Value>(&frame.data) {
                    Ok(_) => {
                        decoder.accept();
                        items.push(Ok(frame));
                    },
                    Err(error) => {
                        let fault = decoder.reject(error.to_string()).unwrap();
                        items.push(Err(fault));
                    },
                }
            },
            Pull::NeedInput => {
                if next < chunks.len() {
                    decoder.feed(chunks[next]);
                    next += 1;
                } else {
                    match ending {
                        Ending::Clean => decoder.finish(),
                        Ending::Error(detail) => {
                            let fault = decoder.fail(detail.to_string()).unwrap();
                            items.push(Err(fault));
                        },
                    }
                }
            },
            Pull::Fault(fault) => items.push(Err(fault)),
            Pull::End => return (items, decoder.state()),
        }
    }
    panic!("the decoder did not end");
}

/// The frames of `chunks` with every payload accepted.
fn frames_of(chunks: &[&[u8]]) -> Vec<Frame> {
    let mut decoder = EventStreamDecoder::new();
    let mut frames = Vec::new();
    let mut next = 0;
    for _ in 0..10_000 {
        match decoder.poll() {
            Pull::Frame(frame) => {
                decoder.accept();
                frames.push(frame);
            },
            Pull::NeedInput => {
                if next < chunks.len() {
                    decoder.feed(chunks[next]);
                    next += 1;
                } else {
                    decoder.finish();
                }
            },
            Pull::Fault(fault) => panic!("fault: {}", fault.message()),
            Pull::End => return frames,
        }
    }
    panic!("the decoder did not end");
}

/// What eventsource_stream makes of the same chunks: name and data of
/// each event.
fn reference_frames(chunks: &[&[u8]]) -> Vec<(String, String)> {
    let owned: Vec<Result<Vec<u8>, std::convert::Infallible>> =
        chunks.iter().map(|c| Ok(c.to_vec())).collect();
    let events = futures_util::stream::iter(owned)
        .eventsource()
        .collect::<Vec<_>>()
        .now_or_never()
        .unwrap();
    events
        .into_iter()
        .map(|event| {
            let event = event.unwrap();
            (event.event, event.data)
        })
        .collect()
}

fn named(frames: &[Frame]) -> Vec<(String, String)> {
    frames
        .iter()
        .map(|f| (f.event.clone().unwrap_or("message".to_string()), f.data.clone()))
        .collect()
}

fn frame(event: Option<&str>, data: &str) -> Frame {
    Frame { event: event.map(|e| e.to_string()), data: data.to_string() }
}

const THREE: &[u8] = b"event: message_start\ndata: {\"type\":\"message_start\"}\n\nevent: content_block_delta\ndata: {\"type\":\"content_block_delta\",\"index\":0}\n\nevent: message_stop\ndata: {\"type\":\"message_stop\"}\n\n";

#[test]
fn three_frames_come_out_in_wire_order() {
    let (items, state) = run(&[THREE], Ending::Clean);
    assert_eq!(
        items,
        vec![
            Ok(frame(Some("message_start"), "{\"type\":\"message_start\"}")),
            Ok(frame(Some("content_block_delta"), "{\"type\":\"content_block_delta\",\"index\":0}")),
            Ok(frame(Some("message_stop"), "{\"type\":\"message_stop\"}")),
        ]
    );
    assert_eq!(state, StreamState::Closed);
}

#[test]
fn chunk_boundaries_do_not_matter() {
    let whole = frames_of(&[THREE]);
    assert_eq!(whole.len(), 3);
    for cut in 0..=THREE.len() {
        let (a, b) = THREE.split_at(cut);
        assert_eq!(frames_of(&[a, b]), whole, "cut at {}", cut);
    }
    let bytes: Vec<&[u8]> = THREE.chunks(1).collect();
    assert_eq!(frames_of(&bytes), whole);
    let sevens: Vec<&[u8]> = THREE.chunks(7).collect();
    assert_eq!(frames_of(&sevens), whole);
}

#[test]
fn source_error_after_two_frames_is_one_terminal_item() {
    let chunks: [&[u8]; 2] = [b"data: {\"n\":1}\n\n", b"data: {\"n\":2}\n\ndata: {\"n\":"];
    let (items, state) = run(&chunks, Ending::Error("connection reset"));
    assert_eq!(
        items,
        vec![
            Ok(frame(None, "{\"n\":1}")),
            Ok(frame(None, "{\"n\":2}")),
            Err(DispatchError::Transport { detail: "Transport error: connection reset".to_string() }),
        ]
    );
    assert_eq!(state, StreamState::Failed);
}

#[test]
fn a_failed_decoder_produces_nothing_more() {
    let mut decoder = EventStreamDecoder::new();
    decoder.feed(b"data: 1\n\n");
    assert_eq!(
        decoder.fail("gone".to_string()),
        Some(DispatchError::Transport { detail: "Transport error: gone".to_string() })
    );
    assert_eq!(decoder.state(), StreamState::Failed);
    assert_eq!(decoder.fail("again".to_string()), None);
    decoder.feed(b"data: 2\n\n");
    assert_eq!(decoder.buffered(), 9);
    assert_eq!(decoder.poll(), Pull::End);
    assert_eq!(decoder.reject("no".to_string()), None);
    decoder.accept();
    decoder.finish();
    assert_eq!(decoder.poll(), Pull::End);
    assert_eq!(decoder.state(), StreamState::Failed);
}

#[test]
fn a_malformed_frame_stops_the_sequence() {
    let chunks: [&[u8]; 1] = [b"data: {\"ok\":true}\n\ndata: {not json\n\ndata: {\"ok\":false}\n\n"];
    let (items, state) = run(&chunks, Ending::Clean);
    assert_eq!(items.len(), 2);
    assert_eq!(items[0], Ok(frame(None, "{\"ok\":true}")));
    match &items[1] {
        Err(DispatchError::StreamDecode { detail, payload }) => {
            assert_eq!(payload, "{not json");
            assert!(!detail.is_empty());
            let message = items[1].as_ref().unwrap_err().message();
            assert_eq!(
                message,
                format!("Failed to parse SSE event: {}. Event data: {{not json", detail)
            );
        },
        other => panic!("unexpected item {:?}", other),
    }
    assert_eq!(state, StreamState::Failed);
}

#[test]
fn states_follow_the_pulls() {
    let mut decoder = EventStreamDecoder::new();
    assert_eq!(decoder.state(), StreamState::Accumulating);
    assert_eq!(decoder.poll(), Pull::NeedInput);
    decoder.feed(b"data: a");
    assert_eq!(decoder.poll(), Pull::NeedInput);
    assert_eq!(decoder.state(), StreamState::Accumulating);
    decoder.feed(b"\n\ndata: b\n\n");
    assert_eq!(decoder.poll(), Pull::Frame(frame(None, "a")));
    assert_eq!(decoder.state(), StreamState::FrameReady);
    // the frame waits until it is answered
    assert_eq!(decoder.poll(), Pull::Frame(frame(None, "a")));
    decoder.accept();
    assert_eq!(decoder.state(), StreamState::Accumulating);
    decoder.finish();
    // a frame that is complete is still delivered after the source ended
    assert_eq!(decoder.poll(), Pull::Frame(frame(None, "b")));
    decoder.accept();
    decoder.feed(b"data: c\n\n");
    assert_eq!(decoder.poll(), Pull::End);
    assert_eq!(decoder.state(), StreamState::Closed);
    assert_eq!(decoder.poll(), Pull::End);
}

#[test]
fn accept_and_reject_without_a_waiting_frame_change_nothing() {
    let mut decoder = EventStreamDecoder::new();
    decoder.accept();
    assert_eq!(decoder.reject("no".to_string()), None);
    assert_eq!(decoder.state(), StreamState::Accumulating);
    decoder.feed(b"data: x\n\n");
    assert_eq!(decoder.poll(), Pull::Frame(frame(None, "x")));
    assert_eq!(
        decoder.reject("bad".to_string()),
        Some(DispatchError::StreamDecode { detail: "bad".to_string(), payload: "x".to_string() })
    );
    assert_eq!(decoder.state(), StreamState::Failed);
}

#[test]
fn an_incomplete_frame_at_the_end_is_not_an_event() {
    let chunks: [&[u8]; 1] = [b"data: {\"n\":1}\n\ndata: {\"n\":2}\n"];
    let (items, state) = run(&chunks, Ending::Clean);
    assert_eq!(items, vec![Ok(frame(None, "{\"n\":1}"))]);
    assert_eq!(state, StreamState::Closed);
}

#[test]
fn lines_fields_and_comments() {
    assert_eq!(
        frames_of(&[b"data: Hello,\ndata: world!\n\n"]),
        vec![frame(None, "Hello,\nworld!")]
    );
    assert_eq!(
        frames_of(&[b": test stream\n\ndata: first event\nid: 1\n\ndata:second event\nid\n\ndata:  third event\n\n"]),
        vec![frame(None, "first event"), frame(None, "second event"), frame(None, " third event")]
    );
    assert_eq!(frames_of(&[b"data\n\ndata\ndata\n\ndata:\n"]), vec![frame(None, ""), frame(None, "\n")]);
    assert_eq!(
        frames_of(&[b"event: add\r\ndata: 1\r\n\r\nevent: remove\rdata: 2\r\rdata: 3\n\n"]),
        vec![frame(Some("add"), "1"), frame(Some("remove"), "2"), frame(None, "3")]
    );
    // a block without data carries nothing, and its name does not leak
    assert_eq!(
        frames_of(&[b"event: ping\n\n: keep-alive\n\ndata: x\n\n"]),
        vec![frame(None, "x")]
    );
    // the last name wins, an empty name is no name, other fields are ignored
    assert_eq!(
        frames_of(&[b"event: a\nevent: b\nretry: 10\ndata: x\n\nevent:\ndata: y\n\ndatum: z\n\n"]),
        vec![frame(Some("b"), "x"), frame(None, "y")]
    );
    assert_eq!(frames_of(&[b"data: caf\xc3\xa9 \xf0\x9f\x91\x8d\n\n"]), vec![frame(None, "café 👍")]);
}

#[test]
fn a_byte_order_mark_may_open_the_stream() {
    assert_eq!(frames_of(&[b"\xef\xbb\xbfdata: x\n\n"]), vec![frame(None, "x")]);
    assert_eq!(frames_of(&[b"\xef", b"\xbb", b"\xbfdata: x\n\n"]), vec![frame(None, "x")]);
    assert_eq!(frames_of(&[b"\xef\xbb", b"\xbf"]), vec![]);
    // only at the start
    assert_eq!(
        frames_of(&[b"data: x\n\n\xef\xbb\xbfdata: y\n\ndata: z\n\n"]),
        vec![frame(None, "x"), frame(None, "z")]
    );
}

#[test]
fn bytes_that_are_no_text_are_held_back_and_reported_at_the_end() {
    let mut decoder = EventStreamDecoder::new();
    decoder.feed(b"data: ok\n\ndata: \xff\xfe\n\ndata: later\n\n");
    assert_eq!(decoder.held_back(), 17);
    assert_eq!(decoder.poll(), Pull::Frame(frame(None, "ok")));
    decoder.accept();
    // nothing behind the first byte that is no text is framed
    assert_eq!(decoder.poll(), Pull::NeedInput);
    decoder.feed(b"data: more\n\n");
    assert_eq!(decoder.poll(), Pull::NeedInput);
    assert_eq!(decoder.state(), StreamState::Accumulating);
    decoder.finish();
    assert_eq!(
        decoder.poll(),
        Pull::Fault(DispatchError::Transport {
            detail: "UTF8 error: invalid utf-8 sequence of 1 bytes from index 0".to_string()
        })
    );
    assert_eq!(decoder.state(), StreamState::Failed);
    assert_eq!(decoder.poll(), Pull::End);
}

#[test]
fn a_character_cut_by_a_chunk_boundary_waits_for_its_rest() {
    let mut decoder = EventStreamDecoder::new();
    decoder.feed(b"data: caf\xc3");
    assert_eq!(decoder.buffered(), 9);
    assert_eq!(decoder.held_back(), 1);
    assert_eq!(decoder.poll(), Pull::NeedInput);
    decoder.feed(b"\xa9\n\n");
    assert_eq!(decoder.held_back(), 0);
    assert_eq!(decoder.poll(), Pull::Frame(frame(None, "café")));
    decoder.accept();
    decoder.feed(b"data: \xf0\x9f");
    decoder.finish();
    assert_eq!(
        decoder.poll(),
        Pull::Fault(DispatchError::Transport {
            detail: "UTF8 error: incomplete utf-8 byte sequence from index 0".to_string()
        })
    );
}

/// What a consumer that accepts every payload gets from the decoder: name
/// and data of each frame, and the text of the error that ends the
/// sequence.
fn items_of(chunks: &[&[u8]], failure: Option<&str>) -> Vec<Result<(String, String), String>> {
    let mut decoder = EventStreamDecoder::new();
    let mut items = Vec::new();
    let mut next = 0;
    for _ in 0..10_000 {
        match decoder.poll() {
            Pull::Frame(frame) => {
                decoder.accept();
                items.push(Ok((frame.event.unwrap_or("message".to_string()), frame.data)));
            },
            Pull::NeedInput => {
                if next < chunks.len() {
                    decoder.feed(chunks[next]);
                    next += 1;
                } else {
                    match failure {
                        None => decoder.finish(),
                        Some(detail) => {
                            let fault = decoder.fail(detail.to_string()).unwrap();
                            items.push(Err(fault.message()));
                        },
                    }
                }
            },
            Pull::Fault(fault) => items.push(Err(fault.message())),
            Pull::End => return items,
        }
    }
    panic!("the decoder did not end");
}

/// What eventsource_stream makes of the same source.
fn reference_items(
    chunks: &[&[u8]],
    failure: Option<&str>,
) -> Vec<Result<(String, String), String>> {
    let mut source: Vec<Result<Vec<u8>, String>> = chunks.iter().map(|c| Ok(c.to_vec())).collect();
    if let Some(detail) = failure {
        source.push(Err(detail.to_string()));
    }
    let items = futures_util::stream::iter(source)
        .eventsource()
        .collect::<Vec<_>>()
        .now_or_never()
        .unwrap();
    items
        .into_iter()
        .map(|item| match item {
            Ok(event) => Ok((event.event, event.data)),
            Err(error) => Err(error.to_string()),
        })
        .collect()
}

#[test]
fn agrees_with_eventsource_stream_on_broken_streams() {
    let streams: [&[u8]; 6] = [
        b"data: ok\n\ndata: \xff\xfe\n\ndata: later\n\n",
        b"data: a\n\n: \xc0\xaf\n\ndata: b\n\n",
        b"data: a\n\ndata: b\n\ndata: caf\xc3",
        b"\x80data: a\n\n",
        b"event: \xe2\x82\xac\ndata: \xe2\x82\n\n",
        b"data: \xed\xa0\x80\n\n",
    ];
    for stream in streams {
        let expected = reference_items(&[stream], None);
        assert!(matches!(expected.last(), Some(Err(_))));
        assert_eq!(items_of(&[stream], None), expected);
        for cut in 0..=stream.len() {
            let (a, b) = stream.split_at(cut);
            assert_eq!(reference_items(&[a, b], None), expected, "reference, cut at {}", cut);
            assert_eq!(items_of(&[a, b], None), expected, "cut at {}", cut);
        }
    }
}

#[test]
fn agrees_with_eventsource_stream_on_a_source_that_fails() {
    let stream: &[u8] = b"data: {\"n\":1}\n\ndata: {\"n\":2}\n\ndata: {\"n\":";
    let expected = reference_items(&[stream], Some("connection reset"));
    assert_eq!(
        expected,
        vec![
            Ok(("message".to_string(), "{\"n\":1}".to_string())),
            Ok(("message".to_string(), "{\"n\":2}".to_string())),
            Err("Transport error: connection reset".to_string()),
        ]
    );
    for cut in 0..=stream.len() {
        let (a, b) = stream.split_at(cut);
        assert_eq!(reference_items(&[a, b], Some("connection reset")), expected);
        assert_eq!(items_of(&[a, b], Some("connection reset")), expected, "cut at {}", cut);
    }
}

#[test]
fn agrees_with_eventsource_stream() {
    let streams: [&[u8]; 9] = [
        THREE,
        b"data: Hello, world!\n\n",
        b"data: Hello,\ndata: world!\n\n",
        b"data: Hello,\n\ndata: world!\n\n",
        b": test stream\n\ndata: first event\nid: 1\n\ndata:second event\nid\n\ndata:  third event\n\n",
        b"data\n\ndata\ndata\n\ndata:\n",
        b"event: add\r\ndata: 73857293\r\n\r\nevent: remove\rdata: 2153\r\revent: add\ndata: 113411\n\n",
        b"event: ping\n\n\n\ndata: caf\xc3\xa9\ndata\n\nevent: x:y\ndata: a: b\n\n",
        b"\n\n\r\n:\n\ndata:\n:c\ndata: \n\nevent\ndata:x\r\n\r\n",
    ];
    for stream in streams {
        let expected = reference_frames(&[stream]);
        assert_eq!(named(&frames_of(&[stream])), expected);
        for cut in 0..=stream.len() {
            let (a, b) = stream.split_at(cut);
            assert_eq!(reference_frames(&[a, b]), expected, "reference, cut at {}", cut);
            assert_eq!(named(&frames_of(&[a, b])), expected, "cut at {}", cut);
        }
    }
}

#[test]
fn scanner_finds_lines_and_blocks() {
    let buf = b"ab\r\ncd\n\nrest\r".to_vec();
    assert_eq!(find_line(&buf, 0), Some((2, 4)));
    assert_eq!(find_line(&buf, 4), Some((6, 7)));
    assert_eq!(find_line(&buf, 7), Some((7, 8)));
    // a carriage return at the very end may be half of a terminator
    assert_eq!(find_line(&buf, 8), None);
    assert_eq!(find_line(&buf, buf.len()), None);
    let (end, name, data) = read_block(&b"event: e\ndata: d\n\nmore".to_vec(), 0).unwrap();
    assert_eq!((end, name, data), (18, b"e".to_vec(), b"d\n".to_vec()));
    assert_eq!(read_block(&b"data: d\n".to_vec(), 0), None);
    let buf = b": c\n\n\ndata: d\n\ntail".to_vec();
    assert_eq!(scan_from(&buf, 0), (Some((Vec::new(), b"d\n".to_vec())), 15));
    assert_eq!(scan_from(&buf, 15), (None, 15));
    // blocks without data in front of an incomplete one can be let go
    assert_eq!(scan_from(&b": c\n\n\ndata: d\n".to_vec(), 0), (None, 6));
}
