use novelseek::sse::SseDecoder;

fn delta_line(content: &str) -> String {
    format!(
        "data: {{\"choices\":[{{\"delta\":{{\"content\":\"{}\"}}}}]}}\n",
        content
    )
}

fn feed_all(chunks: &[&[u8]]) -> Vec<String> {
    let mut dec = SseDecoder::new();
    let mut out = Vec::new();
    for chunk in chunks {
        out.extend(dec.feed(chunk));
    }
    if let Some(last) = dec.finish() {
        out.push(last);
    }
    out
}

#[test]
fn single_chunk_yields_deltas_in_order() {
    let payload = format!("{}{}{}", delta_line("Hello"), delta_line(" "), delta_line("world"));
    let out = feed_all(&[payload.as_bytes()]);
    assert_eq!(out, vec!["Hello", " ", "world"]);
}

#[test]
fn chunk_splits_do_not_change_deltas() {
    let payload = format!(
        "{}{}{}",
        delta_line("你好"),
        delta_line("，世界"),
        delta_line("!")
    );
    let bytes = payload.as_bytes();
    let whole = feed_all(&[bytes]);

    // Byte-by-byte: every line and every UTF-8 sequence is split.
    let mut dec = SseDecoder::new();
    let mut out = Vec::new();
    for b in bytes {
        out.extend(dec.feed(std::slice::from_ref(b)));
    }
    if let Some(last) = dec.finish() {
        out.push(last);
    }
    assert_eq!(out, whole);

    // Every two-chunk split, including those in the middle of a line and in
    // the middle of a multi-byte character.
    for cut in 1..bytes.len() {
        let halves = feed_all(&[&bytes[..cut], &bytes[cut..]]);
        assert_eq!(halves, whole, "split at {} changed the deltas", cut);
    }
}

#[test]
fn done_yields_no_delta_and_no_error() {
    let payload = format!("{}data: [DONE]\n", delta_line("a"));
    let out = feed_all(&[payload.as_bytes()]);
    assert_eq!(out, vec!["a"]);
}

#[test]
fn done_with_carriage_return_is_consumed() {
    let out = feed_all(&[b"data: [DONE]\r\n"]);
    assert!(out.is_empty());
}

#[test]
fn unparseable_json_is_skipped_and_stream_goes_on() {
    let payload = format!("data: {{not json}}\n{}", delta_line("b"));
    let out = feed_all(&[payload.as_bytes()]);
    assert_eq!(out, vec!["b"]);
}

#[test]
fn heartbeat_and_blank_lines_are_skipped() {
    let payload = format!(": keep-alive\n\n{}", delta_line("x"));
    let out = feed_all(&[payload.as_bytes()]);
    assert_eq!(out, vec!["x"]);
}

#[test]
fn frame_without_content_yields_nothing() {
    let payload = "data: {\"choices\":[{\"delta\":{},\"finish_reason\":\"stop\"}]}\n";
    let out = feed_all(&[payload.as_bytes()]);
    assert!(out.is_empty());
}

#[test]
fn crlf_line_endings_are_accepted() {
    let payload = "data: {\"choices\":[{\"delta\":{\"content\":\"hi\"}}]}\r\n";
    let out = feed_all(&[payload.as_bytes()]);
    assert_eq!(out, vec!["hi"]);
}

#[test]
fn unterminated_final_line_is_interpreted_at_finish() {
    let payload = "data: {\"choices\":[{\"delta\":{\"content\":\"tail\"}}]}";
    let mut dec = SseDecoder::new();
    let mid = dec.feed(payload.as_bytes());
    assert!(mid.is_empty());
    assert_eq!(dec.finish(), Some("tail".to_string()));
}

#[test]
fn json_split_across_chunks_is_parsed_once_complete() {
    let line = delta_line("abc");
    let bytes = line.as_bytes();
    let mut dec = SseDecoder::new();
    let first = dec.feed(&bytes[..10]);
    assert!(first.is_empty());
    let second = dec.feed(&bytes[10..]);
    assert_eq!(second, vec!["abc"]);
}
