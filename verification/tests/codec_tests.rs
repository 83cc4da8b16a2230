use tini_presence::codec::{encode_command, read_frame, read_line, read_stderr, StreamDecoder};
use tini_presence::events::{HelperOutput, Inbound};
use tini_presence::framing::LineDecoder;
use tini_presence::json::{Json, Member};
use tini_presence::model::{AppConfig, ProtocolMessage, TrackStatus};

fn member(key: &str, value: Json) -> Member {
    Member { key: key.to_string(), value }
}

fn text(s: &str) -> Json {
    Json::Text(s.to_string())
}

fn sample_config() -> AppConfig {
    AppConfig {
        music_folders: vec!["/music".to_string(), "/more \"music\"\n".to_string()],
        discord_client_id: Some("1234".to_string()),
        copyparty_api_key: None,
        copyparty_url: Some("https://example.test/".to_string()),
        copyparty_path: None,
        theme: Some("dark".to_string()),
    }
}

fn feed_all(chunks: &[&[u8]]) -> (Vec<Vec<u8>>, usize) {
    let mut decoder = LineDecoder::new();
    let mut lines = Vec::new();
    for chunk in chunks {
        lines.extend(decoder.feed(chunk));
    }
    (lines, decoder.pending_len())
}

#[test]
fn feed_keeps_an_unfinished_line() {
    let mut decoder = LineDecoder::new();
    assert_eq!(decoder.feed(b"abc"), Vec::<Vec<u8>>::new());
    assert_eq!(decoder.pending_len(), 3);
    assert_eq!(decoder.feed(b"def\ngh"), vec![b"abcdef".to_vec()]);
    assert_eq!(decoder.pending_len(), 2);
}

#[test]
fn feed_yields_every_line_of_a_chunk() {
    let mut decoder = LineDecoder::new();
    let lines = decoder.feed(b"one\n\ntwo\nthree");
    assert_eq!(lines, vec![b"one".to_vec(), b"".to_vec(), b"two".to_vec()]);
    assert_eq!(decoder.pending_len(), 5);
    assert_eq!(decoder.feed(b"\n"), vec![b"three".to_vec()]);
    assert_eq!(decoder.pending_len(), 0);
}

#[test]
fn feed_of_an_empty_chunk_changes_nothing() {
    let mut decoder = LineDecoder::new();
    assert_eq!(decoder.feed(b"par"), Vec::<Vec<u8>>::new());
    assert_eq!(decoder.feed(b""), Vec::<Vec<u8>>::new());
    assert_eq!(decoder.pending_len(), 3);
}

#[test]
fn chunk_boundaries_do_not_show() {
    let stream: &[u8] = b"{\"a\":1}\nsecond line\n\nlast \xc3\xa9 one\ntail";
    let (whole, whole_pending) = feed_all(&[stream]);
    let single: Vec<&[u8]> = stream.chunks(1).collect();
    let (by_byte, by_byte_pending) = feed_all(&single);
    let triples: Vec<&[u8]> = stream.chunks(3).collect();
    let (by_three, by_three_pending) = feed_all(&triples);
    assert_eq!(whole.len(), 4);
    assert_eq!(whole[3], b"last \xc3\xa9 one".to_vec());
    assert_eq!(by_byte, whole);
    assert_eq!(by_three, whole);
    assert_eq!(whole_pending, 4);
    assert_eq!(by_byte_pending, 4);
    assert_eq!(by_three_pending, 4);
}

#[test]
fn a_message_split_over_two_chunks_is_one_status_message() {
    let mut decoder = StreamDecoder::new();
    let first = decoder.accept(HelperOutput::Stdout(b"{\"typ".to_vec()));
    assert!(first.is_empty());
    let second = decoder.accept(HelperOutput::Stdout(
        b"e\":\"status\",\"payload\":{\"playing\":true}}\n".to_vec(),
    ));
    assert_eq!(second.len(), 1);
    match &second[0] {
        Inbound::Line { text, message: Some(message) } => {
            assert_eq!(text, "{\"type\":\"status\",\"payload\":{\"playing\":true}}");
            assert_eq!(message.kind, "status");
            let status = TrackStatus::from_json(&message.payload).unwrap();
            assert!(status.playing);
            assert_eq!(status.title, None);
        }
        other => panic!("unexpected unit {:?}", other),
    }
}

#[test]
fn chunked_and_whole_decoding_agree_on_messages() {
    let stream: &[u8] =
        b"{\"type\":\"status\",\"payload\":{\"playing\":false}}\nnoise\n{\"type\":\"ping\",\"payload\":{}}\n";
    let mut whole = StreamDecoder::new();
    let expected = whole.accept(HelperOutput::Stdout(stream.to_vec()));
    assert_eq!(expected.len(), 3);
    for size in 1..stream.len() {
        let mut decoder = StreamDecoder::new();
        let mut units = Vec::new();
        for chunk in stream.chunks(size) {
            units.extend(decoder.accept(HelperOutput::Stdout(chunk.to_vec())));
        }
        assert_eq!(units, expected);
    }
}

#[test]
fn encode_command_without_payload_is_exact() {
    let line = encode_command("get-config", None);
    assert_eq!(
        line,
        b"{\"command\":\"get-config\",\"payload\":null,\"type\":\"command\"}\n".to_vec()
    );
}

#[test]
fn encode_command_passes_unknown_names_through() {
    let line = encode_command("brand-new", Some(Json::Bool(true)));
    assert_eq!(
        line,
        b"{\"command\":\"brand-new\",\"payload\":true,\"type\":\"command\"}\n".to_vec()
    );
}

#[test]
fn encoded_command_is_exactly_one_line() {
    let payload = Json::Object(vec![member("note", text("line one\nline two\r\n"))]);
    let line = encode_command("update\nconfig", Some(payload));
    assert_eq!(line.last(), Some(&b'\n'));
    assert_eq!(line.iter().filter(|b| **b == b'\n').count(), 1);
    let mut decoder = LineDecoder::new();
    let lines = decoder.feed(&line);
    assert_eq!(lines.len(), 1);
    assert_eq!(decoder.pending_len(), 0);
    assert_eq!(lines[0], line[..line.len() - 1].to_vec());
}

#[test]
fn encoding_then_decoding_recovers_the_command() {
    let config = sample_config();
    let line = encode_command("update-config", Some(config.to_json()));
    let mut decoder = StreamDecoder::new();
    let units = decoder.accept(HelperOutput::Stdout(line));
    assert_eq!(units.len(), 1);
    match &units[0] {
        Inbound::Line { text, message: Some(message) } => {
            assert_eq!(message.kind, "command");
            assert_eq!(AppConfig::from_json(&message.payload), Some(config));
            match Json::parse(text) {
                Some(Json::Object(members)) => {
                    assert_eq!(
                        Json::member(&members, "command"),
                        Some(&text_json("update-config"))
                    );
                    assert_eq!(Json::member(&members, "type"), Some(&text_json("command")));
                    assert_eq!(members.len(), 3);
                }
                other => panic!("unexpected value {:?}", other),
            }
        }
        other => panic!("unexpected unit {:?}", other),
    }
}

fn text_json(s: &str) -> Json {
    Json::Text(s.to_string())
}

#[test]
fn read_line_trims_trailing_white_space_only() {
    let unit = read_line(b"  hello world \t\r");
    assert_eq!(
        unit,
        Some(Inbound::Line { text: "  hello world".to_string(), message: None })
    );
}

#[test]
fn read_line_trims_unicode_white_space() {
    let unit = read_line("plain\u{00a0}\u{2003}\u{3000}".as_bytes());
    assert_eq!(unit, Some(Inbound::Line { text: "plain".to_string(), message: None }));
}

#[test]
fn read_line_drops_empty_and_blank_lines() {
    assert_eq!(read_line(b""), None);
    assert_eq!(read_line(b"   \t"), None);
}

#[test]
fn read_line_drops_a_line_that_is_not_utf8() {
    assert_eq!(read_line(b"\xff\xfe broken"), None);
}

#[test]
fn read_line_reads_an_envelope_with_extra_members() {
    let unit = read_line(b"{\"type\":\"config\",\"extra\":[1,2],\"payload\":null}\r");
    assert_eq!(
        unit,
        Some(Inbound::Line {
            text: "{\"type\":\"config\",\"extra\":[1,2],\"payload\":null}".to_string(),
            message: Some(ProtocolMessage { kind: "config".to_string(), payload: Json::Null }),
        })
    );
}

#[test]
fn read_line_reads_an_envelope_in_array_form() {
    let unit = read_line(b"[\"status\", {\"playing\": false}]");
    match unit {
        Some(Inbound::Line { message: Some(message), .. }) => {
            assert_eq!(message.kind, "status");
            assert_eq!(message.payload, Json::Object(vec![member("playing", Json::Bool(false))]));
        }
        other => panic!("unexpected unit {:?}", other),
    }
}

#[test]
fn json_that_is_no_envelope_is_plain_text() {
    for line in [
        "{\"type\":\"status\"}",
        "{\"payload\":{}}",
        "{\"type\":5,\"payload\":{}}",
        "[\"status\"]",
        "[\"status\",1,2]",
        "42",
        "\"status\"",
        "null",
    ] {
        assert_eq!(
            read_line(line.as_bytes()),
            Some(Inbound::Line { text: line.to_string(), message: None }),
            "line {}",
            line
        );
    }
}

#[test]
fn read_frame_decides_from_text_and_parse_outcome() {
    assert_eq!(read_frame(String::new(), None), None);
    assert_eq!(
        read_frame("x".to_string(), None),
        Some(Inbound::Line { text: "x".to_string(), message: None })
    );
    assert_eq!(
        read_frame("x".to_string(), Some(Json::Bool(true))),
        Some(Inbound::Line { text: "x".to_string(), message: None })
    );
    let envelope = Json::Object(vec![member("payload", Json::Null), member("type", text("t"))]);
    assert_eq!(
        read_frame(String::new(), Some(envelope)),
        Some(Inbound::Line {
            text: String::new(),
            message: Some(ProtocolMessage { kind: "t".to_string(), payload: Json::Null }),
        })
    );
}

#[test]
fn read_stderr_trims_both_ends() {
    assert_eq!(
        read_stderr(b" \t warning: low disk \r\n"),
        Some(Inbound::Diagnostic("warning: low disk".to_string()))
    );
    assert_eq!(read_stderr(b" \r\n"), None);
    assert_eq!(read_stderr(b""), None);
    assert_eq!(read_stderr(b"\xc3"), None);
}

#[test]
fn accept_turns_every_notification_into_units() {
    let mut decoder = StreamDecoder::new();
    assert_eq!(
        decoder.accept(HelperOutput::Stderr(b"oops\n".to_vec())),
        vec![Inbound::Diagnostic("oops".to_string())]
    );
    assert_eq!(
        decoder.accept(HelperOutput::Error("pipe closed".to_string())),
        vec![Inbound::Diagnostic("pipe closed".to_string())]
    );
    assert_eq!(
        decoder.accept(HelperOutput::Terminated(Some(3))),
        vec![Inbound::Exited(Some(3))]
    );
    assert_eq!(decoder.accept(HelperOutput::Terminated(None)), vec![Inbound::Exited(None)]);
}

#[test]
fn stderr_does_not_disturb_the_stdout_buffer() {
    let mut decoder = StreamDecoder::new();
    assert!(decoder.accept(HelperOutput::Stdout(b"first ha".to_vec())).is_empty());
    assert_eq!(
        decoder.accept(HelperOutput::Stderr(b"in between".to_vec())),
        vec![Inbound::Diagnostic("in between".to_string())]
    );
    assert_eq!(
        decoder.accept(HelperOutput::Stdout(b"lf\n".to_vec())),
        vec![Inbound::Line { text: "first half".to_string(), message: None }]
    );
}
