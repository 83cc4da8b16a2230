//! The protocol codec: commands are encoded to one line each, and the
//! helper's output is decoded into units for the router.

use crate::events::{
    inbound_views, optional_inbound, HelperOutput, HelperOutputView, Inbound, InboundView,
};
use crate::framing::{
    complete_lines, joined, lemma_chunking_is_invisible, lemma_first_break,
    lemma_first_break_at, lemma_no_break, line_views, lines_fed, pending_fed, unfinished,
    LineDecoder, LINE_BREAK,
};
use crate::json::{
    lemma_member_at, lemma_object_view, member_values, parsed_json, printed_json, Json, JsonValue,
    Member,
};
use crate::model::{envelope_of, record_field, text_of, ProtocolMessage, ProtocolMessageView};
use crate::text::{text_of_bytes, trim, trim_end, without_outer_space, without_trailing_space};
use vstd::prelude::*;
use vstd::string::*;
use vstd::utf8::*;

verus! {

/// The value of an optional JSON tree.
pub open spec fn optional_json(j: Option<Json>) -> Option<JsonValue> {
    match j {
        Some(v) => Some(v@),
        None => None,
    }
}

/// The JSON object of a command: its type, its name and its payload, which is
/// `null` where there is none.
pub open spec fn command_json(command: Seq<char>, payload: Option<JsonValue>) -> JsonValue {
    JsonValue::Object(
        seq![
            ("type"@, JsonValue::Text("command"@)),
            ("command"@, JsonValue::Text(command)),
            ("payload"@, wire_payload(payload)),
        ],
    )
}

/// The text of a command on the wire, without its line break.
pub open spec fn command_text(command: Seq<char>, payload: Option<JsonValue>) -> Seq<char> {
    printed_json(command_json(command, payload))
}

/// The bytes of a command on the wire: its text and one line break.
pub open spec fn command_line(command: Seq<char>, payload: Option<JsonValue>) -> Seq<u8> {
    encode_utf8(command_text(command, payload)) + seq![LINE_BREAK]
}

/// The payload that a command carries on the wire: its own, or `null`.
pub open spec fn wire_payload(payload: Option<JsonValue>) -> JsonValue {
    match payload {
        Some(p) => p,
        None => JsonValue::Null,
    }
}

/// The JSON object of a command holds the command's name and payload as they
/// were given: read as an envelope it is of type `command` with that payload,
/// and its member `command` is the name.
pub proof fn lemma_command_json_keeps_name_and_payload(
    command: Seq<char>,
    payload: Option<JsonValue>,
)
    ensures
        envelope_of(command_json(command, payload)) == Some(
            ProtocolMessageView { kind: "command"@, payload: wire_payload(payload) },
        ),
        text_of(record_field(command_json(command, payload), "command"@, 1)) == Some(command),
{
    reveal_strlit("type");
    reveal_strlit("command");
    reveal_strlit("payload");
    assert("type"@.len() == 4 && "command"@.len() == 7 && "payload"@[0] != "command"@[0]);
    let members = command_json(command, payload)->Object_0;
    lemma_member_at(members, 0, "type"@);
    lemma_member_at(members, 1, "command"@);
    lemma_member_at(members, 2, "payload"@);
}

/// Encodes a command. The name is not checked against any list: the command
/// set belongs to the helper.
///
/// The result is exactly one line: a decoder that is fed these bytes yields
/// the command's text as its only line and keeps nothing back.
pub fn encode_command(command: &str, payload: Option<Json>) -> (line: Vec<u8>)
    ensures
        line@ == command_line(command@, optional_json(payload)),
        complete_lines(line@) == seq![encode_utf8(command_text(command@, optional_json(payload)))],
        unfinished(line@) == Seq::<u8>::empty(),
{
    let mut members: Vec<Member> = Vec::new();
    members.push(Member { key: "type".to_owned(), value: Json::Text("command".to_owned()) });
    members.push(Member { key: "command".to_owned(), value: Json::Text(command.to_owned()) });
    members.push(
        Member {
            key: "payload".to_owned(),
            value: match payload {
                Some(p) => p,
                None => Json::Null,
            },
        },
    );
    proof {
        lemma_object_view(members);
        assert(member_values(members@) =~= command_json(
            command@,
            optional_json(payload),
        )->Object_0);
    }
    let text = Json::Object(members).print();
    let mut line = text.as_str().as_bytes_vec();
    let ghost body = line@;
    line.push(LINE_BREAK);
    proof {
        lemma_first_break(body);
        lemma_first_break_at(line@, body.len() as int);
        assert(line@.subrange(0, body.len() as int) == body);
        let tail = line@.subrange(body.len() as int + 1, line@.len() as int);
        assert(tail == Seq::<u8>::empty());
        lemma_first_break_at(tail, 0);
        lemma_no_break(tail);
        assert(seq![body] + Seq::<Seq<u8>>::empty() == seq![body]);
    }
    line
}

/// What a line of standard output turns into once its text and the outcome
/// of parsing that text are known: a unit with the envelope if the text holds
/// one, a unit with the bare text if it holds none and is not empty, nothing
/// if it is empty.
pub open spec fn frame_of(text: Seq<char>, parsed: Option<JsonValue>) -> Option<InboundView> {
    let message = match parsed {
        Some(j) => envelope_of(j),
        None => None,
    };
    if message is None && text.len() == 0 {
        None
    } else {
        Some(InboundView::Line { text, message })
    }
}

/// What a line of standard output turns into. The line is read as UTF-8 and
/// loses its trailing white space; a line that is not UTF-8 yields nothing.
pub open spec fn line_inbound(line: Seq<u8>) -> Option<InboundView> {
    if valid_utf8(line) {
        let text = trim_end(decode_utf8(line));
        frame_of(text, parsed_json(text))
    } else {
        None
    }
}

/// What a line of standard error turns into: its text without surrounding
/// white space, unless that is empty or the line is not UTF-8.
pub open spec fn stderr_inbound(line: Seq<u8>) -> Option<InboundView> {
    if valid_utf8(line) && trim(decode_utf8(line)).len() > 0 {
        Some(InboundView::Diagnostic(trim(decode_utf8(line))))
    } else {
        None
    }
}

/// Whether the outside printer and parser agree on a command: the text
/// printed for it is read back as the same value and does not end in white
/// space.
pub open spec fn prints_faithfully(command: Seq<char>, payload: Option<JsonValue>) -> bool {
    &&& parsed_json(command_text(command, payload)) == Some(command_json(command, payload))
    &&& trim_end(command_text(command, payload)) == command_text(command, payload)
}

/// Wherever the outside printer and parser agree on a command, decoding the
/// line of the encoded command recovers it: one unit that holds an envelope
/// of type `command` with the payload as it was given.
pub proof fn lemma_decoding_an_encoded_command(command: Seq<char>, payload: Option<JsonValue>)
    ensures
        prints_faithfully(command, payload) ==> line_inbound(
            encode_utf8(command_text(command, payload)),
        ) == Some(
            InboundView::Line {
                text: command_text(command, payload),
                message: Some(
                    ProtocolMessageView { kind: "command"@, payload: wire_payload(payload) },
                ),
            },
        ),
{
    broadcast use {encode_utf8_valid_utf8, encode_utf8_decode_utf8};

    let text = command_text(command, payload);
    assert(valid_utf8(encode_utf8(text)));
    assert(decode_utf8(encode_utf8(text)) == text);
    lemma_command_json_keeps_name_and_payload(command, payload);
}

/// The units of a sequence of lines, in line order.
pub open spec fn lines_inbound(lines: Seq<Seq<u8>>) -> Seq<InboundView>
    decreases lines.len(),
{
    if lines.len() == 0 {
        Seq::empty()
    } else {
        lines_inbound(lines.drop_last()) + match line_inbound(lines.last()) {
            Some(unit) => seq![unit],
            None => Seq::empty(),
        }
    }
}

/// The units that one notification yields when `pending` is buffered.
pub open spec fn output_inbound(pending: Seq<u8>, output: HelperOutputView) -> Seq<InboundView> {
    match output {
        HelperOutputView::Stdout(chunk) => lines_inbound(complete_lines(pending + chunk)),
        HelperOutputView::Stderr(line) => match stderr_inbound(line) {
            Some(unit) => seq![unit],
            None => Seq::empty(),
        },
        HelperOutputView::Terminated(code) => seq![InboundView::Exited(code)],
        HelperOutputView::Error(text) => seq![InboundView::Diagnostic(text)],
    }
}

/// What is buffered after one notification when `pending` was buffered
/// before.
pub open spec fn output_pending(pending: Seq<u8>, output: HelperOutputView) -> Seq<u8> {
    match output {
        HelperOutputView::Stdout(chunk) => unfinished(pending + chunk),
        _ => pending,
    }
}

/// The units that come out when `chunks` arrive one after another on standard
/// output, starting from the buffer `pending`.
pub open spec fn chunks_inbound(pending: Seq<u8>, chunks: Seq<Seq<u8>>) -> Seq<InboundView>
    decreases chunks.len(),
{
    if chunks.len() == 0 {
        Seq::empty()
    } else {
        chunks_inbound(pending, chunks.drop_last()) + output_inbound(
            pending_fed(pending, chunks.drop_last()),
            HelperOutputView::Stdout(chunks.last()),
        )
    }
}

/// The units of two runs of lines are those of the first run followed by
/// those of the second.
pub proof fn lemma_lines_inbound_concat(a: Seq<Seq<u8>>, b: Seq<Seq<u8>>)
    ensures
        lines_inbound(a + b) == lines_inbound(a) + lines_inbound(b),
    decreases b.len(),
{
    if b.len() == 0 {
        assert(a + b == a);
        assert(lines_inbound(a) + Seq::<InboundView>::empty() == lines_inbound(a));
    } else {
        let ab = a + b;
        assert(ab.drop_last() == a + b.drop_last());
        assert(ab.last() == b.last());
        lemma_lines_inbound_concat(a, b.drop_last());
        let tail = match line_inbound(b.last()) {
            Some(unit) => seq![unit],
            None => Seq::empty(),
        };
        assert((lines_inbound(a) + lines_inbound(b.drop_last())) + tail == lines_inbound(a) + (
        lines_inbound(b.drop_last()) + tail));
    }
}

/// However a stream of standard output is cut into chunks, decoding the
/// chunks one after another yields the same units, in the same order, as
/// decoding the whole stream in one pass.
pub proof fn lemma_decoding_ignores_chunking(chunks: Seq<Seq<u8>>)
    ensures
        chunks_inbound(Seq::empty(), chunks) == lines_inbound(complete_lines(joined(chunks))),
        pending_fed(Seq::empty(), chunks) == unfinished(joined(chunks)),
{
    let none = Seq::<u8>::empty();
    lemma_first_break_at(none, 0);
    lemma_chunks_inbound(none, chunks);
    lemma_chunking_is_invisible(none, chunks);
    assert(none + joined(chunks) == joined(chunks));
}

/// The units of chunked decoding are the units of the lines that chunked
/// framing yields.
pub proof fn lemma_chunks_inbound(pending: Seq<u8>, chunks: Seq<Seq<u8>>)
    ensures
        chunks_inbound(pending, chunks) == lines_inbound(lines_fed(pending, chunks)),
    decreases chunks.len(),
{
    if chunks.len() > 0 {
        let front = chunks.drop_last();
        lemma_chunks_inbound(pending, front);
        lemma_lines_inbound_concat(
            lines_fed(pending, front),
            complete_lines(pending_fed(pending, front) + chunks.last()),
        );
    }
}

/// Turns the text of a line and the outcome of parsing it into a unit for
/// the router.
pub fn read_frame(text: String, parsed: Option<Json>) -> (r: Option<Inbound>)
    ensures
        optional_inbound(r) == frame_of(text@, optional_json(parsed)),
{
    let message = match parsed {
        Some(j) => ProtocolMessage::from_json(j),
        None => None,
    };
    if message.is_none() && text.as_str().is_empty() {
        None
    } else {
        Some(Inbound::Line { text, message })
    }
}

/// Decodes one line of standard output.
pub fn read_line(line: &[u8]) -> (r: Option<Inbound>)
    ensures
        optional_inbound(r) == line_inbound(line@),
{
    match text_of_bytes(line) {
        Some(text) => {
            let trimmed = without_trailing_space(text);
            let parsed = Json::parse(trimmed);
            read_frame(trimmed.to_owned(), parsed)
        },
        None => None,
    }
}

/// Decodes one line of standard error.
pub fn read_stderr(line: &[u8]) -> (r: Option<Inbound>)
    ensures
        optional_inbound(r) == stderr_inbound(line@),
{
    match text_of_bytes(line) {
        Some(text) => {
            let trimmed = without_outer_space(text);
            if trimmed.is_empty() {
                None
            } else {
                Some(Inbound::Diagnostic(trimmed.to_owned()))
            }
        },
        None => None,
    }
}

/// The decoder of one helper's output. It belongs to whoever reads that
/// helper's notifications and lives as long as the helper does.
pub struct StreamDecoder {
    lines: LineDecoder,
}

impl View for StreamDecoder {
    type V = Seq<u8>;

    /// The bytes of the line of standard output that is not finished yet.
    closed spec fn view(&self) -> Seq<u8> {
        self.lines@
    }
}

impl StreamDecoder {
    /// A decoder with nothing buffered.
    pub fn new() -> (r: Self)
        ensures
            r@ == Seq::<u8>::empty(),
    {
        StreamDecoder { lines: LineDecoder::new() }
    }

    /// Decodes one notification into units for the router, in stream order.
    pub fn accept(&mut self, output: HelperOutput) -> (units: Vec<Inbound>)
        ensures
            inbound_views(units@) == output_inbound(old(self)@, output@),
            final(self)@ == output_pending(old(self)@, output@),
    {
        let mut units: Vec<Inbound> = Vec::new();
        match output {
            HelperOutput::Stdout(chunk) => {
                let lines = self.lines.feed(chunk.as_slice());
                let ghost all = line_views(lines@);
                let mut i: usize = 0;
                assert(all.subrange(0, 0) == Seq::<Seq<u8>>::empty());
                assert(inbound_views(units@) =~= lines_inbound(all.subrange(0, 0)));
                while i < lines.len()
                    invariant
                        0 <= i <= lines.len(),
                        all == line_views(lines@),
                        inbound_views(units@) == lines_inbound(all.subrange(0, i as int)),
                    decreases lines.len() - i,
                {
                    let ghost before = inbound_views(units@);
                    proof {
                        let next = all.subrange(0, i + 1);
                        assert(next.drop_last() == all.subrange(0, i as int));
                        assert(next.last() == lines@[i as int]@);
                    }
                    match read_line(lines[i].as_slice()) {
                        Some(unit) => {
                            units.push(unit);
                            assert(inbound_views(units@) =~= before + seq![unit@]);
                        },
                        None => {
                            assert(before + Seq::<InboundView>::empty() == before);
                        },
                    }
                    i += 1;
                }
                assert(all.subrange(0, i as int) == all);
            },
            HelperOutput::Stderr(line) => {
                match read_stderr(line.as_slice()) {
                    Some(unit) => {
                        units.push(unit);
                        assert(inbound_views(units@) =~= seq![unit@]);
                    },
                    None => {
                        assert(inbound_views(units@) =~= Seq::<InboundView>::empty());
                    },
                }
            },
            HelperOutput::Terminated(code) => {
                units.push(Inbound::Exited(code));
                assert(inbound_views(units@) =~= seq![InboundView::Exited(code)]);
            },
            HelperOutput::Error(text) => {
                units.push(Inbound::Diagnostic(text));
                assert(inbound_views(units@) =~= seq![InboundView::Diagnostic(text@)]);
            },
        }
        units
    }
}

} // verus!
