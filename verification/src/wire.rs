//! The wire format of the control channel.
//!
//! Towards the renderer go commands, one per line of text. From the renderer
//! come records, one per line: `{"event":"<name>"}`, or
//! `{"event":"<name>",<data>}` where `<data>` is whatever else the renderer
//! put into the record. Lines of any other shape are not records.

use vstd::prelude::*;
use vstd::slice::{slice_subrange, slice_to_vec};
use vstd::string::StringExecFns;
use vstd::utf8::{encode_utf8, is_ascii_chars, is_ascii_chars_encode_utf8};
use crate::text::concat_text;

verus! {

/// The byte that ends a line.
pub const NEWLINE: u8 = 0x0a;

/// The byte `"`.
pub const QUOTE: u8 = 0x22;

/// The byte `\`.
pub const BACKSLASH: u8 = 0x5c;

/// The byte `,`.
pub const COMMA: u8 = 0x2c;

/// The byte `}`.
pub const CLOSE_BRACE: u8 = 0x7d;

/// The bytes of a text made of ASCII characters only.
pub open spec fn ascii_bytes(text: Seq<char>) -> Seq<u8> {
    Seq::new(text.len(), |i: int| text[i] as u8)
}

/// The bytes of an ASCII string literal.
fn literal_bytes(text: &'static str) -> (bytes: &'static [u8])
    requires
        is_ascii_chars(text@),
    ensures
        bytes@ == ascii_bytes(text@),
{
    let bytes = text.as_bytes();
    proof {
        is_ascii_chars_encode_utf8(text@);
        assert(bytes@ =~= ascii_bytes(text@));
    }
    bytes
}

/// Whether two byte strings are equal.
pub fn bytes_equal(left: &[u8], right: &[u8]) -> (equal: bool)
    ensures
        equal == (left@ == right@),
{
    if left.len() != right.len() {
        return false;
    }
    let mut i: usize = 0;
    while i < left.len()
        invariant
            i <= left.len(),
            left.len() == right.len(),
            forall|j: int| 0 <= j < i ==> left@[j] == right@[j],
        decreases left.len() - i,
    {
        if left[i] != right[i] {
            return false;
        }
        i += 1;
    }
    assert(left@ =~= right@);
    true
}

/// The command that makes the renderer load and play `path`.
pub open spec fn loadfile_text(path: Seq<char>) -> Seq<char> {
    "loadfile \""@ + path + "\""@
}

/// What is written to the channel for `command`: its UTF-8 bytes and a
/// newline.
pub open spec fn framed_command(command: Seq<char>) -> Seq<u8> {
    encode_utf8(command).push(NEWLINE)
}

/// The command that makes the renderer load and play `path`:
/// `loadfile "<path>"`.
pub fn loadfile_command(path: &str) -> (command: String)
    ensures
        command@ == loadfile_text(path@),
{
    let mut command = concat_text("loadfile \"", path);
    command.append("\"");
    command
}

/// The bytes to write for `command`: the command, then a newline.
pub fn frame_command(command: &str) -> (bytes: Vec<u8>)
    ensures
        bytes@ == framed_command(command@),
{
    let mut bytes = slice_to_vec(command.as_bytes());
    bytes.push(NEWLINE);
    bytes
}

/// A record from the renderer, as plain values: the name of the event and
/// the rest of the record as the renderer wrote it.
pub struct EventRecord {
    pub name: Seq<u8>,
    pub data: Seq<u8>,
}

/// A record from the renderer.
#[derive(Clone, Debug, PartialEq, Eq)]
pub struct IncomingEvent {
    /// The name of the event.
    pub name: Vec<u8>,
    /// What else the record holds, as the renderer wrote it; empty if nothing.
    pub data: Vec<u8>,
}

impl View for IncomingEvent {
    type V = EventRecord;

    open spec fn view(&self) -> EventRecord {
        EventRecord { name: self.name@, data: self.data@ }
    }
}

/// What every record begins with: `{"event":"`.
pub open spec fn record_head() -> Seq<u8> {
    ascii_bytes("{\"event\":\""@)
}

/// An event's name is not empty and holds neither `"` nor `\`.
pub open spec fn is_event_name(name: Seq<u8>) -> bool {
    &&& name.len() > 0
    &&& forall|i: int| 0 <= i < name.len() ==> #[trigger] name[i] != QUOTE && name[i] != BACKSLASH
}

/// Whether `line` is the record `record`: either `{"event":"<name>"}` with no
/// data, or `{"event":"<name>",<data>}`.
pub open spec fn is_record(line: Seq<u8>, record: EventRecord) -> bool {
    &&& is_event_name(record.name)
    &&& {
        ||| record.data.len() == 0 && line == record_head() + record.name + seq![
            QUOTE,
            CLOSE_BRACE,
        ]
        ||| line == record_head() + record.name + seq![QUOTE, COMMA] + record.data + seq![
            CLOSE_BRACE,
        ]
    }
}

/// The record that `line` is, if it is one.
pub open spec fn record_of(line: Seq<u8>) -> Option<EventRecord> {
    if exists|record: EventRecord| is_record(line, record) {
        Some(choose|record: EventRecord| is_record(line, record))
    } else {
        None
    }
}

proof fn lemma_record_head()
    ensures
        record_head().len() == 10,
        forall|i: int| 0 <= i < 10 ==> #[trigger] record_head()[i] != BACKSLASH,
        is_ascii_chars("{\"event\":\""@),
{
    reveal_strlit("{\"event\":\"");
}

/// Where the name of `record` ends in a line that is this record.
spec fn name_end(record: EventRecord) -> int {
    record.name.len() + 10int
}

proof fn lemma_record_shape(line: Seq<u8>, record: EventRecord)
    requires
        is_record(line, record),
    ensures
        line.len() >= name_end(record) + 2,
        line.subrange(0, 10) == record_head(),
        line.subrange(10, name_end(record)) == record.name,
        line[name_end(record)] == QUOTE,
        line[line.len() - 1] == CLOSE_BRACE,
        line.len() == name_end(record) + 2 ==> record.data.len() == 0,
        line.len() > name_end(record) + 2 ==> {
            &&& line[name_end(record) + 1] == COMMA
            &&& record.data == line.subrange(name_end(record) + 2, line.len() - 1)
        },
{
    lemma_record_head();
    let end = name_end(record);
    assert(line.subrange(0, 10) =~= record_head());
    assert(line.subrange(10, end) =~= record.name);
    if line.len() > end + 2 {
        assert(line.subrange(end + 2, line.len() - 1) =~= record.data);
    }
}

/// A line is at most one record.
pub proof fn lemma_record_unique(line: Seq<u8>, first: EventRecord, second: EventRecord)
    requires
        is_record(line, first),
        is_record(line, second),
    ensures
        first == second,
{
    lemma_record_shape(line, first);
    lemma_record_shape(line, second);
    let a = name_end(first);
    let b = name_end(second);
    if a < b {
        assert(second.name[a - 10] == line.subrange(10, b)[a - 10]);
    }
    if b < a {
        assert(first.name[b - 10] == line.subrange(10, a)[b - 10]);
    }
    assert(a == b);
    assert(first.name =~= second.name);
    assert(first.data =~= second.data);
}

/// `record_of` gives exactly the record that a line is.
pub proof fn lemma_record_of(line: Seq<u8>, record: EventRecord)
    ensures
        record_of(line) == Some(record) <==> is_record(line, record),
{
    if is_record(line, record) {
        lemma_record_unique(line, record, record_of(line)->0);
    }
}

/// Reads one line, without its newline, as a record.
pub fn decode_record(line: &[u8]) -> (event: Option<IncomingEvent>)
    ensures
        match event {
            Some(event) => record_of(line@) == Some(event@),
            None => record_of(line@) is None,
        },
{
    proof {
        lemma_record_head();
    }
    let head = literal_bytes("{\"event\":\"");
    let len = line.len();
    if len < 13 || !bytes_equal(slice_subrange(line, 0, 10), head) {
        proof {
            assert forall|record: EventRecord| !is_record(line@, record) by {
                if is_record(line@, record) {
                    lemma_record_shape(line@, record);
                }
            }
        }
        return None;
    }
    let mut quote: usize = 10;
    while quote < len && line[quote] != QUOTE && line[quote] != BACKSLASH
        invariant
            10 <= quote <= len,
            len == line@.len(),
            forall|j: int| 10 <= j < quote ==> line@[j] != QUOTE && line@[j] != BACKSLASH,
        decreases len - quote,
    {
        quote += 1;
    }
    proof {
        // Whatever record the line is, its name ends where the scan stopped.
        assert forall|record: EventRecord| is_record(line@, record) implies quote == name_end(
            record,
        ) by {
            lemma_record_shape(line@, record);
            let end = name_end(record);
            if quote < end {
                assert(record.name[quote - 10] == line@.subrange(10, end)[quote - 10]);
            }
        }
    }
    if quote == 10 || quote >= len - 1 || line[quote] != QUOTE || line[len - 1] != CLOSE_BRACE {
        proof {
            assert forall|record: EventRecord| !is_record(line@, record) by {
                if is_record(line@, record) {
                    lemma_record_shape(line@, record);
                }
            }
        }
        return None;
    }
    let name = slice_to_vec(slice_subrange(line, 10, quote));
    proof {
        assert forall|i: int| 0 <= i < name@.len() implies #[trigger] name@[i] != QUOTE && name@[i]
            != BACKSLASH by {
            assert(name@[i] == line@[10 + i]);
        }
    }
    if quote + 2 == len {
        let event = IncomingEvent { name, data: Vec::new() };
        proof {
            assert(line@ =~= record_head() + event@.name + seq![QUOTE, CLOSE_BRACE]) by {
                assert(line@.subrange(0, 10) == record_head());
            }
            lemma_record_of(line@, event@);
        }
        return Some(event);
    }
    if line[quote + 1] != COMMA {
        proof {
            assert forall|record: EventRecord| !is_record(line@, record) by {
                if is_record(line@, record) {
                    lemma_record_shape(line@, record);
                }
            }
        }
        return None;
    }
    let data = slice_to_vec(slice_subrange(line, quote + 2, len - 1));
    let event = IncomingEvent { name, data };
    proof {
        assert(line@ =~= record_head() + event@.name + seq![QUOTE, COMMA] + event@.data + seq![
            CLOSE_BRACE,
        ]) by {
            assert(line@.subrange(0, 10) == record_head());
        }
        lemma_record_of(line@, event@);
    }
    Some(event)
}

/// What an event means to the player.
#[derive(Clone, Copy, Debug, PartialEq, Eq, Structural)]
pub enum EventKind {
    /// `file-loaded` or `playback-restart`: the medium is playing.
    PlaybackStarted,
    /// `pause`: playback is held.
    Paused,
    /// `unpause`: playback goes on.
    Resumed,
    /// `shutdown`: the renderer is about to exit.
    Shutdown,
    /// Any other event.
    Other,
}

/// What the event called `name` means to the player.
pub open spec fn kind_of_name(name: Seq<u8>) -> EventKind {
    if name == ascii_bytes("file-loaded"@) || name == ascii_bytes("playback-restart"@) {
        EventKind::PlaybackStarted
    } else if name == ascii_bytes("pause"@) {
        EventKind::Paused
    } else if name == ascii_bytes("unpause"@) {
        EventKind::Resumed
    } else if name == ascii_bytes("shutdown"@) {
        EventKind::Shutdown
    } else {
        EventKind::Other
    }
}

/// What the event called `name` means to the player.
pub fn event_kind(name: &[u8]) -> (kind: EventKind)
    ensures
        kind == kind_of_name(name@),
{
    proof {
        reveal_strlit("file-loaded");
        reveal_strlit("playback-restart");
        reveal_strlit("pause");
        reveal_strlit("unpause");
        reveal_strlit("shutdown");
    }
    if bytes_equal(name, literal_bytes("file-loaded")) || bytes_equal(
        name,
        literal_bytes("playback-restart"),
    ) {
        EventKind::PlaybackStarted
    } else if bytes_equal(name, literal_bytes("pause")) {
        EventKind::Paused
    } else if bytes_equal(name, literal_bytes("unpause")) {
        EventKind::Resumed
    } else if bytes_equal(name, literal_bytes("shutdown")) {
        EventKind::Shutdown
    } else {
        EventKind::Other
    }
}

impl IncomingEvent {
    /// What this event means to the player.
    pub fn kind(&self) -> (kind: EventKind)
        ensures
            kind == kind_of_name(self@.name),
    {
        event_kind(self.name.as_slice())
    }
}

/// Whether `bytes` holds no newline.
pub open spec fn has_no_newline(bytes: Seq<u8>) -> bool {
    forall|i: int| 0 <= i < bytes.len() ==> #[trigger] bytes[i] != NEWLINE
}

/// The bytes of `lines` written one after the other, a newline after each.
pub open spec fn joined_lines(lines: Seq<Seq<u8>>) -> Seq<u8>
    decreases lines.len(),
{
    if lines.len() == 0 {
        Seq::empty()
    } else {
        joined_lines(lines.drop_last()) + lines.last().push(NEWLINE)
    }
}

/// Whether `text` is the complete lines `lines`, each ended by its newline,
/// followed by `rest`, the beginning of a line whose newline has not come.
pub open spec fn splits_into(text: Seq<u8>, lines: Seq<Seq<u8>>, rest: Seq<u8>) -> bool {
    &&& text == joined_lines(lines) + rest
    &&& has_no_newline(rest)
    &&& forall|k: int| 0 <= k < lines.len() ==> has_no_newline(#[trigger] lines[k])
}

/// The split of `text` into complete lines and an unfinished one.
pub open spec fn split_of(text: Seq<u8>) -> (Seq<Seq<u8>>, Seq<u8>) {
    choose|lines: Seq<Seq<u8>>, rest: Seq<u8>| splits_into(text, lines, rest)
}

/// The complete lines of `text`, without their newlines.
pub open spec fn complete_lines(text: Seq<u8>) -> Seq<Seq<u8>> {
    split_of(text).0
}

/// What follows the last newline of `text`.
pub open spec fn unfinished_line(text: Seq<u8>) -> Seq<u8> {
    split_of(text).1
}

/// The records among `lines`, in their order; lines that are no records are
/// left out.
pub open spec fn records_in(lines: Seq<Seq<u8>>) -> Seq<EventRecord>
    decreases lines.len(),
{
    if lines.len() == 0 {
        Seq::empty()
    } else {
        match record_of(lines.last()) {
            Some(record) => records_in(lines.drop_last()).push(record),
            None => records_in(lines.drop_last()),
        }
    }
}

/// The records that `events` hold.
pub open spec fn event_records(events: Seq<IncomingEvent>) -> Seq<EventRecord> {
    events.map_values(|event: IncomingEvent| event@)
}

/// Adding a byte to a text extends its unfinished line, or completes it.
pub proof fn lemma_split_push(text: Seq<u8>, lines: Seq<Seq<u8>>, rest: Seq<u8>, byte: u8)
    requires
        splits_into(text, lines, rest),
    ensures
        byte == NEWLINE ==> splits_into(text.push(byte), lines.push(rest), Seq::empty()),
        byte != NEWLINE ==> splits_into(text.push(byte), lines, rest.push(byte)),
{
    if byte == NEWLINE {
        let more = lines.push(rest);
        assert(more.drop_last() =~= lines);
        assert(text.push(byte) =~= joined_lines(more) + Seq::<u8>::empty());
    } else {
        assert(text.push(byte) =~= joined_lines(lines) + rest.push(byte));
    }
}

/// Joined lines hold a newline for every line, and end in one.
proof fn lemma_joined_lines_len(lines: Seq<Seq<u8>>)
    ensures
        joined_lines(lines).len() >= lines.len(),
        lines.len() > 0 ==> joined_lines(lines).last() == NEWLINE,
    decreases lines.len(),
{
    if lines.len() > 0 {
        lemma_joined_lines_len(lines.drop_last());
    }
}

/// A text splits in one way only.
pub proof fn lemma_split_unique(
    text: Seq<u8>,
    lines: Seq<Seq<u8>>,
    rest: Seq<u8>,
    other_lines: Seq<Seq<u8>>,
    other_rest: Seq<u8>,
)
    requires
        splits_into(text, lines, rest),
        splits_into(text, other_lines, other_rest),
    ensures
        lines == other_lines,
        rest == other_rest,
    decreases lines.len(),
{
    lemma_joined_lines_len(lines);
    lemma_joined_lines_len(other_lines);
    let a = joined_lines(lines);
    let b = joined_lines(other_lines);
    // The last newline of the text ends the joined lines of either split.
    let a_len = a.len() as int;
    let b_len = b.len() as int;
    assert(text.len() == (a + rest).len() == a_len + rest.len());
    assert(text.len() == (b + other_rest).len() == b_len + other_rest.len());
    if a_len < b_len {
        assert(b[b_len - 1] == NEWLINE);
        assert((b + other_rest)[b_len - 1] == b[b_len - 1]);
        assert((a + rest)[b_len - 1] == rest[b_len - 1 - a_len]);
    }
    if b_len < a_len {
        assert(a[a_len - 1] == NEWLINE);
        assert((a + rest)[a_len - 1] == a[a_len - 1]);
        assert((b + other_rest)[a_len - 1] == other_rest[a_len - 1 - b_len]);
    }
    assert(a_len == b_len);
    assert(rest =~= text.subrange(a.len() as int, text.len() as int));
    assert(other_rest =~= text.subrange(a.len() as int, text.len() as int));
    assert(a =~= text.subrange(0, a.len() as int));
    assert(b =~= text.subrange(0, a.len() as int));
    if lines.len() == 0 {
        if other_lines.len() > 0 {
            assert(b.len() > 0);
        }
        assert(lines =~= other_lines);
    } else if other_lines.len() == 0 {
        assert(a.len() > 0);
    } else {
        // Without its final newline, the joined text splits into the lines
        // before the last and the last line as the rest.
        let shorter = a.drop_last();
        assert(shorter =~= joined_lines(lines.drop_last()) + lines.last());
        assert(shorter =~= joined_lines(other_lines.drop_last()) + other_lines.last());
        lemma_split_unique(
            shorter,
            lines.drop_last(),
            lines.last(),
            other_lines.drop_last(),
            other_lines.last(),
        );
        assert(lines =~= lines.drop_last().push(lines.last()));
        assert(other_lines =~= other_lines.drop_last().push(other_lines.last()));
    }
}

/// Every text splits, and `complete_lines` and `unfinished_line` name the
/// parts of its one split.
pub proof fn lemma_split(text: Seq<u8>)
    ensures
        splits_into(text, complete_lines(text), unfinished_line(text)),
        forall|lines: Seq<Seq<u8>>, rest: Seq<u8>| #[trigger]
            splits_into(text, lines, rest) ==> lines == complete_lines(text) && rest
                == unfinished_line(text),
    decreases text.len(),
{
    if text.len() == 0 {
        assert(splits_into(text, Seq::<Seq<u8>>::empty(), Seq::<u8>::empty())) by {
            assert(text =~= joined_lines(Seq::<Seq<u8>>::empty()) + Seq::<u8>::empty());
        }
    } else {
        lemma_split(text.drop_last());
        lemma_split_push(
            text.drop_last(),
            complete_lines(text.drop_last()),
            unfinished_line(text.drop_last()),
            text.last(),
        );
        assert(text.drop_last().push(text.last()) =~= text);
    }
    assert(splits_into(text, complete_lines(text), unfinished_line(text)));
    assert forall|lines: Seq<Seq<u8>>, rest: Seq<u8>| #[trigger]
        splits_into(text, lines, rest) implies lines == complete_lines(text) && rest
        == unfinished_line(text) by {
        lemma_split_unique(text, lines, rest, complete_lines(text), unfinished_line(text));
    }
}

} // verus!
