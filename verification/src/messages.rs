//! Session messages and the transcript of a direct message conversation.

use crate::metadata::{flag_value, MetaValue, MetaView, Metadata, Scalar};
use crate::text::{
    after, concat3, decimal, decimal_text, digit_char, join_lines, joined, lemma_decimal_len, texts,
};
use vstd::prelude::*;
use vstd::string::*;

verus! {

/// Who a message is from.
#[derive(Debug, Clone, Copy, PartialEq, Eq, Structural)]
pub enum Role {
    /// The user, or a peer agent in a direct message conversation.
    User,
    /// The agent.
    Assistant,
    /// The system.
    System,
    /// A tool.
    Tool,
}

/// What a message holds.
#[derive(Debug, Clone, PartialEq, Eq)]
pub enum Content {
    /// Text.
    Text(String),
    /// A tool call, a tool result or an image.
    Other,
}

/// One message of a session's history.
#[derive(Debug, Clone, PartialEq, Eq)]
pub struct Message {
    /// Who it is from.
    pub role: Role,
    /// What it holds.
    pub content: Content,
    /// Seconds since the start of 1970, UTC.
    pub timestamp: i64,
    /// Its metadata object, if it has one.
    pub metadata: Option<Metadata>,
}

/// The earliest second that a timestamp can denote.
pub const MIN_TIMESTAMP: i64 = -8_334_601_228_800;

/// The latest second that a timestamp can denote.
pub const MAX_TIMESTAMP: i64 = 8_210_266_876_799;

/// A timestamp within the calendar's range.
pub open spec fn valid_timestamp(secs: i64) -> bool {
    MIN_TIMESTAMP <= secs <= MAX_TIMESTAMP
}

/// Two decimal digits.
pub open spec fn two_digits(n: nat) -> Seq<char> {
    seq![digit_char(n / 10), digit_char(n % 10)]
}

/// The UTC time of day of a timestamp, as hours and minutes.
pub open spec fn clock_text(secs: int) -> Seq<char> {
    two_digits(((secs % 86400) / 3600) as nat) + seq![':'] + two_digits(
        (((secs % 86400) / 60) % 60) as nat,
    )
}

/// `chrono::DateTime::<Utc>::from_timestamp`, which is defined on the range in
/// `requires`, and `format("%H:%M")`: the hour and the minute of the UTC day,
/// two digits each.
#[verifier::external_body]
fn clock_label(secs: i64) -> (r: String)
    requires
        valid_timestamp(secs),
    ensures
        r@ == clock_text(secs as int),
{
    match chrono::DateTime::<chrono::Utc>::from_timestamp(secs, 0) {
        Some(at) => at.format("%H:%M").to_string(),
        None => String::new(),
    }
}

/// The metadata entry `key` of a message.
pub open spec fn entry_of(message: Message, key: Seq<char>) -> Option<MetaView> {
    match message.metadata {
        Some(m) => if m@.contains_key(key) {
            Some(m@[key])
        } else {
            None
        },
        None => None,
    }
}

/// Reads a metadata entry of a message.
fn read_entry<'a>(message: &'a Message, key: &str) -> (r: Option<&'a MetaValue>)
    ensures
        entry_of(*message, key@) == match r {
            Some(v) => Some(v@),
            None => None,
        },
{
    match &message.metadata {
        Some(m) => m.get(key),
        None => None,
    }
}

/// A message that a conversation's readers do not see: anything but text, an
/// empty text, and a text flagged as synthetic.
pub open spec fn synthetic_marker(message: Message) -> bool {
    match message.content {
        Content::Text(t) => t@.len() == 0 || entry_of(message, "synthetic"@) == Some(
            flag_value(true),
        ),
        Content::Other => true,
    }
}

/// Tells whether a message is left out of direct message transcripts.
pub fn is_synthetic_marker(message: &Message) -> (r: bool)
    ensures
        r == synthetic_marker(*message),
{
    match &message.content {
        Content::Text(t) => {
            if t.as_str().is_empty() {
                return true;
            }
            match read_entry(message, "synthetic") {
                Some(MetaValue::Single(Scalar::Flag(b))) => *b,
                _ => false,
            }
        },
        Content::Other => true,
    }
}

/// The name a role goes by when a message does not name its sender.
pub open spec fn role_name(role: Role) -> Seq<char> {
    match role {
        Role::User => "user"@,
        Role::Assistant => "assistant"@,
        Role::System => "system"@,
        Role::Tool => "tool"@,
    }
}

/// Who a transcript says a message is from: its `from_agent` entry when that
/// is a text, else its role.
pub open spec fn sender_of(message: Message) -> Seq<char> {
    match entry_of(message, "from_agent"@) {
        Some(MetaView::Single(crate::metadata::ScalarView::Text(name))) => name,
        _ => role_name(message.role),
    }
}

fn sender_text(message: &Message) -> (r: String)
    ensures
        r@ == sender_of(*message),
{
    match read_entry(message, "from_agent") {
        Some(MetaValue::Single(Scalar::Text(name))) => name.clone(),
        _ => match message.role {
            Role::User => "user".to_owned(),
            Role::Assistant => "assistant".to_owned(),
            Role::System => "system".to_owned(),
            Role::Tool => "tool".to_owned(),
        },
    }
}

/// One transcript line: `[HH:MM] sender: text`.
pub open spec fn transcript_line(message: Message) -> Seq<char> {
    "["@ + clock_text(message.timestamp as int) + "] "@ + (sender_of(message) + ": "@ + (
    message.content->Text_0)@)
}

/// The transcript lines of the messages that readers see, in order.
pub open spec fn transcript_lines(messages: Seq<Message>) -> Seq<Seq<char>>
    decreases messages.len(),
{
    if messages.len() == 0 {
        seq![]
    } else {
        let before = transcript_lines(messages.drop_last());
        if synthetic_marker(messages.last()) {
            before
        } else {
            before.push(transcript_line(messages.last()))
        }
    }
}

fn render_lines(messages: &Vec<Message>) -> (r: Vec<String>)
    requires
        forall|i: int| 0 <= i < messages@.len() ==> valid_timestamp(
            (#[trigger] messages@[i]).timestamp,
        ),
    ensures
        texts(r@) == transcript_lines(messages@),
{
    let mut lines: Vec<String> = Vec::new();
    let mut i: usize = 0;
    while i < messages.len()
        invariant
            i <= messages@.len(),
            forall|k: int| 0 <= k < messages@.len() ==> valid_timestamp(
                (#[trigger] messages@[k]).timestamp,
            ),
            texts(lines@) == transcript_lines(messages@.subrange(0, i as int)),
        decreases messages@.len() - i,
    {
        let message: &Message = &messages[i];
        proof {
            let seen = messages@.subrange(0, i + 1);
            assert(seen.drop_last() =~= messages@.subrange(0, i as int));
        }
        if !is_synthetic_marker(message) {
            match &message.content {
                Content::Text(text) => {
                    let at: String = clock_label(message.timestamp);
                    let sender: String = sender_text(message);
                    let head: String = concat3("[", at.as_str(), "] ");
                    let tail: String = concat3(sender.as_str(), ": ", text.as_str());
                    let line: String = crate::text::concat(head.as_str(), tail.as_str());
                    lines.push(line);
                },
                Content::Other => {},
            }
        }
        i = i + 1;
    }
    assert(messages@.subrange(0, i as int) =~= messages@);
    lines
}

/// How many characters a transcript may have.
pub const DM_HISTORY_MAX_CHARS: usize = 4000;

/// How many of them are set aside for the note on dropped messages.
pub const OMITTED_NOTE_BUDGET: usize = 60;

/// The note on messages that were dropped from the front.
pub open spec fn omitted_note(count: nat) -> Seq<char> {
    "["@ + decimal(count) + " earlier message(s) omitted]\n"@
}

/// The lines from `k` on, behind the note on those before them.
pub open spec fn shortened(lines: Seq<Seq<char>>, k: int) -> Seq<char> {
    omitted_note(k as nat) + joined(lines.subrange(k, lines.len() as int))
}

/// The smallest index, from `k` on, at which the lines leave room for the note.
pub open spec fn fitting_from(lines: Seq<Seq<char>>, k: int) -> int
    decreases lines.len() - k,
{
    if k >= lines.len() || joined(lines.subrange(k, lines.len() as int)).len()
        <= DM_HISTORY_MAX_CHARS - OMITTED_NOTE_BUDGET {
        k
    } else {
        fitting_from(lines, k + 1)
    }
}

/// The first line that is kept when not all of them are. The most recent one
/// is kept even where it takes some of the room set aside for the note, as
/// long as the note itself still fits.
pub open spec fn kept_from(lines: Seq<Seq<char>>) -> int {
    let k = fitting_from(lines, 0);
    if 0 < k == lines.len() && shortened(lines, k - 1).len() <= DM_HISTORY_MAX_CHARS {
        k - 1
    } else {
        k
    }
}

/// The transcript: all lines when they fit, else the most recent ones that fit
/// behind a note on how many were dropped.
pub open spec fn transcript(messages: Seq<Message>) -> Seq<char> {
    let lines = transcript_lines(messages);
    if joined(lines).len() <= DM_HISTORY_MAX_CHARS {
        joined(lines)
    } else {
        shortened(lines, kept_from(lines))
    }
}

/// Joining one more line in front costs that line and, before another line,
/// the line feed between them.
proof fn lemma_joined_front(lines: Seq<Seq<char>>, k: int)
    requires
        0 <= k < lines.len(),
    ensures
        joined(lines.subrange(k, lines.len() as int)).len() == lines[k].len() + (if k + 1
            < lines.len() {
            1nat
        } else {
            0nat
        }) + joined(lines.subrange(k + 1, lines.len() as int)).len(),
    decreases lines.len() - k,
{
    let tail = lines.subrange(k, lines.len() as int);
    let rest = lines.subrange(k + 1, lines.len() as int);
    if k + 1 != lines.len() {
        let shorter = lines.drop_last();
        assert(tail.drop_last() =~= shorter.subrange(k, shorter.len() as int));
        lemma_joined_front(shorter, k);
        if k + 2 != lines.len() {
            assert(rest.drop_last() =~= shorter.subrange(k + 1, shorter.len() as int));
        }
    }
}

fn note_text(count: usize) -> (r: String)
    ensures
        r@ == omitted_note(count as nat),
{
    let number: String = decimal_text(count as u64);
    concat3("[", number.as_str(), " earlier message(s) omitted]\n")
}

/// Formats a conversation for embedding in a notification. Only messages that
/// readers see appear, one per line; when they exceed the limit the oldest are
/// dropped and a leading note counts them.
pub fn format_dm_conversation_history(messages: &Vec<Message>) -> (r: String)
    requires
        forall|i: int| 0 <= i < messages@.len() ==> valid_timestamp(
            (#[trigger] messages@[i]).timestamp,
        ),
    ensures
        r@ == transcript(messages@),
{
    let lines: Vec<String> = render_lines(messages);
    let ghost all = texts(lines@);
    let full: String = join_lines(&lines, 0);
    assert(all.subrange(0, all.len() as int) =~= all);
    // `used` counts the characters of the lines from `start` on, joined.
    let mut used: usize = full.as_str().unicode_len();
    if used <= DM_HISTORY_MAX_CHARS {
        return full;
    }
    let room: usize = DM_HISTORY_MAX_CHARS - OMITTED_NOTE_BUDGET;
    let mut start: usize = 0;
    while start < lines.len() && used > room
        invariant
            start <= lines@.len(),
            all == texts(lines@),
            room == DM_HISTORY_MAX_CHARS - OMITTED_NOTE_BUDGET,
            used == joined(all.subrange(start as int, all.len() as int)).len(),
            fitting_from(all, 0) == fitting_from(all, start as int),
        decreases lines@.len() - start,
    {
        proof {
            lemma_joined_front(all, start as int);
        }
        let length: usize = lines[start].as_str().unicode_len();
        used = used - length;
        start = start + 1;
        if start < lines.len() {
            used = used - 1;
        }
    }
    if start > 0 && start == lines.len() {
        proof {
            lemma_joined_front(all, start - 1);
        }
        let note: String = note_text(start - 1);
        let ahead: usize = note.as_str().unicode_len();
        if ahead <= DM_HISTORY_MAX_CHARS && lines[start - 1].as_str().unicode_len()
            <= DM_HISTORY_MAX_CHARS - ahead {
            start = start - 1;
        }
    }
    let note: String = note_text(start);
    let tail: String = join_lines(&lines, start);
    crate::text::concat(note.as_str(), tail.as_str())
}

/// What `fitting_from` finds: every longer tail leaves no room for the note.
pub proof fn lemma_fitting_from(lines: Seq<Seq<char>>, k: int)
    requires
        0 <= k <= lines.len(),
    ensures
        k <= fitting_from(lines, k) <= lines.len(),
        joined(lines.subrange(fitting_from(lines, k), lines.len() as int)).len()
            <= DM_HISTORY_MAX_CHARS - OMITTED_NOTE_BUDGET,
        forall|j: int|
            k <= j < fitting_from(lines, k) ==> (#[trigger] joined(
                lines.subrange(j, lines.len() as int),
            )).len() > DM_HISTORY_MAX_CHARS - OMITTED_NOTE_BUDGET,
    decreases lines.len() - k,
{
    if k < lines.len() && joined(lines.subrange(k, lines.len() as int)).len()
        > DM_HISTORY_MAX_CHARS - OMITTED_NOTE_BUDGET {
        lemma_fitting_from(lines, k + 1);
    }
}

/// No more lines come out than messages go in.
proof fn lemma_line_count(messages: Seq<Message>)
    ensures
        transcript_lines(messages).len() <= messages.len(),
    decreases messages.len(),
{
    if messages.len() > 0 {
        lemma_line_count(messages.drop_last());
    }
}

/// A transcript never exceeds its limit, note on omitted messages included.
pub proof fn law_transcript_is_bounded(messages: Seq<Message>)
    requires
        messages.len() <= u64::MAX,
    ensures
        transcript(messages).len() <= DM_HISTORY_MAX_CHARS,
{
    let lines = transcript_lines(messages);
    let n = lines.len();
    lemma_fitting_from(lines, 0);
    lemma_line_count(messages);
    assert(n < vstd::arithmetic::power::pow(10, 20)) by {
        vstd::arithmetic::power::lemma_pow_adds(10, 10, 10);
        assert(vstd::arithmetic::power::pow(10, 10) == 10_000_000_000int) by {
            reveal_with_fuel(vstd::arithmetic::power::pow, 12);
        }
        assert(10_000_000_000int * 10_000_000_000int == 100_000_000_000_000_000_000int)
            by (nonlinear_arith);
    }
    lemma_decimal_len(kept_from(lines) as nat, 20);
    reveal_strlit("[");
    reveal_strlit(" earlier message(s) omitted]\n");
}

/// A transcript drops no message that fits beside the room set aside for the
/// note: when it is not the whole conversation, any longer tail exceeds that.
pub proof fn law_transcript_keeps_what_fits(messages: Seq<Message>)
    requires
        joined(transcript_lines(messages)).len() > DM_HISTORY_MAX_CHARS,
    ensures
        ({
            let lines = transcript_lines(messages);
            exists|k: int|
                #![trigger shortened(lines, k)]
                0 <= k <= lines.len() && transcript(messages) == shortened(lines, k) && (forall|
                    j: int|
                    0 <= j < k ==> (#[trigger] joined(
                        lines.subrange(j, lines.len() as int),
                    )).len() > DM_HISTORY_MAX_CHARS - OMITTED_NOTE_BUDGET)
        }),
{
    let lines = transcript_lines(messages);
    lemma_fitting_from(lines, 0);
    assert(transcript(messages) == shortened(lines, kept_from(lines)));
}

/// The most recent message that readers see ends the transcript, whenever it
/// fits: with all the others, or at least alone behind the note on them.
pub proof fn law_newest_message_is_present(messages: Seq<Message>)
    requires
        transcript_lines(messages).len() > 0,
        joined(transcript_lines(messages)).len() <= DM_HISTORY_MAX_CHARS || shortened(
            transcript_lines(messages),
            transcript_lines(messages).len() - 1,
        ).len() <= DM_HISTORY_MAX_CHARS,
    ensures
        ({
            let newest = transcript_lines(messages).last();
            let whole = transcript(messages);
            newest.len() <= whole.len() && after(whole, whole.len() - newest.len()) == newest
        }),
{
    let lines = transcript_lines(messages);
    let n = lines.len() as int;
    lemma_fitting_from(lines, 0);
    let k = if joined(lines).len() <= DM_HISTORY_MAX_CHARS {
        0
    } else {
        kept_from(lines)
    };
    let kept = lines.subrange(k, n);
    assert(lines.subrange(0, n) =~= lines);
    assert(k < n);
    assert(kept.last() == lines.last());
    lemma_joined_ends(kept);
    let tail = joined(kept);
    let whole = transcript(messages);
    let newest = lines.last();
    assert(after(whole, whole.len() - newest.len()) =~= after(tail, tail.len() - newest.len()));
}

/// Lines that are joined end with the last of them.
proof fn lemma_joined_ends(lines: Seq<Seq<char>>)
    requires
        lines.len() > 0,
    ensures
        lines.last().len() <= joined(lines).len(),
        after(joined(lines), joined(lines).len() - lines.last().len()) == lines.last(),
{
    assert(after(joined(lines), joined(lines).len() - lines.last().len()) =~= lines.last());
}

/// What readers do not see leaves no trace in a transcript.
pub proof fn law_markers_leave_no_trace(before: Seq<Message>, marker: Message, after: Seq<Message>)
    requires
        synthetic_marker(marker),
    ensures
        transcript_lines(before.push(marker) + after) == transcript_lines(before + after),
        transcript(before.push(marker) + after) == transcript(before + after),
    decreases after.len(),
{
    if after.len() == 0 {
        assert(before.push(marker).drop_last() =~= before);
    } else {
        law_markers_leave_no_trace(before, marker, after.drop_last());
        assert((before.push(marker) + after).drop_last() =~= before.push(marker)
            + after.drop_last());
        assert((before + after).drop_last() =~= before + after.drop_last());
    }
}

} // verus!
