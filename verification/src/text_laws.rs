//! What the text helpers and the transcripts that are built with them give,
//! stated of the operations and their results.

use crate::messages::{
    clock_text, fitting_from, format_dm_conversation_history, is_synthetic_marker, kept_from,
    lemma_fitting_from, sender_of, shortened, synthetic_marker, transcript, transcript_line,
    transcript_lines, Message, Role,
};
use crate::metadata::{MetaView, ScalarView};
use crate::notice_laws::{cut_to, noted, on_one_line, shown};
use crate::text::{
    after, all_digits, begins_with, byte_len, chars_of, collapse_lines, concat, concat3, decimal,
    decimal_text, digits_value, join_lines, joined, lemma_byte_len_concat, lemma_longest_prefix,
    parse_u64, replace_all, same_text, starts_with, strip_prefix, texts, truncate_bytes,
    truncate_chars, unsigned_part,
};
use vstd::prelude::*;
use vstd::utf8::{encode_scalar, encode_utf8};

verus! {

/// Two texts are the same exactly when they have the same characters.
pub proof fn law_same_text_is_equality(a: &str, b: &str, r: bool)
    requires
        call_ensures(same_text, (a, b), r),
    ensures
        r <==> a@ == b@,
{
}

/// A text starts with a prefix exactly when something put behind the prefix
/// makes up the text, and that is what is left when it is stripped.
pub proof fn law_prefix_and_rest_make_the_text<'a>(
    text: &'a str,
    prefix: &str,
    found: bool,
    rest: Option<&'a str>,
    tail: Seq<char>,
)
    requires
        call_ensures(starts_with, (text, prefix), found),
        call_ensures(strip_prefix, (text, prefix), rest),
    ensures
        text@ == prefix@ + tail ==> found && (rest matches Some(left) && left@ == tail),
        found ==> exists|behind: Seq<char>| text@ == #[trigger] (prefix@ + behind),
        rest is Some <==> found,
        rest matches Some(left) ==> text@ == prefix@ + left@,
{
    let n = prefix@.len() as int;
    if text@ == prefix@ + tail {
        assert(text@.subrange(0, n) =~= prefix@);
        assert(after(text@, n) =~= tail);
    }
    if begins_with(text@, prefix@) {
        assert(text@ =~= text@.subrange(0, n) + after(text@, n));
        assert(text@ == prefix@ + after(text@, n));
    }
}

/// Pieces are put together in the order given.
pub proof fn law_pieces_keep_their_order(a: &str, b: &str, c: &str, two: String, three: String)
    requires
        call_ensures(concat, (a, b), two),
        call_ensures(concat3, (a, b, c), three),
    ensures
        two@ == a@ + b@,
        three@ == two@ + c@,
{
}

/// The characters of a text are the text.
pub proof fn law_characters_are_the_text(text: &str, r: Vec<char>)
    requires
        call_ensures(chars_of, (text,), r),
    ensures
        r@ == text@,
{
}

/// A text is cut behind its first `max` characters exactly when it is longer.
pub proof fn law_only_long_texts_are_cut(text: &str, max: usize, r: String, cut: bool)
    requires
        call_ensures(truncate_chars, (text, max), (r, cut)),
    ensures
        cut_to(text@, max as int, r@),
        cut <==> text@.len() > max,
{
}

/// A text costs as many bytes as it has in UTF-8.
pub proof fn law_byte_length_is_that_of_utf8(text: Seq<char>)
    ensures
        byte_len(text) == encode_utf8(text).len(),
    decreases text.len(),
{
    if text.len() > 0 {
        let first = seq![text[0]];
        let rest = text.drop_first();
        law_byte_length_is_that_of_utf8(rest);
        lemma_byte_len_concat(first, rest);
        assert(first + rest =~= text);
        assert(first.drop_last() =~= Seq::<char>::empty());
        vstd::utf8::char_is_scalar(text[0]);
        reveal_with_fuel(byte_len, 2);
        assert(byte_len(first) == encode_scalar(text[0] as u32).len());
    }
}

/// `r` is `text` where it takes no more than `max` bytes; else it is the longest
/// part of its beginning that does, with three dots behind it.
pub open spec fn within_bytes(text: Seq<char>, max: nat, r: Seq<char>) -> bool {
    &&& byte_len(text) <= max ==> r == text
    &&& byte_len(text) > max ==> exists|n: int|
        0 <= n < text.len() && byte_len(text.subrange(0, n)) <= max && byte_len(
            text.subrange(0, n + 1),
        ) > max && r == #[trigger] text.subrange(0, n) + seq!['.', '.', '.']
}

/// Some prefix fits the budget while the next longer one does not.
pub proof fn lemma_last_that_fits(text: Seq<char>, k: int, max: nat) -> (n: int)
    requires
        byte_len(text) > max,
        0 <= k < text.len(),
        byte_len(text.subrange(0, k)) <= max,
    ensures
        k <= n < text.len(),
        byte_len(text.subrange(0, n)) <= max,
        byte_len(text.subrange(0, n + 1)) > max,
    decreases text.len() - k,
{
    assert(text.subrange(0, text.len() as int) =~= text);
    if byte_len(text.subrange(0, k + 1)) > max {
        k
    } else {
        lemma_last_that_fits(text, k + 1, max)
    }
}

/// A text is cut at a byte budget without splitting a character, and never
/// earlier than it has to be.
pub proof fn law_byte_cut_keeps_what_fits(text: &str, max: usize, r: String)
    requires
        call_ensures(truncate_bytes, (text, max), r),
    ensures
        within_bytes(text@, max as nat, r@),
{
    let t = text@;
    if byte_len(t) > max {
        assert(t.subrange(0, 0) =~= Seq::<char>::empty());
        let n = lemma_last_that_fits(t, 0, max as nat);
        lemma_longest_prefix(t, n, max as nat);
        assert(r@ =~= t.subrange(0, n) + seq!['.', '.', '.']);
    }
}

/// A decimal numeral has only digits and denotes its number.
proof fn lemma_decimal_denotes(n: nat)
    ensures
        decimal(n).len() > 0,
        all_digits(decimal(n)),
        digits_value(decimal(n)) == n,
        n > 0 ==> decimal(n)[0] != '0',
    decreases n,
{
    reveal_with_fuel(digits_value, 2);
    if n >= 10 {
        lemma_decimal_denotes(n / 10);
        let high = decimal(n / 10);
        let text = decimal(n);
        assert(text.drop_last() =~= high);
        assert forall|i: int| 0 <= i < text.len() implies '0' <= #[trigger] text[i] && text[i]
            <= '9' by {
            if i < high.len() {
                assert(text[i] == high[i]);
            }
        }
        assert(text[0] == high[0]);
    } else {
        let text = decimal(n);
        assert(text.drop_last() =~= Seq::<char>::empty());
    }
}

/// A written number reads back as that number, and is written without leading
/// zeros.
pub proof fn law_written_number_reads_back(n: u64, written: String, text: &str, read: Option<u64>)
    requires
        call_ensures(decimal_text, (n,), written),
        text@ == written@,
        call_ensures(parse_u64, (text,), read),
    ensures
        read == Some(n),
        written@.len() > 0,
        n > 0 ==> written@[0] != '0',
        forall|i: int|
            0 <= i < written@.len() ==> '0' <= #[trigger] written@[i] && written@[i] <= '9',
{
    lemma_decimal_denotes(n as nat);
    let digits = decimal(n as nat);
    assert('0' <= digits[0] && digits[0] <= '9');
    assert(unsigned_part(digits) == digits);
}

/// A digit put behind a number makes it ten times as large and adds the digit,
/// as long as the result fits; anything else put behind it makes it no number.
pub proof fn law_number_grows_by_its_digits(
    text: &str,
    longer: &str,
    c: char,
    read: Option<u64>,
    then: Option<u64>,
)
    requires
        longer@ == text@.push(c),
        text@.len() > 0,
        text@ != seq!['+'],
        call_ensures(parse_u64, (text,), read),
        call_ensures(parse_u64, (longer,), then),
    ensures
        !('0' <= c && c <= '9') ==> then is None,
        '0' <= c && c <= '9' ==> (read matches Some(n) ==> {
            let grown = n * 10 + (c as u32 - '0' as u32);
            &&& grown <= u64::MAX ==> then == Some(grown as u64)
            &&& grown > u64::MAX ==> then is None
        }),
        read is None ==> then is None,
{
    reveal_with_fuel(digits_value, 2);
    let a = unsigned_part(text@);
    let b = unsigned_part(longer@);
    assert(longer@[0] == text@[0]);
    if a.len() == 0 {
        assert(text@ =~= seq!['+']);
    }
    assert(b =~= a.push(c));
    assert(b.drop_last() =~= a);
    if all_digits(b) {
        assert(b[b.len() - 1] == c);
        assert forall|i: int| 0 <= i < a.len() implies '0' <= #[trigger] a[i] && a[i] <= '9' by {
            assert(a[i] == b[i]);
        }
    }
    if all_digits(a) && '0' <= c && c <= '9' {
        assert forall|i: int| 0 <= i < b.len() implies '0' <= #[trigger] b[i] && b[i] <= '9' by {
            if i < a.len() {
                assert(b[i] == a[i]);
            }
        }
    }
}

/// A single digit denotes itself, a plus sign in front of a numeral changes
/// nothing, and no text is no number.
pub proof fn law_numerals_start_small(text: &str, read: Option<u64>, c: char)
    requires
        call_ensures(parse_u64, (text,), read),
        text@.len() == 0 || text@ == seq!['+'] || text@ == seq![c] || text@ == seq!['+', c],
    ensures
        text@.len() == 0 || text@ == seq!['+'] ==> read is None,
        (text@ == seq![c] && c != '+' || text@ == seq!['+', c]) ==> read == if '0' <= c && c
            <= '9' {
            Some((c as u32 - '0' as u32) as u64)
        } else {
            None
        },
{
    reveal_with_fuel(digits_value, 2);
    let digits = unsigned_part(text@);
    if digits.len() == 1 {
        assert(digits[0] == c);
        assert(digits.drop_last() =~= Seq::<char>::empty());
    }
}

/// Line breaks become spaces, and nothing else changes.
pub proof fn law_lines_are_collapsed(text: &str, r: String)
    requires
        call_ensures(collapse_lines, (text,), r),
    ensures
        on_one_line(text@, r@),
{
}

/// Joining more than one line puts the first, a line feed and the joined rest
/// one behind the other.
proof fn lemma_joined_by_the_front(lines: Seq<Seq<char>>)
    requires
        lines.len() > 1,
    ensures
        joined(lines) == lines[0] + seq!['\n'] + joined(lines.drop_first()),
    decreases lines.len(),
{
    reveal_with_fuel(joined, 2);
    let shorter = lines.drop_last();
    let rest = lines.drop_first();
    if lines.len() == 2 {
        assert(shorter =~= seq![lines[0]]);
        assert(rest =~= seq![lines[1]]);
        assert(joined(lines) =~= lines[0] + seq!['\n'] + joined(rest));
    } else {
        lemma_joined_by_the_front(shorter);
        assert(shorter.drop_first() =~= rest.drop_last());
        assert(rest.last() == lines.last());
        assert(joined(lines) =~= lines[0] + seq!['\n'] + joined(rest));
    }
}

/// Lines are joined with one line feed between neighbours and none at the ends.
pub proof fn law_lines_are_joined_by_line_feeds(
    lines: Vec<String>,
    from: usize,
    next: usize,
    all: String,
    rest: String,
)
    requires
        from < lines@.len(),
        next == from + 1,
        call_ensures(join_lines, (&lines, from), all),
        call_ensures(join_lines, (&lines, next), rest),
    ensures
        next == lines@.len() ==> all@ == lines@[from as int]@ && rest@.len() == 0,
        next < lines@.len() ==> all@ == lines@[from as int]@ + seq!['\n'] + rest@,
{
    let n = lines@.len() as int;
    let tail = texts(lines@).subrange(from as int, n);
    assert(tail.drop_first() =~= texts(lines@).subrange(next as int, n));
    if next < lines@.len() {
        lemma_joined_by_the_front(tail);
    }
}

/// Replacing goes through a text from the left: a pattern that stands at its
/// front is replaced and not searched again, any other character stays.
pub proof fn law_replacing_goes_from_the_left(
    text: &str,
    rest: &str,
    pattern: &str,
    with: &str,
    all: String,
    later: String,
)
    requires
        pattern@.len() > 0,
        call_ensures(replace_all, (text, pattern, with), all),
        call_ensures(replace_all, (rest, pattern, with), later),
    ensures
        text@.len() == 0 ==> all@.len() == 0,
        text@ == pattern@ + rest@ ==> all@ == with@ + later@,
        text@.len() > 0 && rest@ == text@.subrange(1, text@.len() as int) && !begins_with(
            text@,
            pattern@,
        ) ==> all@ == seq![text@[0]] + later@,
{
    if text@ == pattern@ + rest@ {
        let n = pattern@.len() as int;
        assert(text@.subrange(0, n) =~= pattern@);
        assert(after(text@, n) =~= rest@);
    }
}

/// A message is left out of transcripts exactly when it is no text, an empty
/// one, or flagged as synthetic.
pub proof fn law_readers_see_unflagged_texts(message: Message, r: bool)
    requires
        call_ensures(is_synthetic_marker, (&message,), r),
    ensures
        r <==> message.content is Other || shown(message).len() == 0 || noted(
            message,
            "synthetic"@,
        ) == Some(MetaView::Single(ScalarView::Flag(true))),
{
}

/// Who a message is from: whom it names as its sender, or else its role.
pub open spec fn spoken_by(message: Message) -> Seq<char> {
    match noted(message, "from_agent"@) {
        Some(MetaView::Single(ScalarView::Text(name))) => name,
        _ => match message.role {
            Role::User => "user"@,
            Role::Assistant => "assistant"@,
            Role::System => "system"@,
            Role::Tool => "tool"@,
        },
    }
}

/// The lines of a conversation that readers see: of each message that is a
/// text, not empty and not flagged as synthetic, the time, the sender and the
/// text, in order.
pub open spec fn spoken(messages: Seq<Message>) -> Seq<Seq<char>>
    decreases messages.len(),
{
    if messages.len() == 0 {
        Seq::empty()
    } else {
        let m = messages.last();
        let before = spoken(messages.drop_last());
        if m.content is Other || shown(m).len() == 0 || noted(m, "synthetic"@) == Some(
            MetaView::Single(ScalarView::Flag(true)),
        ) {
            before
        } else {
            before.push(
                "["@ + clock_text(m.timestamp as int) + "] "@ + spoken_by(m) + ": "@ + shown(m),
            )
        }
    }
}

/// The transcript's lines are the lines that readers see.
proof fn lemma_lines_are_spoken(messages: Seq<Message>)
    ensures
        transcript_lines(messages) == spoken(messages),
    decreases messages.len(),
{
    if messages.len() > 0 {
        let m = messages.last();
        lemma_lines_are_spoken(messages.drop_last());
        if !synthetic_marker(m) {
            assert(sender_of(m) == spoken_by(m));
            assert(transcript_line(m) =~= "["@ + clock_text(m.timestamp as int) + "] "@
                + spoken_by(m) + ": "@ + shown(m));
        }
    }
}

/// The transcript of a conversation shows every line that readers see, in
/// order, as long as they take no more than four thousand characters. When they
/// do, the oldest go: a note counts them, and no more go than it takes to leave
/// room for the note, or all but the newest, where that one still fits.
pub proof fn law_transcript_drops_only_the_oldest(messages: Vec<Message>, r: String)
    requires
        call_ensures(format_dm_conversation_history, (&messages,), r),
    ensures
        ({
            let lines = spoken(messages@);
            let n = lines.len() as int;
            &&& joined(lines).len() <= 4000 ==> r@ == joined(lines)
            &&& joined(lines).len() > 4000 ==> exists|k: int|
                #![trigger lines.subrange(k, n)]
                0 < k <= n && {
                    let kept = joined(lines.subrange(k, n));
                    &&& r@ == "["@ + decimal(k as nat) + " earlier message(s) omitted]\n"@ + kept
                    &&& kept.len() <= 3940 || (k == n - 1 && r@.len() <= 4000)
                    &&& forall|j: int|
                        0 <= j < k ==> (#[trigger] joined(lines.subrange(j, n))).len() > 3940
                }
        }),
{
    let lines = spoken(messages@);
    let n = lines.len() as int;
    lemma_lines_are_spoken(messages@);
    assert(lines.subrange(0, n) =~= lines);
    lemma_fitting_from(lines, 0);
    if joined(lines).len() > 4000 {
        let k = kept_from(lines);
        let kept = joined(lines.subrange(k, n));
        assert(fitting_from(lines, 0) > 0);
        if k == 0 {
            assert(n == 1);
            reveal_strlit("[");
            reveal_strlit(" earlier message(s) omitted]\n");
            assert(shortened(lines, 0).len() >= joined(lines).len());
        }
        assert(r@ == shortened(lines, k));
        assert(r@ =~= "["@ + decimal(k as nat) + " earlier message(s) omitted]\n"@ + kept);
    }
}

/// The newest line that readers see is in the transcript whenever it fits there
/// at all, behind the note on the others.
pub proof fn law_newest_line_ends_the_transcript(messages: Vec<Message>, r: String)
    requires
        call_ensures(format_dm_conversation_history, (&messages,), r),
        spoken(messages@).len() > 0,
        ("["@ + decimal((spoken(messages@).len() - 1) as nat)
            + " earlier message(s) omitted]\n"@ + spoken(messages@).last()).len() <= 4000,
    ensures
        exists|before: Seq<char>| r@ == #[trigger] (before + spoken(messages@).last()),
{
    let lines = spoken(messages@);
    let n = lines.len() as int;
    lemma_lines_are_spoken(messages@);
    let last = lines.subrange(n - 1, n);
    assert(last =~= seq![lines.last()]);
    assert(joined(last) == lines.last());
    assert(shortened(lines, n - 1) =~= "["@ + decimal((n - 1) as nat)
        + " earlier message(s) omitted]\n"@ + lines.last());
    crate::messages::law_newest_message_is_present(messages@);
    let whole = transcript(messages@);
    let newest = lines.last();
    let at = whole.len() - newest.len();
    assert(whole =~= whole.subrange(0, at) + after(whole, at));
    assert(r@ == whole.subrange(0, at) + newest);
}

} // verus!
