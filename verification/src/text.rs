//! Text helpers: prefixes, cuts at a character or byte budget, substitution,
//! joining and decimal numerals, each stated over sequences of characters.

use vstd::prelude::*;
use vstd::string::*;

verus! {

/// `String::push` appends one character at the end of the string.
pub assume_specification[ String::push ](s: &mut String, c: char)
    ensures
        final(s)@ == old(s)@.push(c),
;

/// `text` starts with all of `prefix`.
pub open spec fn begins_with(text: Seq<char>, prefix: Seq<char>) -> bool {
    prefix.len() <= text.len() && text.subrange(0, prefix.len() as int) == prefix
}

/// What follows the first `n` characters of `text`.
pub open spec fn after(text: Seq<char>, n: int) -> Seq<char> {
    text.subrange(n, text.len() as int)
}

/// Compares two string slices.
pub fn same_text(a: &str, b: &str) -> (r: bool)
    ensures
        r == (a@ == b@),
{
    a.to_owned() == b.to_owned()
}

/// Tells whether `text` starts with `prefix`.
pub fn starts_with(text: &str, prefix: &str) -> (r: bool)
    ensures
        r == begins_with(text@, prefix@),
{
    let n: usize = prefix.unicode_len();
    if n > text.unicode_len() {
        return false;
    }
    same_text(text.substring_char(0, n), prefix)
}

/// The rest of `text` behind `prefix`, or `None` when `text` does not start
/// with it.
pub fn strip_prefix<'a>(text: &'a str, prefix: &str) -> (r: Option<&'a str>)
    ensures
        r is Some <==> begins_with(text@, prefix@),
        r matches Some(rest) ==> rest@ == after(text@, prefix@.len() as int),
{
    let n: usize = prefix.unicode_len();
    if starts_with(text, prefix) {
        let end: usize = text.unicode_len();
        Some(text.substring_char(n, end))
    } else {
        None
    }
}

/// Two pieces of text, one behind the other.
pub fn concat(a: &str, b: &str) -> (r: String)
    ensures
        r@ == a@ + b@,
{
    let mut out: String = a.to_owned();
    out.append(b);
    out
}

/// Three pieces of text, one behind the other.
pub fn concat3(a: &str, b: &str, c: &str) -> (r: String)
    ensures
        r@ == a@ + b@ + c@,
{
    let mut out: String = concat(a, b);
    out.append(c);
    out
}

/// The characters of a string slice, in order.
pub fn chars_of(text: &str) -> (r: Vec<char>)
    ensures
        r@ == text@,
{
    let mut out: Vec<char> = Vec::new();
    for c in it: text.chars()
        invariant
            out@ == it.seq().subrange(0, it.index() as int),
            it.seq() == text@,
    {
        out.push(c);
    }
    out
}

/// The ellipsis behind a text that was cut.
pub open spec fn ellipsis() -> Seq<char> {
    seq!['.', '.', '.']
}

/// `text` cut to its first `max` characters with an ellipsis behind them, or
/// `text` itself when it is no longer than that.
pub open spec fn capped(text: Seq<char>, max: nat) -> Seq<char> {
    if text.len() <= max {
        text
    } else {
        text.subrange(0, max as int) + ellipsis()
    }
}

/// Capping a capped text again changes nothing.
pub proof fn law_capping_is_idempotent(text: Seq<char>, max: nat)
    ensures
        capped(capped(text, max), max) == capped(text, max),
{
}

/// Caps `text` at `max` characters; the flag tells whether anything was cut.
pub fn truncate_chars(text: &str, max: usize) -> (r: (String, bool))
    ensures
        r.0@ == capped(text@, max as nat),
        r.1 == (text@.len() > max),
{
    if text.unicode_len() <= max {
        (text.to_owned(), false)
    } else {
        proof {
            reveal_strlit("...");
        }
        let cut: String = concat(text.substring_char(0, max), "...");
        (cut, true)
    }
}

/// The number of bytes that UTF-8 spends on one character.
pub open spec fn char_width(c: char) -> nat {
    let code = c as u32;
    if code < 0x80 {
        1
    } else if code < 0x800 {
        2
    } else if code < 0x10000 {
        3
    } else {
        4
    }
}

/// The number of bytes of a text in UTF-8.
pub open spec fn byte_len(text: Seq<char>) -> nat
    decreases text.len(),
{
    if text.len() == 0 {
        0
    } else {
        byte_len(text.drop_last()) + char_width(text.last())
    }
}

/// The longest prefix of `text` that takes at most `max` bytes.
pub open spec fn longest_prefix(text: Seq<char>, max: nat) -> Seq<char>
    decreases text.len(),
{
    if byte_len(text) <= max || text.len() == 0 {
        text
    } else {
        longest_prefix(text.drop_last(), max)
    }
}

/// A text costs as many bytes as its two parts together.
pub proof fn lemma_byte_len_concat(a: Seq<char>, b: Seq<char>)
    ensures
        byte_len(a + b) == byte_len(a) + byte_len(b),
    decreases b.len(),
{
    if b.len() > 0 {
        lemma_byte_len_concat(a, b.drop_last());
        assert((a + b).drop_last() =~= a + b.drop_last());
    }
}

/// A prefix takes no more bytes than the whole.
pub proof fn lemma_byte_len_prefix(text: Seq<char>, n: int)
    requires
        0 <= n <= text.len(),
    ensures
        byte_len(text.subrange(0, n)) <= byte_len(text),
{
    let head = text.subrange(0, n);
    let tail = text.subrange(n, text.len() as int);
    assert(head + tail =~= text);
    lemma_byte_len_concat(head, tail);
}

/// A prefix that fits, whose extension by one character does not, is the
/// longest one.
pub proof fn lemma_longest_prefix(text: Seq<char>, n: int, max: nat)
    requires
        0 <= n <= text.len(),
        byte_len(text.subrange(0, n)) <= max,
        n < text.len() ==> byte_len(text.subrange(0, n + 1)) > max,
    ensures
        longest_prefix(text, max) == text.subrange(0, n),
    decreases text.len(),
{
    if n == text.len() {
        assert(text.subrange(0, n) =~= text);
    } else {
        lemma_byte_len_prefix(text, n + 1);
        let shorter = text.drop_last();
        assert(shorter.subrange(0, n) =~= text.subrange(0, n));
        if n < shorter.len() {
            assert(shorter.subrange(0, n + 1) =~= text.subrange(0, n + 1));
        }
        lemma_longest_prefix(shorter, n, max);
    }
}

/// The width of one character in UTF-8.
fn width_of(c: char) -> (r: usize)
    ensures
        r == char_width(c),
{
    let code: u32 = c as u32;
    if code < 0x80 {
        1
    } else if code < 0x800 {
        2
    } else if code < 0x10000 {
        3
    } else {
        4
    }
}

/// How many leading characters of `chars` fit into `max` bytes.
fn fitting_chars(chars: &Vec<char>, max: usize) -> (n: usize)
    ensures
        n <= chars@.len(),
        byte_len(chars@.subrange(0, n as int)) <= max,
        n < chars@.len() ==> byte_len(chars@.subrange(0, n + 1)) > max,
{
    let mut i: usize = 0;
    let mut used: usize = 0;
    while i < chars.len()
        invariant
            i <= chars@.len(),
            used == byte_len(chars@.subrange(0, i as int)),
            used <= max,
        decreases chars@.len() - i,
    {
        let w: usize = width_of(chars[i]);
        proof {
            let longer = chars@.subrange(0, i + 1);
            assert(longer.drop_last() =~= chars@.subrange(0, i as int));
        }
        if w > max - used {
            return i;
        }
        used = used + w;
        i = i + 1;
    }
    i
}

/// Cuts `text` at the last character boundary within `max` bytes and puts an
/// ellipsis behind the cut; a text that fits comes back unchanged.
pub fn truncate_bytes(text: &str, max: usize) -> (r: String)
    ensures
        byte_len(text@) <= max ==> r@ == text@,
        byte_len(text@) > max ==> r@ == longest_prefix(text@, max as nat) + ellipsis(),
{
    let chars: Vec<char> = chars_of(text);
    let n: usize = fitting_chars(&chars, max);
    if n == chars.len() {
        assert(chars@.subrange(0, n as int) =~= text@);
        return text.to_owned();
    }
    proof {
        reveal_strlit("...");
        lemma_byte_len_prefix(text@, n + 1);
        lemma_longest_prefix(text@, n as int, max as nat);
    }
    let cut: String = concat(text.substring_char(0, n), "...");
    cut
}

/// The numeral of one decimal digit.
pub open spec fn digit_char(d: nat) -> char {
    (48 + d) as char
}

/// A number in decimal, without leading zeros.
pub open spec fn decimal(n: nat) -> Seq<char>
    decreases n,
{
    if n < 10 {
        seq![digit_char(n)]
    } else {
        decimal(n / 10).push(digit_char(n % 10))
    }
}

/// Writes a number in decimal.
pub fn decimal_text(n: u64) -> (r: String)
    ensures
        r@ == decimal(n as nat),
    decreases n,
{
    let mut out: String = if n < 10 {
        String::new()
    } else {
        decimal_text(n / 10)
    };
    let d: u8 = (n % 10) as u8;
    out.push((48u8 + d) as char);
    out
}

/// A number below a power of ten has no more decimal digits than its exponent.
pub proof fn lemma_decimal_len(n: nat, digits: nat)
    requires
        n < vstd::arithmetic::power::pow(10, digits),
        digits > 0,
    ensures
        decimal(n).len() <= digits,
    decreases n,
{
    reveal(vstd::arithmetic::power::pow);
    if n >= 10 {
        assert(vstd::arithmetic::power::pow(10, 0) == 1);
        lemma_decimal_len(n / 10, (digits - 1) as nat);
    }
}

/// `text` with line breaks replaced by spaces, character by character.
pub open spec fn single_line(text: Seq<char>) -> Seq<char> {
    Seq::new(text.len(), |i: int| if text[i] == '\n' || text[i] == '\r' { ' ' } else { text[i] })
}

/// Collapses every line feed and carriage return to a space.
pub fn collapse_lines(text: &str) -> (r: String)
    ensures
        r@ == single_line(text@),
{
    let chars: Vec<char> = chars_of(text);
    let mut out: String = String::new();
    let mut i: usize = 0;
    while i < chars.len()
        invariant
            i <= chars@.len(),
            chars@ == text@,
            out@ == single_line(text@).subrange(0, i as int),
        decreases chars@.len() - i,
    {
        let c: char = if chars[i] == '\n' || chars[i] == '\r' {
            ' '
        } else {
            chars[i]
        };
        out.push(c);
        i = i + 1;
    }
    out
}

/// The contents of a list of strings.
pub open spec fn texts(v: Seq<String>) -> Seq<Seq<char>> {
    Seq::new(v.len(), |i: int| v[i]@)
}

/// Lines put together with a line feed between neighbours.
pub open spec fn joined(lines: Seq<Seq<char>>) -> Seq<char>
    decreases lines.len(),
{
    if lines.len() == 0 {
        seq![]
    } else if lines.len() == 1 {
        lines[0]
    } else {
        joined(lines.drop_last()) + seq!['\n'] + lines.last()
    }
}

/// Joins the lines from index `from` on.
pub fn join_lines(lines: &Vec<String>, from: usize) -> (r: String)
    requires
        from <= lines@.len(),
    ensures
        r@ == joined(texts(lines@).subrange(from as int, lines@.len() as int)),
{
    let mut out: String = String::new();
    let mut i: usize = from;
    while i < lines.len()
        invariant
            from <= i <= lines@.len(),
            out@ == joined(texts(lines@).subrange(from as int, i as int)),
        decreases lines@.len() - i,
    {
        proof {
            let grown = texts(lines@).subrange(from as int, i + 1);
            assert(grown.drop_last() =~= texts(lines@).subrange(from as int, i as int));
        }
        if i > from {
            out.push('\n');
        }
        out.append(lines[i].as_str());
        i = i + 1;
    }
    out
}

/// `text` with every occurrence of `pattern` replaced, found from the left
/// and without overlap; what was put in is not searched again.
pub open spec fn replaced(text: Seq<char>, pattern: Seq<char>, with: Seq<char>) -> Seq<char>
    decreases text.len(),
{
    if text.len() == 0 || pattern.len() == 0 {
        text
    } else if begins_with(text, pattern) {
        with + replaced(after(text, pattern.len() as int), pattern, with)
    } else {
        seq![text[0]] + replaced(after(text, 1), pattern, with)
    }
}

/// `piece` stands in `text` at position `at`.
pub open spec fn stands_at(text: Seq<char>, at: int, piece: Seq<char>) -> bool {
    0 <= at && at + piece.len() <= text.len() && text.subrange(at, at + piece.len()) == piece
}

/// `piece` stands somewhere in `text`.
pub open spec fn holds_text(text: Seq<char>, piece: Seq<char>) -> bool {
    exists|at: int| stands_at(text, at, piece)
}

/// What replaces a pattern that stands in a text stands in the result.
pub proof fn lemma_replacement_appears(
    text: Seq<char>,
    pattern: Seq<char>,
    with: Seq<char>,
    at: int,
)
    requires
        pattern.len() > 0,
        stands_at(text, at, pattern),
    ensures
        holds_text(replaced(text, pattern, with), with),
    decreases text.len(),
{
    let result = replaced(text, pattern, with);
    if begins_with(text, pattern) {
        assert(result.subrange(0, with.len() as int) =~= with);
        assert(stands_at(result, 0, with));
    } else {
        let rest = after(text, 1);
        if at == 0 {
            assert(text.subrange(0, pattern.len() as int) == pattern);
        }
        assert(rest.subrange(at - 1, at - 1 + pattern.len()) =~= text.subrange(
            at,
            at + pattern.len(),
        ));
        lemma_replacement_appears(rest, pattern, with, at - 1);
        let shorter = replaced(rest, pattern, with);
        let j = choose|j: int| stands_at(shorter, j, with);
        assert(result.subrange(j + 1, j + 1 + with.len()) =~= shorter.subrange(
            j,
            j + with.len(),
        ));
        assert(stands_at(result, j + 1, with));
    }
}

/// Where no match starts among the first `n` characters, they stay.
pub proof fn lemma_unmatched_stays(text: Seq<char>, pattern: Seq<char>, with: Seq<char>, n: int)
    requires
        0 <= n <= text.len(),
        pattern.len() > 0,
        forall|i: int| 0 <= i < n ==> text[i] != pattern[0] || !begins_with(after(text, i), pattern),
    ensures
        replaced(text, pattern, with) == text.subrange(0, n) + replaced(
            after(text, n),
            pattern,
            with,
        ),
    decreases n,
{
    if n == 0 {
        assert(after(text, 0) =~= text);
        assert(text.subrange(0, 0) =~= Seq::<char>::empty());
    } else {
        assert(after(text, 0) =~= text);
        if begins_with(text, pattern) {
            assert(text.subrange(0, pattern.len() as int)[0] == pattern[0]);
        }
        let rest = after(text, 1);
        assert forall|i: int| 0 <= i < n - 1 implies rest[i] != pattern[0] || !begins_with(
            after(rest, i),
            pattern,
        ) by {
            assert(rest[i] == text[i + 1]);
            assert(after(rest, i) =~= after(text, i + 1));
        }
        lemma_unmatched_stays(rest, pattern, with, n - 1);
        assert(after(rest, n - 1) =~= after(text, n));
        assert(seq![text[0]] + rest.subrange(0, n - 1) =~= text.subrange(0, n));
    }
}

/// A piece that cannot overlap the pattern outlives a replacement. Both open
/// with a character that neither has again, and neither opens with the other.
pub proof fn lemma_piece_survives(
    text: Seq<char>,
    pattern: Seq<char>,
    with: Seq<char>,
    piece: Seq<char>,
    at: int,
)
    requires
        pattern.len() > 1,
        piece.len() > 1,
        pattern[0] == piece[0],
        pattern[1] != piece[1],
        forall|i: int| 0 < i < pattern.len() ==> #[trigger] pattern[i] != pattern[0],
        forall|i: int| 0 < i < piece.len() ==> #[trigger] piece[i] != piece[0],
        stands_at(text, at, piece),
    ensures
        holds_text(replaced(text, pattern, with), piece),
    decreases text.len(),
{
    let result = replaced(text, pattern, with);
    assert forall|i: int| 0 <= i < piece.len() implies text[at + i] == piece[i] by {
        assert(text.subrange(at, at + piece.len())[i] == piece[i]);
    }
    if begins_with(text, pattern) {
        let n = pattern.len() as int;
        assert forall|i: int| 0 <= i < n implies text[i] == pattern[i] by {
            assert(text.subrange(0, n)[i] == pattern[i]);
        }
        if at < n {
            assert(text[at] == piece[0]);
            assert(at == 0);
            assert(text[at + 1] == piece[1]);
            assert(text[1] == pattern[1]);
        }
        let rest = after(text, n);
        assert(rest.subrange(at - n, at - n + piece.len()) =~= piece);
        lemma_piece_survives(rest, pattern, with, piece, at - n);
        let shorter = replaced(rest, pattern, with);
        let j = choose|j: int| stands_at(shorter, j, piece);
        assert(result.subrange(with.len() + j, with.len() + j + piece.len()) =~= shorter.subrange(
            j,
            j + piece.len(),
        ));
        assert(stands_at(result, with.len() + j, piece));
    } else if at > 0 {
        let rest = after(text, 1);
        assert(rest.subrange(at - 1, at - 1 + piece.len()) =~= piece);
        lemma_piece_survives(rest, pattern, with, piece, at - 1);
        let shorter = replaced(rest, pattern, with);
        let j = choose|j: int| stands_at(shorter, j, piece);
        assert(result.subrange(j + 1, j + 1 + piece.len()) =~= shorter.subrange(
            j,
            j + piece.len(),
        ));
        assert(stands_at(result, j + 1, piece));
    } else {
        let n = piece.len() as int;
        assert(after(text, 0) =~= text);
        assert forall|i: int| 0 <= i < n implies text[i] != pattern[0] || !begins_with(
            after(text, i),
            pattern,
        ) by {
            assert(text[at + i] == piece[i]);
        }
        lemma_unmatched_stays(text, pattern, with, n);
        assert(result.subrange(0, n) =~= piece);
        assert(stands_at(result, 0, piece));
    }
}

/// A piece without braces outlives the replacement of a pattern in braces,
/// unless it is part of the pattern.
pub proof fn lemma_plain_piece_survives(
    text: Seq<char>,
    pattern: Seq<char>,
    with: Seq<char>,
    piece: Seq<char>,
    at: int,
)
    requires
        pattern.len() > 1,
        pattern[0] == '{',
        pattern.last() == '}',
        piece.len() > 0,
        without_braces(piece),
        !holds_text(pattern, piece),
        stands_at(text, at, piece),
    ensures
        holds_text(replaced(text, pattern, with), piece),
    decreases text.len(),
{
    let result = replaced(text, pattern, with);
    let m = piece.len() as int;
    assert forall|i: int| 0 <= i < m implies text[at + i] == piece[i] by {
        assert(text.subrange(at, at + m)[i] == piece[i]);
    }
    if begins_with(text, pattern) {
        let n = pattern.len() as int;
        assert forall|i: int| 0 <= i < n implies text[i] == pattern[i] by {
            assert(text.subrange(0, n)[i] == pattern[i]);
        }
        if at < n {
            assert(text[at + 0] == piece[0]);
            if at + m <= n {
                assert(pattern.subrange(at, at + m) =~= piece);
                assert(stands_at(pattern, at, piece));
            } else {
                assert(text[at + (n - 1 - at)] == piece[n - 1 - at]);
            }
        }
        let rest = after(text, n);
        assert(rest.subrange(at - n, at - n + m) =~= piece);
        lemma_plain_piece_survives(rest, pattern, with, piece, at - n);
        let shorter = replaced(rest, pattern, with);
        let j = choose|j: int| stands_at(shorter, j, piece);
        assert(result.subrange(with.len() + j, with.len() + j + m) =~= shorter.subrange(j, j + m));
        assert(stands_at(result, with.len() + j, piece));
    } else if at > 0 {
        let rest = after(text, 1);
        assert(rest.subrange(at - 1, at - 1 + m) =~= piece);
        lemma_plain_piece_survives(rest, pattern, with, piece, at - 1);
        let shorter = replaced(rest, pattern, with);
        let j = choose|j: int| stands_at(shorter, j, piece);
        assert(result.subrange(j + 1, j + 1 + m) =~= shorter.subrange(j, j + m));
        assert(stands_at(result, j + 1, piece));
    } else {
        assert forall|i: int| 0 <= i < m implies text[i] != pattern[0] || !begins_with(
            after(text, i),
            pattern,
        ) by {
            assert(text[at + i] == piece[i]);
        }
        lemma_unmatched_stays(text, pattern, with, m);
        assert(result.subrange(0, m) =~= piece);
        assert(stands_at(result, 0, piece));
    }
}

/// No character of the text is a brace.
pub open spec fn without_braces(text: Seq<char>) -> bool {
    forall|i: int| 0 <= i < text.len() ==> (#[trigger] text[i]) != '{' && text[i] != '}'
}

/// Tells whether `pattern` stands in `chars` at position `at`.
fn matches_at(chars: &Vec<char>, at: usize, pattern: &Vec<char>) -> (r: bool)
    requires
        at <= chars@.len(),
    ensures
        r == begins_with(after(chars@, at as int), pattern@),
{
    if pattern.len() > chars.len() - at {
        return false;
    }
    let room: usize = chars.len();
    let mut i: usize = 0;
    while i < pattern.len()
        invariant
            i <= pattern@.len(),
            room == chars@.len(),
            at + pattern@.len() <= chars@.len(),
            forall|j: int| 0 <= j < i ==> chars@[at + j] == pattern@[j],
        decreases pattern@.len() - i,
    {
        if chars[at + i] != pattern[i] {
            return false;
        }
        i = i + 1;
    }
    assert(after(chars@, at as int).subrange(0, pattern@.len() as int) =~= pattern@);
    true
}

/// Replaces every occurrence of a nonempty `pattern` in `text`.
pub fn replace_all(text: &str, pattern: &str, with: &str) -> (r: String)
    requires
        pattern@.len() > 0,
    ensures
        r@ == replaced(text@, pattern@, with@),
{
    let chars: Vec<char> = chars_of(text);
    let wanted: Vec<char> = chars_of(pattern);
    let mut out: String = String::new();
    let mut i: usize = 0;
    assert(after(chars@, 0) =~= text@);
    while i < chars.len()
        invariant
            i <= chars@.len(),
            chars@ == text@,
            wanted@ == pattern@,
            pattern@.len() > 0,
            out@ + replaced(after(text@, i as int), pattern@, with@) == replaced(
                text@,
                pattern@,
                with@,
            ),
        decreases chars@.len() - i,
    {
        let ghost rest = after(text@, i as int);
        if matches_at(&chars, i, &wanted) {
            out.append(with);
            proof {
                let n = pattern@.len() as int;
                assert(after(rest, n) =~= after(text@, i + n));
            }
            i = i + wanted.len();
        } else {
            out.push(chars[i]);
            proof {
                assert(after(rest, 1) =~= after(text@, i + 1));
            }
            i = i + 1;
        }
    }
    out
}

/// Every character is a decimal digit.
pub open spec fn all_digits(text: Seq<char>) -> bool {
    forall|i: int| 0 <= i < text.len() ==> '0' <= #[trigger] text[i] && text[i] <= '9'
}

/// The number that a string of decimal digits denotes.
pub open spec fn digits_value(text: Seq<char>) -> nat
    decreases text.len(),
{
    if text.len() == 0 {
        0
    } else {
        digits_value(text.drop_last()) * 10 + (text.last() as u32 - '0' as u32) as nat
    }
}

/// A numeral without its leading plus sign, if it has one.
pub open spec fn unsigned_part(text: Seq<char>) -> Seq<char> {
    if text.len() > 0 && text[0] == '+' {
        after(text, 1)
    } else {
        text
    }
}

/// The 64-bit number that `text` denotes: an optional plus sign, then one or
/// more decimal digits whose value fits.
pub open spec fn parsed_u64(text: Seq<char>) -> Option<u64> {
    let digits = unsigned_part(text);
    if digits.len() > 0 && all_digits(digits) && digits_value(digits) <= u64::MAX {
        Some(digits_value(digits) as u64)
    } else {
        None
    }
}

/// Reading on never makes a numeral's value smaller.
proof fn lemma_digits_value_grows(text: Seq<char>, n: int)
    requires
        0 <= n <= text.len(),
        all_digits(text),
    ensures
        digits_value(text.subrange(0, n)) <= digits_value(text),
    decreases text.len() - n,
{
    if n == text.len() {
        assert(text.subrange(0, n) =~= text);
    } else {
        let longer = text.subrange(0, n + 1);
        assert(longer.drop_last() =~= text.subrange(0, n));
        lemma_digits_value_grows(text, n + 1);
    }
}

/// Reads a 64-bit number; `None` when `text` is not one.
pub fn parse_u64(text: &str) -> (r: Option<u64>)
    ensures
        r == parsed_u64(text@),
{
    let chars: Vec<char> = chars_of(text);
    let start: usize = if chars.len() > 0 && chars[0] == '+' {
        1
    } else {
        0
    };
    let ghost digits = unsigned_part(text@);
    if start == chars.len() {
        return None;
    }
    let mut value: u64 = 0;
    let mut i: usize = start;
    while i < chars.len()
        invariant
            start <= i <= chars@.len(),
            chars@ == text@,
            digits == unsigned_part(text@),
            digits == after(text@, start as int),
            all_digits(digits.subrange(0, i - start)),
            value == digits_value(digits.subrange(0, i - start)),
        decreases chars@.len() - i,
    {
        let c: char = chars[i];
        let ghost longer = digits.subrange(0, i - start + 1);
        assert(longer.drop_last() =~= digits.subrange(0, i - start));
        assert(longer.last() == c && digits[i - start] == c);
        if !('0' <= c && c <= '9') {
            return None;
        }
        let d: u64 = (c as u32 - '0' as u32) as u64;
        if value > (u64::MAX - d) / 10 {
            proof {
                if all_digits(digits) {
                    lemma_digits_value_grows(digits, i - start + 1);
                }
            }
            return None;
        }
        value = value * 10 + d;
        i = i + 1;
    }
    assert(digits.subrange(0, i - start) =~= digits);
    Some(value)
}

} // verus!
