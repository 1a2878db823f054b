//! Identifiers of runs, sessions, agents, jobs and tasks: 128-bit UUID values
//! and their textual form.

use crate::text::{after, begins_with, concat, strip_prefix};
use vstd::arithmetic::power::pow;
use vstd::prelude::*;

verus! {

/// Identifies one run.
pub type RunId = u128;

/// Identifies one session.
pub type SessionId = u128;

/// Identifies one agent; the nil value marks a session shared by all agents.
pub type AgentId = u128;

/// Identifies one scheduled job.
pub type JobId = u128;

/// Identifies one background task of a subagent.
pub type TaskId = u128;

/// The lower-case hexadecimal numeral of one nibble.
pub open spec fn hex_char(d: nat) -> char {
    if d < 10 {
        (48 + d) as char
    } else {
        (87 + d) as char
    }
}

/// The last `n` hexadecimal digits of a number, most significant first.
pub open spec fn hex_digits(x: nat, n: nat) -> Seq<char>
    decreases n,
{
    if n == 0 {
        seq![]
    } else {
        hex_digits(x / 16, (n - 1) as nat).push(hex_char(x % 16))
    }
}

/// Thirty-two digits in the groups of eight, four, four, four and twelve.
pub open spec fn hyphenated(digits: Seq<char>) -> Seq<char> {
    digits.subrange(0, 8) + seq!['-'] + digits.subrange(8, 12) + seq!['-'] + digits.subrange(12, 16)
        + seq!['-'] + digits.subrange(16, 20) + seq!['-'] + digits.subrange(20, 32)
}

/// The textual form of an identifier.
pub open spec fn uuid_text(id: u128) -> Seq<char> {
    hyphenated(hex_digits(id as nat, 32))
}

/// The value of a hexadecimal digit of either case.
pub open spec fn hex_value(c: char) -> Option<nat> {
    if '0' <= c && c <= '9' {
        Some((c as u32 - 48) as nat)
    } else if 'a' <= c && c <= 'f' {
        Some((c as u32 - 87) as nat)
    } else if 'A' <= c && c <= 'F' {
        Some((c as u32 - 55) as nat)
    } else {
        None
    }
}

/// The number that hexadecimal digits denote.
pub open spec fn hex_number(digits: Seq<char>) -> Option<nat>
    decreases digits.len(),
{
    if digits.len() == 0 {
        Some(0)
    } else {
        match (hex_number(digits.drop_last()), hex_value(digits.last())) {
            (Some(high), Some(low)) => Some(high * 16 + low),
            _ => None,
        }
    }
}

/// The digits of a text grouped by hyphens, or `None` when the hyphens do not
/// stand where they belong.
pub open spec fn ungrouped(text: Seq<char>) -> Option<Seq<char>> {
    if text.len() == 36 && text[8] == '-' && text[13] == '-' && text[18] == '-' && text[23] == '-' {
        Some(
            text.subrange(0, 8) + text.subrange(9, 13) + text.subrange(14, 18) + text.subrange(19, 23)
                + text.subrange(24, 36),
        )
    } else {
        None
    }
}

/// An upper-case letter in lower case.
pub open spec fn lower(c: char) -> char {
    if 'A' <= c && c <= 'Z' {
        (c as u32 + 32) as char
    } else {
        c
    }
}

/// The digits of an identifier in any of the accepted forms: plain, grouped,
/// grouped in braces, or grouped behind `urn:uuid:` in any case.
pub open spec fn uuid_digits(text: Seq<char>) -> Option<Seq<char>> {
    if text.len() == 32 {
        Some(text)
    } else if text.len() == 36 {
        ungrouped(text)
    } else if text.len() == 38 && text[0] == '{' && text[37] == '}' {
        ungrouped(text.subrange(1, 37))
    } else if text.len() == 45 && text.subrange(0, 9).map_values(|c: char| lower(c))
        == seq!['u', 'r', 'n', ':', 'u', 'u', 'i', 'd', ':'] {
        ungrouped(text.subrange(9, 45))
    } else {
        None
    }
}

/// The identifier that a text denotes.
pub open spec fn parsed_uuid(text: Seq<char>) -> Option<u128> {
    match uuid_digits(text) {
        Some(digits) => match hex_number(digits) {
            Some(n) => Some(n as u128),
            None => None,
        },
        None => None,
    }
}

/// `uuid::Uuid::from_u128` read back by the type's `Display`: five groups of
/// lower-case hexadecimal digits, most significant first, with hyphens
/// between them.
#[verifier::external_body]
fn uuid_display(id: u128) -> (r: String)
    ensures
        r@ == uuid_text(id),
{
    uuid::Uuid::from_u128(id).to_string()
}

/// `uuid::Uuid::parse_str`: accepts thirty-two hexadecimal digits of either
/// case, plain or in hyphenated groups, the groups also in braces or behind
/// `urn:uuid:`, and takes them as one big-endian number; refuses all else.
#[verifier::external_body]
fn uuid_parse(text: &str) -> (r: Option<u128>)
    ensures
        r == parsed_uuid(text@),
{
    match uuid::Uuid::parse_str(text) {
        Ok(id) => Some(id.as_u128()),
        Err(_) => None,
    }
}

/// Writes an identifier.
pub fn id_text(id: u128) -> (r: String)
    ensures
        r@ == uuid_text(id),
{
    uuid_display(id)
}

/// Reads an identifier.
pub fn parse_id(text: &str) -> (r: Option<u128>)
    ensures
        r == parsed_uuid(text@),
{
    uuid_parse(text)
}

/// Hexadecimal digits denote the number they were written for.
proof fn lemma_hex_number_of_digits(x: nat, n: nat)
    requires
        x < pow(16, n),
    ensures
        hex_digits(x, n).len() == n,
        hex_number(hex_digits(x, n)) == Some(x),
    decreases n,
{
    reveal(pow);
    if n > 0 {
        lemma_hex_number_of_digits(x / 16, (n - 1) as nat);
        let high = hex_digits(x / 16, (n - 1) as nat);
        let digits = high.push(hex_char(x % 16));
        assert(digits.drop_last() =~= high);
    }
}

/// An identifier's text reads back as the identifier.
pub proof fn law_id_text_reads_back(id: u128)
    ensures
        parsed_uuid(uuid_text(id)) == Some(id),
        uuid_text(id).len() == 36,
{
    assert(pow(16, 32) == 0x1_0000_0000_0000_0000_0000_0000_0000_0000int) by {
        vstd::arithmetic::power::lemma_pow_adds(16, 8, 8);
        vstd::arithmetic::power::lemma_pow_adds(16, 16, 16);
        assert(pow(16, 8) == 0x1_0000_0000int) by {
            reveal_with_fuel(pow, 10);
        }
        assert(0x1_0000_0000int * 0x1_0000_0000int == 0x1_0000_0000_0000_0000int)
            by (nonlinear_arith);
        assert(0x1_0000_0000_0000_0000int * 0x1_0000_0000_0000_0000int
            == 0x1_0000_0000_0000_0000_0000_0000_0000_0000int) by (nonlinear_arith);
    }
    lemma_hex_number_of_digits(id as nat, 32);
    let digits = hex_digits(id as nat, 32);
    let text = hyphenated(digits);
    assert(ungrouped(text)->0 =~= digits);
}

/// Different identifiers have different texts.
pub proof fn law_id_text_is_injective(a: u128, b: u128)
    requires
        uuid_text(a) == uuid_text(b),
    ensures
        a == b,
{
    law_id_text_reads_back(a);
    law_id_text_reads_back(b);
}

/// The context id of a job's own session.
pub open spec fn job_context(job: JobId) -> Seq<char> {
    "job_"@ + uuid_text(job)
}

/// Writes the context id of a job's own session.
pub fn job_context_id(job: JobId) -> (r: String)
    ensures
        r@ == job_context(job),
{
    let text: String = id_text(job);
    concat("job_", text.as_str())
}

/// The job that a context id addresses, if it is a job's.
pub open spec fn job_of_context(context_id: Seq<char>) -> Option<JobId> {
    if begins_with(context_id, "job_"@) {
        parsed_uuid(after(context_id, "job_"@.len() as int))
    } else {
        None
    }
}

/// Reads the job off a context id.
pub fn job_for_context(context_id: &str) -> (r: Option<JobId>)
    ensures
        r == job_of_context(context_id@),
{
    match strip_prefix(context_id, "job_") {
        Some(raw) => parse_id(raw),
        None => None,
    }
}

/// A job's context id leads back to the job.
pub proof fn law_job_context_reads_back(job: JobId)
    ensures
        job_of_context(job_context(job)) == Some(job),
{
    law_id_text_reads_back(job);
    let context = job_context(job);
    let n = "job_"@.len() as int;
    assert(context.subrange(0, n) =~= "job_"@);
    assert(after(context, n) =~= uuid_text(job));
}

} // verus!
