//! How an error reply reads to a client, and what it is built from.

use crate::metadata::{
    group_map, GroupBuilder, MetaValue, MetaView, Metadata, Scalar, ScalarView,
};
use crate::replies::{api_error, error_object, ApiError};
use vstd::prelude::*;

verus! {

/// The text under `key` in the `error` of a reply's object.
pub open spec fn error_entry(body: Map<Seq<char>, MetaView>, key: Seq<char>) -> Option<Seq<char>> {
    if body.contains_key("error"@) {
        match body["error"@] {
            MetaView::Group(group) => if group.contains_key(key) {
                match group[key] {
                    ScalarView::Text(t) => Some(t),
                    _ => None,
                }
            } else {
                None
            },
            _ => None,
        }
    } else {
        None
    }
}

/// The code that a client's program branches on.
pub open spec fn code_of(body: Map<Seq<char>, MetaView>) -> Option<Seq<char>> {
    error_entry(body, "code"@)
}

/// The text that people read.
pub open spec fn message_of(body: Map<Seq<char>, MetaView>) -> Option<Seq<char>> {
    error_entry(body, "message"@)
}

/// The reply has this status, this code and this text.
pub open spec fn answers_with(
    error: ApiError,
    status: int,
    code: Seq<char>,
    message: Seq<char>,
) -> bool {
    &&& error.status == status
    &&& code_of(error.body@) == Some(code)
    &&& message_of(error.body@) == Some(message)
}

/// An object with an `error` of a code and a text reads as these.
pub proof fn lemma_error_object(code: Seq<char>, message: Seq<char>)
    ensures
        code_of(error_object(code, message)) == Some(code),
        message_of(error_object(code, message)) == Some(message),
{
    reveal_strlit("code");
    reveal_strlit("message");
    assert("code"@.len() != "message"@.len());
}

/// An error reply hands its status, its code and its text to the client as they
/// are, and nothing else.
pub proof fn law_error_reply_reads_as_built(
    status: u16,
    code: &str,
    message: &str,
    error: ApiError,
)
    requires
        call_ensures(api_error, (status, code, message), error),
    ensures
        answers_with(error, status as int, code@, message@),
        forall|key: Seq<char>| #[trigger] error.body@.contains_key(key) ==> key == "error"@,
{
    lemma_error_object(code@, message@);
}

/// A written entry is read back, and the others stay as they were.
pub proof fn law_entry_reads_back(
    object: &mut Metadata,
    key: &str,
    value: MetaValue,
    other: Seq<char>,
)
    requires
        call_ensures(Metadata::set, (object, key, value), ()),
    ensures
        final(object)@.contains_key(key@),
        final(object)@[key@] == value@,
        other != key@ ==> (final(object)@.contains_key(other) <==> old(object)@.contains_key(
            other,
        )),
        other != key@ && old(object)@.contains_key(other) ==> final(object)@[other] == old(
            object,
        )@[other],
{
}

/// A text, a flag and a number are each written as what they are, under their
/// own key.
pub proof fn law_values_are_written_as_they_are(
    texts: &mut Metadata,
    flags: &mut Metadata,
    counts: &mut Metadata,
    key: &str,
    text: &str,
    flag: bool,
    count: u64,
)
    requires
        call_ensures(Metadata::set_text, (texts, key, text), ()),
        call_ensures(Metadata::set_flag, (flags, key, flag), ()),
        call_ensures(Metadata::set_count, (counts, key, count), ()),
    ensures
        final(texts)@ == old(texts)@.insert(key@, MetaView::Single(ScalarView::Text(text@))),
        final(flags)@ == old(flags)@.insert(key@, MetaView::Single(ScalarView::Flag(flag))),
        final(counts)@ == old(counts)@.insert(key@, MetaView::Single(ScalarView::Count(count))),
{
}

/// Where one object is written over another, each key has the value that the
/// later object gives it, and else the value it had.
pub proof fn law_later_entries_win(object: &mut Metadata, other: Metadata, key: Seq<char>)
    requires
        call_ensures(Metadata::extend, (object, other), ()),
    ensures
        final(object)@.contains_key(key) <==> old(object)@.contains_key(key) || other@.contains_key(
            key,
        ),
        other@.contains_key(key) ==> final(object)@[key] == other@[key],
        old(object)@.contains_key(key) && !other@.contains_key(key) ==> final(object)@[key] == old(
            object,
        )@[key],
{
}

/// A key is found exactly when the object has it, and with its value; a new
/// object has none.
pub proof fn law_lookup_finds_the_entry(
    object: Metadata,
    key: &str,
    r: Option<&MetaValue>,
    fresh: Metadata,
)
    requires
        call_ensures(Metadata::get, (&object, key), r),
        call_ensures(Metadata::new, (), fresh),
    ensures
        r is Some <==> object@.contains_key(key@),
        r matches Some(v) ==> v@ == object@[key@],
        !fresh@.contains_key(key@),
{
}

/// A nested object holds what was written to it, the later value of a key in
/// place of the earlier one.
pub proof fn law_nested_object_holds_its_entries(
    group: &mut GroupBuilder,
    key: &str,
    value: Scalar,
    fresh: GroupBuilder,
    finished: GroupBuilder,
    built: MetaValue,
)
    requires
        call_ensures(GroupBuilder::set, (group, key, value), ()),
        call_ensures(GroupBuilder::new, (), fresh),
        call_ensures(GroupBuilder::build, (finished,), built),
    ensures
        group_map(final(group).entries@) == group_map(old(group).entries@).insert(key@, value@),
        !group_map(fresh.entries@).contains_key(key@),
        built@ == MetaView::Group(group_map(finished.entries@)),
{
}

} // verus!
