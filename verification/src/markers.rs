//! Lifecycle markers: system messages that record an event in a session's
//! history, all of one shape, so that one flag tells them from conversation.

use crate::messages::{synthetic_marker, Content, Message, Role};
use crate::metadata::{flag_value, text_value, MetaView, Metadata};
use vstd::prelude::*;
use vstd::string::*;

verus! {

/// The event-specific part of a marker's metadata, as a caller hands it in.
#[derive(Debug, Clone, PartialEq, Eq)]
pub enum ExtraMetadata {
    /// Further entries.
    Object(Metadata),
    /// Nothing.
    Null,
    /// A value that is no object; it is ignored.
    NotAnObject,
}

/// The entries that a caller's extra metadata contributes.
pub open spec fn extra_entries(extra: ExtraMetadata) -> Map<Seq<char>, MetaView> {
    match extra {
        ExtraMetadata::Object(m) => m@,
        _ => Map::empty(),
    }
}

/// The metadata that every lifecycle marker carries.
pub open spec fn lifecycle_base(marker_type: Seq<char>) -> Map<Seq<char>, MetaView> {
    Map::empty().insert("synthetic"@, flag_value(true)).insert("type"@, text_value(marker_type))
}

/// The metadata that every error marker carries.
pub open spec fn error_base(marker_type: Seq<char>) -> Map<Seq<char>, MetaView> {
    Map::empty().insert("synthetic"@, flag_value(true)).insert("kind"@, text_value("error"@)).insert(
        "type"@,
        text_value(marker_type),
    )
}

/// `message` is a marker with this text and these entries, dated `at`.
pub open spec fn marker_message(
    message: Message,
    text: Seq<char>,
    entries: Map<Seq<char>, MetaView>,
    at: i64,
) -> bool {
    &&& message.role == Role::System
    &&& message.content is Text
    &&& message.content->Text_0@ == text
    &&& message.timestamp == at
    &&& message.metadata is Some
    &&& message.metadata->0@ == entries
}

/// Writes the caller's entries over the canonical ones.
fn merged(base: Metadata, extra: ExtraMetadata) -> (r: Metadata)
    ensures
        r@ == base@.union_prefer_right(extra_entries(extra)),
{
    let mut out: Metadata = base;
    match extra {
        ExtraMetadata::Object(m) => {
            out.extend(m);
        },
        _ => {},
    }
    out
}

/// Builds the message of a lifecycle marker: a system message flagged as
/// synthetic, with its type and the caller's entries. Extra metadata that is
/// no object is ignored.
pub fn persist_lifecycle_marker(
    marker_type: &str,
    display_text: String,
    extra_metadata: ExtraMetadata,
    at: i64,
) -> (r: Message)
    ensures
        marker_message(
            r,
            display_text@,
            lifecycle_base(marker_type@).union_prefer_right(extra_entries(extra_metadata)),
            at,
        ),
{
    let mut base: Metadata = Metadata::new();
    base.set_flag("synthetic", true);
    base.set_text("type", marker_type);
    let metadata: Metadata = merged(base, extra_metadata);
    Message {
        role: Role::System,
        content: Content::Text(display_text),
        timestamp: at,
        metadata: Some(metadata),
    }
}

/// Builds the message of an error marker: a lifecycle marker that also says
/// it is of the error kind, which keeps it in the agent's context.
pub fn persist_error_marker(
    marker_type: &str,
    display_text: String,
    extra_metadata: ExtraMetadata,
    at: i64,
) -> (r: Message)
    ensures
        marker_message(
            r,
            display_text@,
            error_base(marker_type@).union_prefer_right(extra_entries(extra_metadata)),
            at,
        ),
{
    let mut base: Metadata = Metadata::new();
    base.set_flag("synthetic", true);
    base.set_text("kind", "error");
    base.set_text("type", marker_type);
    let metadata: Metadata = merged(base, extra_metadata);
    Message {
        role: Role::System,
        content: Content::Text(display_text),
        timestamp: at,
        metadata: Some(metadata),
    }
}

/// Markers of either kind stay out of direct message transcripts, whatever
/// the caller adds, as long as it leaves the `synthetic` flag alone.
pub proof fn law_markers_are_synthetic(
    message: Message,
    text: Seq<char>,
    marker_type: Seq<char>,
    extra: ExtraMetadata,
    at: i64,
)
    requires
        !extra_entries(extra).contains_key("synthetic"@),
        marker_message(
            message,
            text,
            lifecycle_base(marker_type).union_prefer_right(extra_entries(extra)),
            at,
        ) || marker_message(
            message,
            text,
            error_base(marker_type).union_prefer_right(extra_entries(extra)),
            at,
        ),
    ensures
        synthetic_marker(message),
{
    reveal_strlit("synthetic");
    reveal_strlit("type");
    reveal_strlit("kind");
    assert("synthetic"@.len() != "type"@.len());
}

/// An error marker is of the error kind unless the caller says otherwise.
pub proof fn law_error_markers_say_so(marker_type: Seq<char>, extra: ExtraMetadata)
    requires
        !extra_entries(extra).contains_key("kind"@),
    ensures
        error_base(marker_type).union_prefer_right(extra_entries(extra))["kind"@] == text_value(
            "error"@,
        ),
{
    reveal_strlit("type");
    reveal_strlit("kind");
    assert("kind"@[0] != "type"@[0]);
}

} // verus!
