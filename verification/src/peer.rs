//! What the peer of a direct message conversation is told when a run ends it.

use crate::text::{byte_len, concat, ellipsis, longest_prefix, same_text, truncate_bytes};
use vstd::prelude::*;
use vstd::string::*;

verus! {

/// The byte budget of an error text that a peer is shown.
pub const PEER_ERROR_MESSAGE_MAX_LEN: usize = 300;

/// A sanitised error as a peer sees it: whole when it fits the budget, else
/// cut at the last character boundary within it, with an ellipsis.
pub open spec fn peer_text(sanitised: Seq<char>) -> Seq<char> {
    if byte_len(sanitised) <= PEER_ERROR_MESSAGE_MAX_LEN {
        sanitised
    } else {
        longest_prefix(sanitised, PEER_ERROR_MESSAGE_MAX_LEN as nat) + ellipsis()
    }
}

/// Bounds a sanitised error text for a peer's notification.
pub fn truncate_error_for_peer(sanitised: &str) -> (r: String)
    ensures
        r@ == peer_text(sanitised@),
{
    truncate_bytes(sanitised, PEER_ERROR_MESSAGE_MAX_LEN)
}

/// Puts a text of the gateway's own in front of a foreign error. Only the
/// error is bounded, so that the part that says what failed always survives.
pub fn peer_error_with_prefix(prefix: &str, sanitised: &str) -> (r: String)
    ensures
        r@ == prefix@ + peer_text(sanitised@),
{
    let tail: String = truncate_error_for_peer(sanitised);
    concat(prefix, tail.as_str())
}

/// Why a direct message conversation ended.
#[derive(Debug, Clone, PartialEq, Eq)]
pub enum EndReason<S> {
    /// One side chose not to reply.
    Ignored,
    /// The conversation reached its maximum depth.
    DepthExceeded,
    /// The user cancelled it.
    UserCancelled,
    /// A run failed.
    Errored {
        /// What went wrong.
        message: S,
        /// The run died before its turn was over.
        interrupted: bool,
    },
}

/// Why a conversation ended, with its texts as strings.
pub type ConversationEndReason = EndReason<String>;

impl EndReason<String> {
    /// The mathematical reading.
    pub open spec fn view(&self) -> EndReason<Seq<char>> {
        match *self {
            EndReason::Ignored => EndReason::Ignored,
            EndReason::DepthExceeded => EndReason::DepthExceeded,
            EndReason::UserCancelled => EndReason::UserCancelled,
            EndReason::Errored { message, interrupted } => EndReason::Errored {
                message: message@,
                interrupted,
            },
        }
    }

    /// Tells whether the turn that would have produced the conversation's
    /// outcome was cut short.
    pub fn is_interrupted(&self) -> (r: bool)
        ensures
            r == interrupted(self@),
    {
        match self {
            EndReason::Ignored => false,
            EndReason::DepthExceeded => false,
            EndReason::UserCancelled => true,
            EndReason::Errored { message: _, interrupted } => *interrupted,
        }
    }

    /// The failure text of an errored end.
    pub fn detail(&self) -> (r: Option<String>)
        ensures
            crate::context::text_of(r) == detail_of(self@),
    {
        match self {
            EndReason::Errored { message, interrupted: _ } => Some(message.clone()),
            _ => None,
        }
    }

    /// The short name that travels on the wire.
    pub fn label(&self) -> (r: &'static str)
        ensures
            r@ == reason_label(self@),
    {
        match self {
            EndReason::Ignored => "ignored",
            EndReason::DepthExceeded => "depth_exceeded",
            EndReason::UserCancelled => "user_cancelled",
            EndReason::Errored { message: _, interrupted: _ } => "errored",
        }
    }
}

/// The turn that would have produced the outcome was cut short.
pub open spec fn interrupted(reason: EndReason<Seq<char>>) -> bool {
    match reason {
        EndReason::Ignored => false,
        EndReason::DepthExceeded => false,
        EndReason::UserCancelled => true,
        EndReason::Errored { message, interrupted } => interrupted,
    }
}

/// The failure text of an errored end.
pub open spec fn detail_of(reason: EndReason<Seq<char>>) -> Option<Seq<char>> {
    match reason {
        EndReason::Errored { message, interrupted } => Some(message),
        _ => None,
    }
}

/// The short name of a reason.
pub open spec fn reason_label(reason: EndReason<Seq<char>>) -> Seq<char> {
    match reason {
        EndReason::Ignored => "ignored"@,
        EndReason::DepthExceeded => "depth_exceeded"@,
        EndReason::UserCancelled => "user_cancelled"@,
        EndReason::Errored { message, interrupted } => "errored"@,
    }
}

/// What the authoritative run record says about how the run ended.
#[derive(Debug, Clone, PartialEq, Eq)]
pub struct RunVerdict<S> {
    /// The recorded terminal reason.
    pub terminal_reason: Option<S>,
    /// The recorded error.
    pub error: Option<S>,
}

impl RunVerdict<String> {
    /// The mathematical reading.
    pub open spec fn view(&self) -> RunVerdict<Seq<char>> {
        RunVerdict {
            terminal_reason: crate::context::text_of(self.terminal_reason),
            error: crate::context::text_of(self.error),
        }
    }
}

/// The reading of an optional verdict.
pub open spec fn verdict_view(v: Option<RunVerdict<String>>) -> Option<RunVerdict<Seq<char>>> {
    match v {
        Some(x) => Some(x@),
        None => None,
    }
}

/// The persistence failure behind a run's end: what the run record holds when
/// it says that persistence failed, else what the caller saw itself.
pub open spec fn persistence_error(
    verdict: Option<RunVerdict<Seq<char>>>,
    observed: Option<Seq<char>>,
) -> Option<Seq<char>> {
    match verdict {
        Some(v) => if v.terminal_reason == Some("persistence_failed"@) {
            match v.error {
                Some(e) => Some(e),
                None => Some("lifecycle persistence failed"@),
            }
        } else {
            observed
        },
        None => observed,
    }
}

/// Finds the persistence failure to report to a peer. A caller may have seen
/// no error of its own because an earlier path had already put the run
/// away; the run record then still names the cause. The text returned is
/// raw: it has to be sanitised and bounded before a peer sees it.
pub fn lifecycle_persistence_error_for_peer(
    verdict: Option<RunVerdict<String>>,
    observed_error: Option<String>,
) -> (r: Option<String>)
    ensures
        crate::context::text_of(r) == persistence_error(
            verdict_view(verdict),
            crate::context::text_of(observed_error),
        ),
{
    match verdict {
        Some(v) => {
            let failed: bool = match &v.terminal_reason {
                Some(reason) => same_text(reason.as_str(), "persistence_failed"),
                None => false,
            };
            if failed {
                match v.error {
                    Some(e) => Some(e),
                    None => Some("lifecycle persistence failed".to_owned()),
                }
            } else {
                observed_error
            }
        },
        None => observed_error,
    }
}

/// What a peer is shown of an error never takes more than the budget and the
/// ellipsis.
pub proof fn law_peer_text_is_bounded(sanitised: Seq<char>)
    ensures
        byte_len(peer_text(sanitised)) <= PEER_ERROR_MESSAGE_MAX_LEN + 3,
{
    lemma_longest_prefix_fits(sanitised, PEER_ERROR_MESSAGE_MAX_LEN as nat);
    crate::text::lemma_byte_len_concat(
        longest_prefix(sanitised, PEER_ERROR_MESSAGE_MAX_LEN as nat),
        ellipsis(),
    );
    assert(byte_len(ellipsis()) == 3) by {
        reveal_with_fuel(byte_len, 4);
    }
}

proof fn lemma_longest_prefix_fits(text: Seq<char>, max: nat)
    ensures
        byte_len(longest_prefix(text, max)) <= max,
    decreases text.len(),
{
    if byte_len(text) > max && text.len() > 0 {
        lemma_longest_prefix_fits(text.drop_last(), max);
    }
}

} // verus!
