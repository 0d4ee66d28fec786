//! What the run loop decides: who the client is, and whether to go on after
//! a connection attempt has ended.

use crate::decode::text_member;
use crate::json::{as_str, document, get};
use crate::ws::{Outcome, TransportError};
use serde_json::Value;
use vstd::prelude::*;

verus! {

/// What the run loop does after a connection attempt.
#[derive(Debug, Clone, Copy, PartialEq, Eq, Structural)]
pub enum Disposition {
    /// Connect again at once, with the session record as it is.
    Reconnect,
    /// Give up: the failure is reported in full and the process ends.
    Abort,
}

/// Whether an attempt that ended with `outcome` is followed by another: it
/// is after an orderly close, after a reset without the closing handshake,
/// and after a connection reset by the peer.
pub open spec fn is_recoverable(outcome: Outcome) -> bool {
    match outcome {
        Outcome::Closed => true,
        Outcome::Transport(TransportError::ResetWithoutClosingHandshake) => true,
        Outcome::Transport(TransportError::ConnectionReset) => true,
        Outcome::Transport(TransportError::Other) => false,
        Outcome::Fatal(_) => false,
    }
}

/// Decides what follows an attempt that ended with `outcome`.
pub fn classify(outcome: Outcome) -> (r: Disposition)
    ensures
        r == if is_recoverable(outcome) {
            Disposition::Reconnect
        } else {
            Disposition::Abort
        },
{
    match outcome {
        Outcome::Closed => Disposition::Reconnect,
        Outcome::Transport(TransportError::ResetWithoutClosingHandshake) => Disposition::Reconnect,
        Outcome::Transport(TransportError::ConnectionReset) => Disposition::Reconnect,
        Outcome::Transport(TransportError::Other) => Disposition::Abort,
        Outcome::Fatal(_) => Disposition::Abort,
    }
}

/// The client's own identifier, from the identity document that the HTTP
/// collaborator fetched: the text member `id`. `None` where the document is
/// no object, or has no such member, or has it with another type.
pub fn self_id(identity: &Value) -> (r: Option<String>)
    ensures
        match r {
            Some(id) => text_member(document(*identity), "id"@) == Some(id@),
            None => text_member(document(*identity), "id"@) is None,
        },
{
    match get(identity, "id") {
        Some(x) => match as_str(x) {
            Some(s) => Some(s.to_owned()),
            None => None,
        },
        None => None,
    }
}

} // verus!
