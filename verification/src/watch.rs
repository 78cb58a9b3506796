//! The watch session: the create handshake, the event sequence and the
//! canceler.

use vstd::prelude::*;
use crate::error::Error;

verus! {

/// What the session reads of one inbound message of a watch stream.
#[derive(Clone, Debug)]
pub struct WatchMessage {
    pub watch_id: i64,
    pub created: bool,
    pub canceled: bool,
    pub cancel_reason: String,
    /// How many change events the message carries.
    pub event_count: usize,
}

#[derive(Clone, Copy, Debug, PartialEq, Eq, Structural)]
pub enum WatchPhase {
    /// The create request has yet to be sent.
    Requesting,
    /// The create request is out; the acknowledgement is awaited.
    AwaitingAck,
    /// The consumer reads event batches.
    Active,
    /// The cancel request is out; the stream runs down.
    Canceling,
    /// The session is over.
    Closed,
}

/// What the consumer of the event sequence gets for one inbound read.
#[derive(Clone, Copy, Debug, PartialEq, Eq, Structural)]
pub enum WatchDelivery {
    /// A batch of change events, to be handed on.
    Batch,
    /// The last message: the server canceled the watch. It is handed on and
    /// the sequence ends after it.
    LastBatch,
    /// The stream closed: the sequence has ended.
    End,
}

/// Whether a first message completes the handshake: it is there, marks the
/// watch as created and not canceled, and carries no change event.
pub open spec fn is_clean_ack(first: Option<WatchMessage>) -> bool {
    first matches Some(m) && m.created && !m.canceled && m.event_count == 0
}

/// Judges the first inbound message of a watch stream. The handshake
/// succeeds, with the server's watch id, exactly on a clean
/// acknowledgement; an absent message, one that is no acknowledgement, a
/// canceled one and one that carries events are refused, in that order of
/// precedence.
pub fn check_created(first: Option<WatchMessage>) -> (r: Result<i64, Error>)
    ensures
        r is Ok <==> is_clean_ack(first),
        r matches Ok(id) ==> id == first.unwrap().watch_id,
        r matches Err(e) ==> (match first {
            None => e is CreateWatch,
            Some(m) => e matches Error::WatchEvent(text) && (if !m.created {
                text@ == "should receive created event at first"@
            } else if m.canceled {
                text@ == m.cancel_reason@
            } else {
                text@ == "created event carries change events"@
            }),
        }),
{
    match first {
        None => Err(Error::CreateWatch),
        Some(m) => {
            if !m.created {
                Err(Error::WatchEvent("should receive created event at first".to_owned()))
            } else if m.canceled {
                Err(Error::WatchEvent(m.cancel_reason))
            } else if m.event_count != 0 {
                Err(Error::WatchEvent("created event carries change events".to_owned()))
            } else {
                Ok(m.watch_id)
            }
        },
    }
}

/// One watch session.
#[derive(Clone, Copy, Debug, PartialEq, Eq, Structural)]
pub struct WatchSession {
    pub phase: WatchPhase,
    /// The server-assigned id; meaningful once the session has been active.
    pub watch_id: i64,
}

impl WatchSession {
    /// The session after its first inbound message: active under the
    /// acknowledged id, or closed.
    pub open spec fn after_handshake(self, first: Option<WatchMessage>) -> WatchSession {
        if is_clean_ack(first) {
            WatchSession { phase: WatchPhase::Active, watch_id: first.unwrap().watch_id }
        } else {
            WatchSession { phase: WatchPhase::Closed, watch_id: self.watch_id }
        }
    }

    /// A session whose create request has yet to be sent.
    pub fn new() -> (s: WatchSession)
        ensures
            s == (WatchSession { phase: WatchPhase::Requesting, watch_id: 0 }),
    {
        WatchSession { phase: WatchPhase::Requesting, watch_id: 0 }
    }

    /// Records how queueing the create request went. If the queue had closed
    /// the session is over and the send error is surfaced.
    pub fn request_sent(&mut self, queued: bool) -> (r: Result<(), Error>)
        requires
            old(self).phase == WatchPhase::Requesting,
        ensures
            final(self).watch_id == old(self).watch_id,
            queued ==> r is Ok && final(self).phase == WatchPhase::AwaitingAck,
            !queued ==> (r matches Err(e) && e is WatchChannelSend) && final(self).phase
                == WatchPhase::Closed,
    {
        if queued {
            self.phase = WatchPhase::AwaitingAck;
            Ok(())
        } else {
            self.phase = WatchPhase::Closed;
            Err(Error::WatchChannelSend)
        }
    }

    /// Takes the first inbound message. A clean acknowledgement makes the
    /// session active under the server's id; anything else ends it with the
    /// error that `check_created` gives.
    pub fn on_first_message(&mut self, first: Option<WatchMessage>) -> (r: Result<i64, Error>)
        requires
            old(self).phase == WatchPhase::AwaitingAck,
        ensures
            *final(self) == old(self).after_handshake(first),
            r is Ok <==> is_clean_ack(first),
            r matches Ok(id) ==> id == first.unwrap().watch_id,
            r matches Err(e) ==> (match first {
                None => e is CreateWatch,
                Some(m) => e matches Error::WatchEvent(text) && (if !m.created {
                    text@ == "should receive created event at first"@
                } else if m.canceled {
                    text@ == m.cancel_reason@
                } else {
                    text@ == "created event carries change events"@
                }),
            }),
    {
        match check_created(first) {
            Ok(id) => {
                self.phase = WatchPhase::Active;
                self.watch_id = id;
                Ok(id)
            },
            Err(e) => {
                self.phase = WatchPhase::Closed;
                Err(e)
            },
        }
    }

    /// Whether the consumer may still read from the inbound stream.
    pub fn is_open(&self) -> (b: bool)
        ensures
            b == (self.phase == WatchPhase::Active || self.phase == WatchPhase::Canceling),
    {
        match self.phase {
            WatchPhase::Active => true,
            WatchPhase::Canceling => true,
            _ => false,
        }
    }

    /// Takes a later inbound read: `None` when the stream has closed,
    /// otherwise whether the message reports a cancellation. The sequence
    /// ends with the stream or with the first cancellation.
    pub fn on_message(&mut self, canceled: Option<bool>) -> (d: WatchDelivery)
        requires
            old(self).phase == WatchPhase::Active || old(self).phase == WatchPhase::Canceling,
        ensures
            final(self).watch_id == old(self).watch_id,
            d == match canceled {
                None => WatchDelivery::End,
                Some(true) => WatchDelivery::LastBatch,
                Some(false) => WatchDelivery::Batch,
            },
            final(self).phase == (if d == WatchDelivery::Batch {
                old(self).phase
            } else {
                WatchPhase::Closed
            }),
    {
        match canceled {
            None => {
                self.phase = WatchPhase::Closed;
                WatchDelivery::End
            },
            Some(true) => {
                self.phase = WatchPhase::Closed;
                WatchDelivery::LastBatch
            },
            Some(false) => WatchDelivery::Batch,
        }
    }

    /// The canceler: on an active session it gives the watch id to put in
    /// the cancel request, once; in every other phase it gives nothing and
    /// changes nothing.
    pub fn cancel(&mut self) -> (id: Option<i64>)
        ensures
            final(self).watch_id == old(self).watch_id,
            old(self).phase == WatchPhase::Active ==> id == Some(old(self).watch_id)
                && final(self).phase == WatchPhase::Canceling,
            old(self).phase != WatchPhase::Active ==> id is None && *final(self) == *old(self),
    {
        match self.phase {
            WatchPhase::Active => {
                self.phase = WatchPhase::Canceling;
                Some(self.watch_id)
            },
            _ => None,
        }
    }
}

/// A handshake never yields a half-made session: when the first message is
/// absent, is no acknowledgement, is marked canceled or carries a change
/// event, the session is closed; otherwise it is active under the id that the
/// message gave.
pub proof fn lemma_watch_handshake(session: WatchSession, first: Option<WatchMessage>)
    ensures
        (first is None || !first.unwrap().created || first.unwrap().canceled
            || first.unwrap().event_count > 0) ==> session.after_handshake(first).phase
            == WatchPhase::Closed,
        session.after_handshake(first).phase == WatchPhase::Active || session.after_handshake(
            first,
        ).phase == WatchPhase::Closed,
        session.after_handshake(first).phase == WatchPhase::Active ==> first is Some
            && session.after_handshake(first).watch_id == first.unwrap().watch_id,
{
}

} // verus!
