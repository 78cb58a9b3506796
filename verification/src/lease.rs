//! The lease keeper: the keep-alive handshake, the pulses after it and the
//! sequence of acknowledgements.

use vstd::prelude::*;
use crate::error::Error;

verus! {

/// A lease's identifier.
pub type LeaseId = i64;

/// A keep-alive request for one lease.
#[derive(Clone, Copy, Debug, PartialEq, Eq, Structural)]
pub struct KeepAliveRequest {
    pub id: i64,
}

/// A renewal acknowledgement: the lease it is for and its extended
/// time-to-live.
#[derive(Clone, Copy, Debug, PartialEq, Eq, Structural)]
pub struct KeepAliveAck {
    pub id: i64,
    pub ttl: i64,
}

/// The one request that opens the keep-alive stream of `lease_id`.
pub fn initial_request(lease_id: i64) -> (req: KeepAliveRequest)
    ensures
        req.id == lease_id,
{
    KeepAliveRequest { id: lease_id }
}

/// Judges the first response of the keep-alive stream of `lease_id`. The
/// handshake succeeds exactly when there is a response and it reports that
/// lease. A stream that closed before any response is a creation error; a
/// response for another lease is a keep-alive error.
pub fn check_first_ack(lease_id: i64, first: Option<KeepAliveAck>) -> (r: Result<i64, Error>)
    ensures
        match first {
            None => r matches Err(e) && e is CreateWatch,
            Some(ack) => if ack.id == lease_id {
                r == Ok::<i64, Error>(lease_id)
            } else {
                r matches Err(e) && e is KeepAliveLease
            },
        },
{
    match first {
        Some(ack) => {
            if ack.id == lease_id {
                Ok(ack.id)
            } else {
                Err(Error::KeepAliveLease)
            }
        },
        None => Err(Error::CreateWatch),
    }
}

/// The handle of an established keep-alive session.
#[derive(Clone, Copy, Debug, PartialEq, Eq, Structural)]
pub struct LeaseKeeper {
    pub lease_id: i64,
    /// Whether the inbound stream is still open.
    pub alive: bool,
    /// Requests sent so far, the initial one included.
    pub sent: u64,
    /// Acknowledgements received so far, the handshake's included.
    pub received: u64,
}

impl LeaseKeeper {
    /// The handshake lies behind every session: one request and one
    /// response at least.
    pub open spec fn wf(self) -> bool {
        self.sent >= 1 && self.received >= 1
    }

    /// Whether every acknowledgement so far answers a request of its own.
    pub open spec fn matched(self) -> bool {
        self.received <= self.sent
    }

    /// The session that a first response opens.
    pub open spec fn established(first: KeepAliveAck) -> LeaseKeeper {
        LeaseKeeper { lease_id: first.id, alive: true, sent: 1, received: 1 }
    }

    /// The session after one more pulse.
    pub open spec fn after_pulse(self) -> LeaseKeeper {
        LeaseKeeper { sent: (self.sent + 1) as u64, ..self }
    }

    /// What one inbound read hands on to the consumer: the acknowledgement
    /// as it came, while the sequence has not ended.
    pub open spec fn handed_on(self, read: Option<KeepAliveAck>) -> Option<KeepAliveAck> {
        if self.alive {
            read
        } else {
            None
        }
    }

    /// The session after one more inbound read. A closed stream ends the
    /// sequence, and an ended sequence stays ended.
    pub open spec fn after_ack(self, read: Option<KeepAliveAck>) -> LeaseKeeper {
        if !self.alive {
            self
        } else {
            match read {
                Some(_) => LeaseKeeper { received: (self.received + 1) as u64, ..self },
                None => LeaseKeeper { alive: false, ..self },
            }
        }
    }

    /// The session after a run of inbound reads, and the acknowledgements
    /// handed on during it, in the order they were handed on.
    pub open spec fn drain(self, reads: Seq<Option<KeepAliveAck>>) -> (
        LeaseKeeper,
        Seq<KeepAliveAck>,
    )
        decreases reads.len(),
    {
        if reads.len() == 0 {
            (self, Seq::empty())
        } else {
            let rest = self.after_ack(reads[0]).drain(reads.subrange(1, reads.len() as int));
            match self.handed_on(reads[0]) {
                Some(ack) => (rest.0, seq![ack] + rest.1),
                None => rest,
            }
        }
    }

    /// Completes the handshake for `lease_id`: one request is out, and the
    /// first response decides. A response that reports `lease_id` opens the
    /// session for it. A stream that closed before any response gives a
    /// creation error, a response for another lease a keep-alive error, and
    /// in neither case is there a session.
    pub fn establish(lease_id: i64, first: Option<KeepAliveAck>) -> (r: Result<LeaseKeeper, Error>)
        ensures
            match first {
                None => r matches Err(e) && e is CreateWatch,
                Some(ack) => if ack.id == lease_id {
                    r == Ok::<LeaseKeeper, Error>(LeaseKeeper::established(ack))
                } else {
                    r matches Err(e) && e is KeepAliveLease
                },
            },
            r matches Ok(keeper) ==> keeper.wf() && keeper.matched() && keeper.lease_id == lease_id,
            handshake(lease_id, first) == (match r {
                Ok(keeper) => Some(keeper),
                Err(_) => None,
            }),
    {
        match check_first_ack(lease_id, first) {
            Ok(id) => Ok(LeaseKeeper { lease_id: id, alive: true, sent: 1, received: 1 }),
            Err(e) => Err(e),
        }
    }

    /// The next renewal pulse. It carries the session's lease id.
    pub fn pulse(&mut self) -> (req: KeepAliveRequest)
        requires
            old(self).sent < u64::MAX,
        ensures
            req.id == old(self).lease_id,
            *final(self) == old(self).after_pulse(),
            old(self).wf() ==> final(self).wf(),
    {
        self.sent = self.sent + 1;
        KeepAliveRequest { id: self.lease_id }
    }

    /// Takes an inbound read. An acknowledgement is passed through as the
    /// server sent it; a closed stream ends the sequence, which is no error:
    /// the lease is then no longer being kept alive. After the end nothing
    /// more is handed on.
    pub fn on_ack(&mut self, read: Option<KeepAliveAck>) -> (out: Option<KeepAliveAck>)
        requires
            old(self).received < u64::MAX,
        ensures
            out == old(self).handed_on(read),
            *final(self) == old(self).after_ack(read),
            old(self).wf() ==> final(self).wf(),
    {
        if !self.alive {
            return None;
        }
        match read {
            Some(a) => {
                self.received = self.received + 1;
                Some(a)
            },
            None => {
                self.alive = false;
                None
            },
        }
    }

    /// Whether the inbound sequence has not ended.
    pub fn is_alive(&self) -> (b: bool)
        ensures
            b == self.alive,
    {
        self.alive
    }

    /// Whether every acknowledgement so far answers a request of its own.
    pub fn is_matched(&self) -> (b: bool)
        ensures
            b == self.matched(),
    {
        self.received <= self.sent
    }

    /// Whether an acknowledgement names another lease than the one kept
    /// alive, which the caller may want to know.
    pub fn is_foreign(&self, ack: &KeepAliveAck) -> (b: bool)
        ensures
            b == (ack.id != self.lease_id),
    {
        ack.id != self.lease_id
    }
}

/// The session that `LeaseKeeper::establish` hands out for `lease_id` on a
/// first response, if it hands one out.
pub open spec fn handshake(lease_id: i64, first: Option<KeepAliveAck>) -> Option<LeaseKeeper> {
    match first {
        Some(ack) => if ack.id == lease_id {
            Some(LeaseKeeper::established(ack))
        } else {
            None
        },
        None => None,
    }
}

/// The handshake for lease `lease_id` sends one request, which carries that
/// id, and hands out a session exactly when the first response reports the
/// same id. The session then stands for that lease, with exactly one request
/// and one response behind it, and every pulse after it, however many reads
/// lie between, carries that id too.
pub proof fn lemma_keep_alive_round_trip(
    lease_id: i64,
    first: Option<KeepAliveAck>,
    reads: Seq<Option<KeepAliveAck>>,
)
    ensures
        handshake(lease_id, first) is Some <==> (first matches Some(ack) && ack.id == lease_id),
        handshake(lease_id, first) matches Some(keeper) ==> {
            &&& keeper.lease_id == lease_id
            &&& keeper.sent == 1
            &&& keeper.received == 1
            &&& keeper.alive
            &&& keeper.wf()
            &&& keeper.matched()
            &&& keeper.after_pulse().lease_id == lease_id
            &&& keeper.drain(reads).0.lease_id == lease_id
            &&& keeper.drain(reads).0.after_pulse().lease_id == lease_id
        },
{
    if handshake(lease_id, first) is Some {
        lemma_drain_keeps_lease(handshake(lease_id, first).unwrap(), reads);
    }
}

/// Inbound reads never change the lease that a session stands for, nor the
/// count of requests sent.
pub proof fn lemma_drain_keeps_lease(keeper: LeaseKeeper, reads: Seq<Option<KeepAliveAck>>)
    ensures
        keeper.drain(reads).0.lease_id == keeper.lease_id,
        keeper.drain(reads).0.sent == keeper.sent,
    decreases reads.len(),
{
    if reads.len() > 0 {
        lemma_drain_keeps_lease(keeper.after_ack(reads[0]), reads.subrange(1, reads.len() as int));
    }
}

/// The acknowledgements that the server emits before it closes the stream
/// reach the consumer one for one: in the order they came, each once, with
/// id and time-to-live as sent. The sequence then ends, which is no error,
/// and nothing is handed on after its end.
pub proof fn lemma_acks_pass_through(
    keeper: LeaseKeeper,
    acks: Seq<KeepAliveAck>,
    later: Seq<Option<KeepAliveAck>>,
)
    requires
        keeper.alive,
        keeper.received + acks.len() <= u64::MAX,
    ensures
        keeper.drain(acks.map_values(|a: KeepAliveAck| Some(a)).push(None) + later).1 == acks,
        keeper.drain(acks.map_values(|a: KeepAliveAck| Some(a)).push(None) + later).0 == (
            LeaseKeeper { alive: false, received: (keeper.received + acks.len()) as u64, ..keeper }
        ),
    decreases acks.len(),
{
    let reads = acks.map_values(|a: KeepAliveAck| Some(a)).push(None) + later;
    if acks.len() == 0 {
        assert(reads[0] is None);
        assert(reads.subrange(1, reads.len() as int) =~= later);
        lemma_ended_hands_nothing_on(keeper.after_ack(None), later);
        assert(keeper.drain(reads).1 =~= acks);
    } else {
        let tail = acks.subrange(1, acks.len() as int);
        assert(reads[0] == Some(acks[0]));
        assert(reads.subrange(1, reads.len() as int) =~= tail.map_values(
            |a: KeepAliveAck| Some(a),
        ).push(None) + later);
        lemma_acks_pass_through(keeper.after_ack(Some(acks[0])), tail, later);
        assert(seq![acks[0]] + tail =~= acks);
    }
}

/// Once the sequence has ended, no read hands anything on or changes the
/// session.
pub proof fn lemma_ended_hands_nothing_on(keeper: LeaseKeeper, reads: Seq<Option<KeepAliveAck>>)
    requires
        !keeper.alive,
    ensures
        keeper.drain(reads) == (keeper, Seq::<KeepAliveAck>::empty()),
    decreases reads.len(),
{
    if reads.len() > 0 {
        lemma_ended_hands_nothing_on(keeper, reads.subrange(1, reads.len() as int));
    }
}

/// An acknowledgement that answers a pulse keeps the session matched: while
/// each acknowledgement follows a pulse of its own, the responses never
/// outnumber the requests.
pub proof fn lemma_pulse_then_ack_stays_matched(keeper: LeaseKeeper, ack: KeepAliveAck)
    requires
        keeper.matched(),
        keeper.sent < u64::MAX,
    ensures
        keeper.after_pulse().after_ack(Some(ack)).matched(),
        keeper.after_pulse().matched(),
{
}

} // verus!
