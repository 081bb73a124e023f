//! The round-trip probe: a probe with a sequence number goes out, and the
//! peer's answer opens the next round.

use vstd::prelude::*;
use crate::transport::{OutboundPacket, OutboundView, StreamerStatsUpdate};

verus! {

/// How long a round waits before it sends its probe, in milliseconds.
pub const QUIESCENCE_MS: u64 = 200;

/// The probe that is under way: when it was sent, in nanoseconds on the
/// caller's clock, and its sequence number.
#[derive(Clone, Copy, Debug, PartialEq, Eq, Structural)]
pub struct RttProbe {
    pub sent_at: u64,
    pub sequence_number: u16,
}

/// What a round found when it began.
#[derive(Clone, Copy, Debug, PartialEq, Eq, Structural)]
pub struct RttRound {
    /// The time since the probe under way was sent, in nanoseconds.
    pub rtt_ns: u64,
    /// The sequence number of the probe under way.
    pub expected: u16,
    /// The sequence number that the answer carried.
    pub received: u16,
}

/// The time from `earlier` to `later`, and zero where the clock went back.
pub open spec fn elapsed(earlier: u64, later: u64) -> u64 {
    if later >= earlier {
        (later - earlier) as u64
    } else {
        0
    }
}

/// The sequence number after `sequence_number`: the numbers go round.
pub open spec fn next_sequence_number(sequence_number: u16) -> u16 {
    if sequence_number == u16::MAX {
        0
    } else {
        (sequence_number + 1) as u16
    }
}

impl RttProbe {
    /// The state before the first round: no probe has been answered.
    pub open spec fn new_spec(now: u64) -> RttProbe {
        RttProbe { sent_at: now, sequence_number: 0 }
    }

    /// What a round finds that begins at `now` on an answer with the
    /// sequence number `received`: the time since the probe under way was
    /// sent is the round-trip time.
    pub open spec fn round(self, received: u16, now: u64) -> RttRound {
        RttRound {
            rtt_ns: elapsed(self.sent_at, now),
            expected: self.sequence_number,
            received,
        }
    }

    /// The state before the first round: no probe has been answered.
    pub fn new(now: u64) -> (probe: Self)
        ensures
            probe == Self::new_spec(now),
    {
        RttProbe { sent_at: now, sequence_number: 0 }
    }
}

/// Begins a round at `now`, on an answer that carried `recv_sequence_number`.
/// An answer with another sequence number than that of the probe under way
/// begins a round all the same.
pub fn recv_rtt(probe: &RttProbe, recv_sequence_number: u16, now: u64) -> (round: RttRound)
    ensures
        round == probe.round(recv_sequence_number, now),
{
    RttRound {
        rtt_ns: if now >= probe.sent_at {
            now - probe.sent_at
        } else {
            0
        },
        expected: probe.sequence_number,
        received: recv_sequence_number,
    }
}

impl RttRound {
    /// The probe that ends the round when it is sent at `now`: it carries
    /// the sequence number after the one that the round found.
    pub open spec fn probe_after(self, now: u64) -> RttProbe {
        RttProbe { sent_at: now, sequence_number: next_sequence_number(self.expected) }
    }

    /// The answer carried the sequence number of the probe under way.
    pub fn is_expected(&self) -> (expected: bool)
        ensures
            expected == (self.received == self.expected),
    {
        self.received == self.expected
    }

    /// The statistics packet that reports the round-trip time.
    pub fn report(&self) -> (packet: OutboundPacket)
        ensures
            packet@ == OutboundView::Stats(StreamerStatsUpdate::BrowserRtt { rtt_ns: self.rtt_ns }),
    {
        OutboundPacket::Stats(StreamerStatsUpdate::BrowserRtt { rtt_ns: self.rtt_ns })
    }

    /// The probe that ends the round, sent at `now`, once the wait is over,
    /// and the packet that carries it.
    pub fn next_probe(&self, now: u64) -> (next: (RttProbe, OutboundPacket))
        ensures
            next.0 == self.probe_after(now),
            next.1@ == (OutboundView::Rtt { sequence_number: next.0.sequence_number }),
    {
        let sequence_number: u16 = if self.expected == u16::MAX {
            0
        } else {
            self.expected + 1
        };
        (RttProbe { sent_at: now, sequence_number }, OutboundPacket::Rtt { sequence_number })
    }
}

/// An answer that arrives at `t1` to a probe sent at `t0` reports the
/// round-trip time `t1 - t0`. An answer with an unexpected sequence number
/// is told apart from the expected one and changes nothing else: the same
/// time is reported, and the round ends with the same probe, which carries
/// the number after the one under way.
pub proof fn lemma_round_trip_time(probe: RttProbe, received: u16, t1: u64, t2: u64)
    requires
        probe.sent_at <= t1,
    ensures
        probe.round(received, t1).rtt_ns == t1 - probe.sent_at,
        probe.round(received, t1).received == received,
        (probe.round(received, t1).received == probe.round(received, t1).expected) <==> received
            == probe.sequence_number,
        probe.round(received, t1).rtt_ns == probe.round(probe.sequence_number, t1).rtt_ns,
        probe.round(received, t1).probe_after(t2) == probe.round(
            probe.sequence_number,
            t1,
        ).probe_after(t2),
        probe.round(received, t1).probe_after(t2).sent_at == t2,
        probe.round(received, t1).probe_after(t2).sequence_number == (probe.sequence_number + 1)
            % 0x1_0000,
{
}

} // verus!
