//! The liveness record of one gateway session.
//!
//! The server dictates a heartbeat interval at hello time. From then on
//! the client owes one ping per interval, and each ping must be
//! acknowledged before the next is due: a tick that finds the previous
//! ping unacknowledged is a liveness failure. The schedule must not
//! drift: each tick is owed one interval after the previously scheduled
//! tick, never one interval after whenever the ping actually went out.

use vstd::prelude::*;

verus! {

/// Addition on the millisecond clock, pinned to the top of the range
/// instead of wrapping.
pub open spec fn sat_add(a: u64, b: u64) -> u64 {
    if a + b > u64::MAX {
        u64::MAX
    } else {
        (a + b) as u64
    }
}

/// Addition on the millisecond clock, pinned to the top of the range
/// instead of wrapping.
pub fn saturating_add_ms(a: u64, b: u64) -> (r: u64)
    ensures
        r == sat_add(a, b),
{
    if a <= u64::MAX - b {
        a + b
    } else {
        u64::MAX
    }
}

/// The liveness record: when the next ping is owed and whether the last
/// one came back.
#[derive(Debug, Clone, Copy, PartialEq, Eq, Structural)]
pub struct HeartbeatState {
    /// The server-dictated period, in milliseconds.
    pub interval_ms: u64,
    /// When the next ping is owed, in milliseconds since the Unix epoch.
    pub next_tick_ms: u64,
    /// When the last ping went out, in milliseconds since the Unix epoch.
    pub last_send_ms: u64,
    /// Whether the last ping has been acknowledged. At most one ping is
    /// ever in flight; a due tick that finds this false is a liveness
    /// failure.
    pub acked: bool,
}

impl HeartbeatState {
    /// A fresh schedule, as started on receipt of a hello frame: nothing
    /// in flight, the first ping owed one interval from now.
    pub fn start(interval_ms: u64, now_ms: u64) -> (hb: HeartbeatState)
        ensures
            hb == (HeartbeatState {
                interval_ms,
                next_tick_ms: sat_add(now_ms, interval_ms),
                last_send_ms: now_ms,
                acked: true,
            }),
    {
        HeartbeatState {
            interval_ms,
            next_tick_ms: saturating_add_ms(now_ms, interval_ms),
            last_send_ms: now_ms,
            acked: true,
        }
    }

    /// Whether a tick is owed at clock reading `now`.
    pub open spec fn spec_due(self, now_ms: u64) -> bool {
        now_ms >= self.next_tick_ms
    }

    /// Whether a tick is owed at clock reading `now`.
    pub fn due(&self, now_ms: u64) -> (r: bool)
        ensures
            r == self.spec_due(now_ms),
    {
        now_ms >= self.next_tick_ms
    }

    /// The record after a ping goes out: the ping is in flight, and the
    /// next one is owed an interval after the tick that was scheduled —
    /// not an interval after `now`, so late sends do not accumulate skew.
    pub open spec fn spec_after_send(self, now_ms: u64) -> HeartbeatState {
        HeartbeatState {
            interval_ms: self.interval_ms,
            next_tick_ms: sat_add(self.next_tick_ms, self.interval_ms),
            last_send_ms: now_ms,
            acked: false,
        }
    }

    /// Records that a ping went out at clock reading `now`.
    pub fn mark_sent(&mut self, now_ms: u64)
        ensures
            *final(self) == old(self).spec_after_send(now_ms),
    {
        self.next_tick_ms = saturating_add_ms(self.next_tick_ms, self.interval_ms);
        self.last_send_ms = now_ms;
        self.acked = false;
    }

    /// Records the acknowledgement of the ping in flight.
    pub fn acknowledge(&mut self)
        ensures
            *final(self) == (HeartbeatState { acked: true, ..*old(self) }),
    {
        self.acked = true;
    }
}

/// The record after a whole run of sends, each at the clock reading the
/// run gives.
pub open spec fn spec_after_sends(hb: HeartbeatState, sends: Seq<u64>) -> HeartbeatState
    decreases sends.len(),
{
    if sends.len() == 0 {
        hb
    } else {
        spec_after_sends(hb, sends.drop_last()).spec_after_send(sends.last())
    }
}

/// The schedule does not drift: however late each ping actually goes out,
/// the tick after `k` sends is owed exactly `k + 1` intervals after the
/// start, as long as the clock arithmetic stays in range.
pub proof fn lemma_schedule_does_not_drift(hb: HeartbeatState, start_ms: u64, sends: Seq<u64>)
    requires
        hb.next_tick_ms == start_ms + hb.interval_ms,
        start_ms + (sends.len() + 1) * hb.interval_ms <= u64::MAX,
    ensures
        spec_after_sends(hb, sends).next_tick_ms == start_ms + (sends.len() + 1) * hb.interval_ms,
        spec_after_sends(hb, sends).interval_ms == hb.interval_ms,
    decreases sends.len(),
{
    if sends.len() > 0 {
        let prev = sends.drop_last();
        assert((prev.len() + 1) * hb.interval_ms + hb.interval_ms == (sends.len() + 1)
            * hb.interval_ms) by (nonlinear_arith)
            requires
                prev.len() + 1 == sends.len(),
        ;
        lemma_schedule_does_not_drift(hb, start_ms, prev);
    } else {
        assert((sends.len() + 1) * hb.interval_ms == hb.interval_ms) by (nonlinear_arith)
            requires
                sends.len() == 0,
        ;
    }
}

} // verus!
