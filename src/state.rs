use vstd::prelude::*;

verus! {

/// Liveness of one tunnel, or of one side of a forward tunnel.
///
/// Timestamps are milliseconds of a monotonic clock chosen by the caller.
#[derive(Clone, Copy, Debug, PartialEq, Eq, Structural)]
pub enum TunnelState {
    Down,
    Up { last_packet: u64 },
}

/// Time elapsed from `last` to `now`; a clock that seems to run backwards
/// yields zero, as a monotonic clock's elapsed time saturates.
pub open spec fn idle_time(last: u64, now: u64) -> nat {
    if now >= last {
        (now - last) as nat
    } else {
        0
    }
}

/// State after an inbound packet at `now`, and whether the tunnel came up.
pub open spec fn after_packet(s: TunnelState, now: u64) -> (TunnelState, bool) {
    (TunnelState::Up { last_packet: now }, s is Down)
}

/// State after an idle check at `now`, and whether the tunnel went down.
pub open spec fn after_timeout_check(s: TunnelState, now: u64, idle_timeout: u64) -> (
    TunnelState,
    bool,
) {
    match s {
        TunnelState::Up { last_packet } => {
            if idle_time(last_packet, now) > idle_timeout {
                (TunnelState::Down, true)
            } else {
                (s, false)
            }
        },
        TunnelState::Down => (s, false),
    }
}

impl TunnelState {
    /// Records an inbound packet at `now`; returns true exactly when the
    /// tunnel was down, that is when it has just come up.
    pub fn got_packet(&mut self, now: u64) -> (came_up: bool)
        ensures
            (*final(self), came_up) == after_packet(*old(self), now),
    {
        let came_up = match *self {
            TunnelState::Down => true,
            TunnelState::Up { .. } => false,
        };
        *self = TunnelState::Up { last_packet: now };
        came_up
    }

    /// Takes the tunnel down when more than `idle_timeout` milliseconds have
    /// passed since its last packet; returns true exactly when it went down.
    pub fn check_timeout(&mut self, now: u64, idle_timeout: u64) -> (went_down: bool)
        ensures
            (*final(self), went_down) == after_timeout_check(*old(self), now, idle_timeout),
    {
        if let TunnelState::Up { last_packet } = *self {
            let idle: u64 = if now >= last_packet {
                now - last_packet
            } else {
                0
            };
            if idle > idle_timeout {
                *self = TunnelState::Down;
                return true;
            }
        }
        false
    }

    pub fn is_up(&self) -> (r: bool)
        ensures
            r == (*self is Up),
    {
        match self {
            TunnelState::Up { .. } => true,
            TunnelState::Down => false,
        }
    }
}

/// What can happen to a tunnel's liveness: an inbound packet, or a pass of
/// the idle-timeout sweep.
pub enum LivenessEvent {
    Packet { now: u64 },
    Sweep { now: u64, idle_timeout: u64 },
}

/// The state after one event, and the link command it issues: `Some(true)`
/// brings the interface up, `Some(false)` brings it down.
pub open spec fn step(s: TunnelState, e: LivenessEvent) -> (TunnelState, Option<bool>) {
    match e {
        LivenessEvent::Packet { now } => {
            let (t, up) = after_packet(s, now);
            (t, if up { Some(true) } else { None })
        },
        LivenessEvent::Sweep { now, idle_timeout } => {
            let (t, down) = after_timeout_check(s, now, idle_timeout);
            (t, if down { Some(false) } else { None })
        },
    }
}

/// The link commands issued, in order, by a run of events from state `s`.
pub open spec fn link_commands(s: TunnelState, events: Seq<LivenessEvent>) -> Seq<bool>
    decreases events.len(),
{
    if events.len() == 0 {
        Seq::empty()
    } else {
        let (t, c) = step(s, events[0]);
        let rest = link_commands(t, events.drop_first());
        match c {
            Some(up) => seq![up].add(rest),
            None => rest,
        }
    }
}

/// Neighbouring entries differ.
pub open spec fn alternates(c: Seq<bool>) -> bool {
    forall|k: int| 0 <= k < c.len() - 1 ==> #[trigger] c[k] != c[k + 1]
}

/// Link commands alternate: between two UP commands for a tunnel there is a
/// DOWN command and between two DOWN commands an UP command; the first one
/// issued from a down tunnel is UP, from an up tunnel DOWN.
pub proof fn lemma_link_commands_alternate(s: TunnelState, events: Seq<LivenessEvent>)
    ensures
        alternates(link_commands(s, events)),
        link_commands(s, events).len() > 0 ==> link_commands(s, events)[0] == (s is Down),
    decreases events.len(),
{
    if events.len() > 0 {
        let (t, c) = step(s, events[0]);
        lemma_link_commands_alternate(t, events.drop_first());
        let rest = link_commands(t, events.drop_first());
        match c {
            Some(up) => {
                let all = seq![up].add(rest);
                assert(all[0] == up);
                assert forall|k: int| 0 <= k < all.len() - 1 implies #[trigger] all[k] != all[k + 1] by {
                    if k > 0 {
                        assert(all[k] == rest[k - 1]);
                        assert(all[k + 1] == rest[k]);
                    } else {
                        assert(all[1] == rest[0]);
                    }
                }
            },
            None => {},
        }
    }
}

/// Two packets in a row, from a down tunnel, report `(true, false)`: the
/// first brings it up, the second finds it up.
pub proof fn lemma_two_packets(s: TunnelState, first: u64, second: u64)
    requires
        s is Down,
    ensures
        after_packet(s, first).1,
        !after_packet(after_packet(s, first).0, second).1,
        after_packet(after_packet(s, first).0, second).0 == (TunnelState::Up { last_packet: second }),
{
}

/// A tunnel whose last packet is more than `idle_timeout` old at the time of
/// a sweep goes down in that sweep, and so in any later sweep.
pub proof fn lemma_idle_tunnel_goes_down(last_packet: u64, sweep_at: u64, idle_timeout: u64)
    requires
        sweep_at > last_packet + idle_timeout,
    ensures
        forall|later: u64|
            later >= sweep_at ==> after_timeout_check(
                TunnelState::Up { last_packet },
                later,
                idle_timeout,
            ) == (TunnelState::Down, true),
{
}

} // verus!
