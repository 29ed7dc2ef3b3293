use vstd::prelude::*;

use crate::codec::{
    copy_tail, extract_tunnel_id, source_address, source_of, tail_from, tunnel_id_of,
    IPV4_HEADER_LEN, KEEPALIVE_LEN, PacketError,
};
use crate::state::{after_packet, after_timeout_check, TunnelState};

verus! {

/// Liveness of a tunnel bridged to a TAP device.
#[derive(Clone, Copy, Debug, PartialEq, Eq, Structural)]
pub struct TapTunnel {
    pub id: u16,
    pub state: TunnelState,
}

/// Liveness of a tunnel forwarded between two peers, with the peers'
/// IPv4 addresses (big-endian numbers) by which inbound packets are told
/// apart.
#[derive(Clone, Copy, Debug, PartialEq, Eq, Structural)]
pub struct FwdTunnel {
    pub id: u16,
    pub side_a_peer: u32,
    pub side_b_peer: u32,
    pub side_a: TunnelState,
    pub side_b: TunnelState,
}

/// One side of a forward tunnel.
#[derive(Clone, Copy, Debug, PartialEq, Eq, Structural)]
pub enum Side {
    A,
    B,
}

/// What to do with one inbound datagram.
#[derive(Debug)]
pub enum Dispatch {
    /// Too short to carry an EoIP header: dropped.
    Malformed,
    /// No tunnel has this id: dropped.
    UnknownTunnel { id: u16 },
    /// For the TAP tunnel at `index`. When `came_up`, its interface is
    /// brought up first; `frame` is written to its TAP device, and is `None`
    /// for a keepalive.
    Tap { id: u16, index: usize, came_up: bool, frame: Option<Vec<u8>> },
    /// For the forward tunnel at `index`, arriving from side `from`, which
    /// `came_up` or was up already; `packet` is sent through the socket of
    /// the other side.
    Forward { id: u16, index: usize, from: Side, came_up: bool, packet: Vec<u8> },
}

/// Liveness of every tunnel of the process. The first entry with an id is
/// the one that counts; TAP tunnels are looked up before forward tunnels.
pub struct LivenessTable {
    pub tap: Vec<TapTunnel>,
    pub fwd: Vec<FwdTunnel>,
}

/// What one sweep took down: per TAP tunnel, and per side of each forward
/// tunnel, in table order.
pub struct SweepReport {
    pub tap_down: Vec<bool>,
    pub fwd_down: Vec<(bool, bool)>,
}

pub open spec fn has_tap(t: Seq<TapTunnel>, id: u16) -> bool {
    exists|i: int| 0 <= i < t.len() && (#[trigger] t[i]).id == id
}

pub open spec fn is_first_tap(t: Seq<TapTunnel>, id: u16, i: int) -> bool {
    &&& 0 <= i < t.len()
    &&& t[i].id == id
    &&& forall|j: int| 0 <= j < i ==> (#[trigger] t[j]).id != id
}

pub open spec fn has_fwd(t: Seq<FwdTunnel>, id: u16) -> bool {
    exists|i: int| 0 <= i < t.len() && (#[trigger] t[i]).id == id
}

pub open spec fn is_first_fwd(t: Seq<FwdTunnel>, id: u16, i: int) -> bool {
    &&& 0 <= i < t.len()
    &&& t[i].id == id
    &&& forall|j: int| 0 <= j < i ==> (#[trigger] t[j]).id != id
}

/// The side a packet from `source` is attributed to: side A when it is side
/// A's peer, side B otherwise, unknown sources included.
pub open spec fn side_of(t: FwdTunnel, source: u32) -> Side {
    if source == t.side_a_peer {
        Side::A
    } else {
        Side::B
    }
}

/// A forward tunnel after a packet from `from` at `now`.
pub open spec fn fwd_after_packet(t: FwdTunnel, from: Side, now: u64) -> FwdTunnel {
    match from {
        Side::A => FwdTunnel { side_a: after_packet(t.side_a, now).0, ..t },
        Side::B => FwdTunnel { side_b: after_packet(t.side_b, now).0, ..t },
    }
}

/// Whether the side `from` of a forward tunnel was down.
pub open spec fn fwd_side_down(t: FwdTunnel, from: Side) -> bool {
    match from {
        Side::A => t.side_a is Down,
        Side::B => t.side_b is Down,
    }
}

/// A forward tunnel after a sweep at `now`.
pub open spec fn fwd_after_sweep(t: FwdTunnel, now: u64, idle_timeout: u64) -> FwdTunnel {
    FwdTunnel {
        side_a: after_timeout_check(t.side_a, now, idle_timeout).0,
        side_b: after_timeout_check(t.side_b, now, idle_timeout).0,
        ..t
    }
}

fn find_tap(t: &Vec<TapTunnel>, id: u16) -> (r: Option<usize>)
    ensures
        match r {
            Some(i) => is_first_tap(t@, id, i as int),
            None => !has_tap(t@, id),
        },
{
    let mut i: usize = 0;
    while i < t.len()
        invariant
            i <= t@.len(),
            forall|j: int| 0 <= j < i ==> (#[trigger] t@[j]).id != id,
        decreases t@.len() - i,
    {
        if t[i].id == id {
            return Some(i);
        }
        i = i + 1;
    }
    None
}

fn find_fwd(t: &Vec<FwdTunnel>, id: u16) -> (r: Option<usize>)
    ensures
        match r {
            Some(i) => is_first_fwd(t@, id, i as int),
            None => !has_fwd(t@, id),
        },
{
    let mut i: usize = 0;
    while i < t.len()
        invariant
            i <= t@.len(),
            forall|j: int| 0 <= j < i ==> (#[trigger] t@[j]).id != id,
        decreases t@.len() - i,
    {
        if t[i].id == id {
            return Some(i);
        }
        i = i + 1;
    }
    None
}

impl LivenessTable {
    /// A table without tunnels.
    pub fn new() -> (r: LivenessTable)
        ensures
            r.tap@.len() == 0,
            r.fwd@.len() == 0,
    {
        LivenessTable { tap: Vec::new(), fwd: Vec::new() }
    }

    /// The liveness of TAP tunnel `id`, if it is registered.
    pub fn tap_state(&self, id: u16) -> (r: Option<TunnelState>)
        ensures
            (r is Some) == has_tap(self.tap@, id),
            r is Some ==> exists|i: int|
                is_first_tap(self.tap@, id, i) && r == Some(self.tap@[i].state),
    {
        match find_tap(&self.tap, id) {
            Some(i) => Some(self.tap[i].state),
            None => None,
        }
    }

    /// The liveness of sides A and B of forward tunnel `id`, if it is
    /// registered.
    pub fn fwd_states(&self, id: u16) -> (r: Option<(TunnelState, TunnelState)>)
        ensures
            (r is Some) == has_fwd(self.fwd@, id),
            r is Some ==> exists|i: int|
                is_first_fwd(self.fwd@, id, i) && r == Some(
                    (self.fwd@[i].side_a, self.fwd@[i].side_b),
                ),
    {
        match find_fwd(&self.fwd, id) {
            Some(i) => Some((self.fwd[i].side_a, self.fwd[i].side_b)),
            None => None,
        }
    }

    /// Registers TAP tunnel `id`, down. A tunnel already registered under
    /// that id is reset to down instead.
    pub fn add_tap(&mut self, id: u16)
        ensures
            final(self).fwd@ == old(self).fwd@,
            has_tap(old(self).tap@, id) ==> exists|i: int|
                is_first_tap(old(self).tap@, id, i) && final(self).tap@ == old(self).tap@.update(
                    i,
                    TapTunnel { id, state: TunnelState::Down },
                ),
            !has_tap(old(self).tap@, id) ==> final(self).tap@ == old(self).tap@.push(
                TapTunnel { id, state: TunnelState::Down },
            ),
    {
        let entry = TapTunnel { id, state: TunnelState::Down };
        match find_tap(&self.tap, id) {
            Some(i) => self.tap.set(i, entry),
            None => self.tap.push(entry),
        }
    }

    /// Registers forward tunnel `id` between the peers `side_a_peer` and
    /// `side_b_peer`, both sides down. A tunnel already registered under that
    /// id is replaced.
    pub fn add_fwd(&mut self, id: u16, side_a_peer: u32, side_b_peer: u32)
        ensures
            final(self).tap@ == old(self).tap@,
            has_fwd(old(self).fwd@, id) ==> exists|i: int|
                is_first_fwd(old(self).fwd@, id, i) && final(self).fwd@ == old(self).fwd@.update(
                    i,
                    FwdTunnel {
                        id,
                        side_a_peer,
                        side_b_peer,
                        side_a: TunnelState::Down,
                        side_b: TunnelState::Down,
                    },
                ),
            !has_fwd(old(self).fwd@, id) ==> final(self).fwd@ == old(self).fwd@.push(
                FwdTunnel {
                    id,
                    side_a_peer,
                    side_b_peer,
                    side_a: TunnelState::Down,
                    side_b: TunnelState::Down,
                },
            ),
    {
        let entry = FwdTunnel {
            id,
            side_a_peer,
            side_b_peer,
            side_a: TunnelState::Down,
            side_b: TunnelState::Down,
        };
        match find_fwd(&self.fwd, id) {
            Some(i) => self.fwd.set(i, entry),
            None => self.fwd.push(entry),
        }
    }

    /// Walks every tunnel at time `now` and takes down each side whose last
    /// packet is more than `idle_timeout` milliseconds old.
    pub fn sweep(&mut self, now: u64, idle_timeout: u64) -> (r: SweepReport)
        ensures
            final(self).tap@.len() == old(self).tap@.len(),
            final(self).fwd@.len() == old(self).fwd@.len(),
            r.tap_down@.len() == old(self).tap@.len(),
            r.fwd_down@.len() == old(self).fwd@.len(),
            forall|i: int|
                0 <= i < old(self).tap@.len() ==> {
                    let t = #[trigger] old(self).tap@[i];
                    &&& final(self).tap@[i] == (TapTunnel {
                        id: t.id,
                        state: after_timeout_check(t.state, now, idle_timeout).0,
                    })
                    &&& r.tap_down@[i] == after_timeout_check(t.state, now, idle_timeout).1
                },
            forall|i: int|
                0 <= i < old(self).fwd@.len() ==> {
                    let t = #[trigger] old(self).fwd@[i];
                    &&& final(self).fwd@[i] == fwd_after_sweep(t, now, idle_timeout)
                    &&& r.fwd_down@[i] == (
                        after_timeout_check(t.side_a, now, idle_timeout).1,
                        after_timeout_check(t.side_b, now, idle_timeout).1,
                    )
                },
    {
        let ghost tap0 = self.tap@;
        let ghost fwd0 = self.fwd@;
        let mut tap_down: Vec<bool> = Vec::new();
        let mut i: usize = 0;
        while i < self.tap.len()
            invariant
                i <= self.tap@.len(),
                self.tap@.len() == tap0.len(),
                self.fwd@ == fwd0,
                tap_down@.len() == i,
                forall|j: int| i <= j < tap0.len() ==> self.tap@[j] == #[trigger] tap0[j],
                forall|j: int|
                    0 <= j < i ==> {
                        let t = #[trigger] tap0[j];
                        &&& self.tap@[j] == (TapTunnel {
                            id: t.id,
                            state: after_timeout_check(t.state, now, idle_timeout).0,
                        })
                        &&& tap_down@[j] == after_timeout_check(t.state, now, idle_timeout).1
                    },
            decreases tap0.len() - i,
        {
            let mut entry = self.tap[i];
            let down = entry.state.check_timeout(now, idle_timeout);
            self.tap.set(i, entry);
            tap_down.push(down);
            i = i + 1;
        }
        let mut fwd_down: Vec<(bool, bool)> = Vec::new();
        let mut k: usize = 0;
        while k < self.fwd.len()
            invariant
                k <= self.fwd@.len(),
                self.fwd@.len() == fwd0.len(),
                self.tap@.len() == tap0.len(),
                fwd_down@.len() == k,
                forall|j: int| k <= j < fwd0.len() ==> self.fwd@[j] == #[trigger] fwd0[j],
                forall|j: int|
                    0 <= j < k ==> {
                        let t = #[trigger] fwd0[j];
                        &&& self.fwd@[j] == fwd_after_sweep(t, now, idle_timeout)
                        &&& fwd_down@[j] == (
                            after_timeout_check(t.side_a, now, idle_timeout).1,
                            after_timeout_check(t.side_b, now, idle_timeout).1,
                        )
                    },
                forall|j: int|
                    0 <= j < tap0.len() ==> {
                        let t = #[trigger] tap0[j];
                        &&& self.tap@[j] == (TapTunnel {
                            id: t.id,
                            state: after_timeout_check(t.state, now, idle_timeout).0,
                        })
                        &&& tap_down@[j] == after_timeout_check(t.state, now, idle_timeout).1
                    },
            decreases fwd0.len() - k,
        {
            let mut entry = self.fwd[k];
            let down_a = entry.side_a.check_timeout(now, idle_timeout);
            let down_b = entry.side_b.check_timeout(now, idle_timeout);
            self.fwd.set(k, entry);
            fwd_down.push((down_a, down_b));
            k = k + 1;
        }
        SweepReport { tap_down, fwd_down }
    }

    /// Routes one inbound datagram and records it in the liveness of its
    /// tunnel at time `now`.
    pub fn dispatch(&mut self, datagram: &[u8], now: u64) -> (r: Dispatch)
        ensures
            ({
                let d = datagram@;
                let id = tunnel_id_of(d);
                let tap = old(self).tap@;
                let fwd = old(self).fwd@;
                &&& (r is Malformed) == (d.len() < KEEPALIVE_LEN)
                &&& (r is Tap) == (d.len() >= KEEPALIVE_LEN && has_tap(tap, id))
                &&& (r is Forward) == (d.len() >= KEEPALIVE_LEN && !has_tap(tap, id) && has_fwd(
                    fwd,
                    id,
                ))
                &&& (r is UnknownTunnel) == (d.len() >= KEEPALIVE_LEN && !has_tap(tap, id)
                    && !has_fwd(fwd, id))
                &&& match r {
                    Dispatch::Tap { id: rid, index, came_up, frame } => {
                        &&& rid == id
                        &&& is_first_tap(tap, id, index as int)
                        &&& came_up == after_packet(tap[index as int].state, now).1
                        &&& final(self).tap@ == tap.update(
                            index as int,
                            TapTunnel { id, state: after_packet(tap[index as int].state, now).0 },
                        )
                        &&& final(self).fwd@ == fwd
                        &&& (frame is None) == (d.len() == KEEPALIVE_LEN)
                        &&& frame is Some ==> frame->Some_0@ == tail_from(d, KEEPALIVE_LEN as int)
                    },
                    Dispatch::Forward { id: rid, index, from, came_up, packet } => {
                        &&& rid == id
                        &&& is_first_fwd(fwd, id, index as int)
                        &&& from == side_of(fwd[index as int], source_of(d))
                        &&& came_up == fwd_side_down(fwd[index as int], from)
                        &&& final(self).fwd@ == fwd.update(
                            index as int,
                            fwd_after_packet(fwd[index as int], from, now),
                        )
                        &&& final(self).tap@ == tap
                        &&& packet@ == tail_from(d, IPV4_HEADER_LEN as int)
                    },
                    Dispatch::UnknownTunnel { id: rid } => {
                        &&& rid == id
                        &&& final(self).tap@ == tap
                        &&& final(self).fwd@ == fwd
                    },
                    Dispatch::Malformed => {
                        &&& final(self).tap@ == tap
                        &&& final(self).fwd@ == fwd
                    },
                }
            }),
    {
        let id = match extract_tunnel_id(datagram) {
            Ok(id) => id,
            Err(PacketError::Malformed) => return Dispatch::Malformed,
        };
        if let Some(index) = find_tap(&self.tap, id) {
            let mut state = self.tap[index].state;
            let came_up = state.got_packet(now);
            self.tap.set(index, TapTunnel { id, state });
            let frame = if datagram.len() == KEEPALIVE_LEN {
                None
            } else {
                Some(copy_tail(datagram, KEEPALIVE_LEN))
            };
            return Dispatch::Tap { id, index, came_up, frame };
        }
        if let Some(index) = find_fwd(&self.fwd, id) {
            let mut entry = self.fwd[index];
            let source = source_address(datagram);
            let (from, came_up) = if source == entry.side_a_peer {
                let came_up = entry.side_a.got_packet(now);
                (Side::A, came_up)
            } else {
                let came_up = entry.side_b.got_packet(now);
                (Side::B, came_up)
            };
            self.fwd.set(index, entry);
            let packet = copy_tail(datagram, IPV4_HEADER_LEN);
            return Dispatch::Forward { id, index, from, came_up, packet };
        }
        Dispatch::UnknownTunnel { id }
    }
}

} // verus!
