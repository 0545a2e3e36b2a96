//! The decisions of the capture loop: count packets and say when to stop.

use vstd::prelude::*;

verus! {

/// What reading the next packet from the capture gave.
#[derive(Clone, Copy, Debug, PartialEq, Eq)]
pub enum CaptureEvent {
    /// A packet arrived.
    Packet,
    /// The read timeout expired: no packet during the last interval.
    Timeout,
    /// The capture failed.
    Failure,
}

/// What the capture loop does next.
#[derive(Clone, Copy, Debug, PartialEq, Eq)]
pub enum CaptureAction {
    /// Wait for the next packet.
    Continue,
    /// Stop: the requested number of packets was captured.
    Finish,
    /// Stop with an error.
    Abort,
}

/// The packet count after `event`.
pub open spec fn seen_after(seen: nat, event: CaptureEvent) -> nat {
    match event {
        CaptureEvent::Packet => seen + 1,
        _ => seen,
    }
}

/// What follows `event` when `seen` packets were captured before it and the capture
/// stops after `limit` packets, if a limit is given.
pub open spec fn action_after(seen: nat, limit: Option<u64>, event: CaptureEvent) -> CaptureAction {
    match event {
        CaptureEvent::Packet => match limit {
            Some(max) => if seen + 1 >= max { CaptureAction::Finish } else { CaptureAction::Continue },
            None => CaptureAction::Continue,
        },
        CaptureEvent::Timeout => CaptureAction::Continue,
        CaptureEvent::Failure => CaptureAction::Abort,
    }
}

/// Whether another packet is read after `seen` were captured, with an optional limit.
pub open spec fn should_read_spec(seen: nat, limit: Option<u64>) -> bool {
    match limit {
        Some(max) => seen < max,
        None => true,
    }
}

/// Whether the capture reads another packet: only while fewer than `limit` packets
/// were captured, if a limit is given. With a limit of N it reads N packets, none
/// for a limit of zero.
pub fn should_read(seen: u64, limit: Option<u64>) -> (r: bool)
    ensures
        r == should_read_spec(seen as nat, limit),
{
    match limit {
        Some(max) => seen < max,
        None => true,
    }
}

/// One step of the capture loop: the new packet count and what to do next.
pub fn capture_step(seen: u64, limit: Option<u64>, event: CaptureEvent) -> (r: (u64, CaptureAction))
    requires
        event == CaptureEvent::Packet ==> seen < u64::MAX,
    ensures
        r.0 == seen_after(seen as nat, event),
        r.1 == action_after(seen as nat, limit, event),
{
    match event {
        CaptureEvent::Packet => {
            let seen = seen + 1;
            let done = match limit {
                Some(max) => seen >= max,
                None => false,
            };
            (seen, if done { CaptureAction::Finish } else { CaptureAction::Continue })
        },
        CaptureEvent::Timeout => (seen, CaptureAction::Continue),
        CaptureEvent::Failure => (seen, CaptureAction::Abort),
    }
}

} // verus!
