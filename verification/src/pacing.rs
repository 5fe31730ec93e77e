//! Times and the pacing of outbound packets.
//!
//! A point in time is a count of nanoseconds on a clock that never runs
//! backwards; a span of time is a count of nanoseconds.

use vstd::prelude::*;

verus! {

/// The receive timeout of a socket that was given none: one second.
pub const DEFAULT_SOCKET_TIMEOUT: u64 = 1_000_000_000;

/// The receive timeout of a socket: the one asked for, or one second.
pub open spec fn socket_timeout_spec(requested: Option<u64>) -> u64 {
    match requested {
        Some(timeout) => timeout,
        None => DEFAULT_SOCKET_TIMEOUT,
    }
}

/// Chooses the receive timeout of a socket.
pub fn socket_timeout(requested: Option<u64>) -> (timeout: u64)
    ensures
        timeout == socket_timeout_spec(requested),
{
    match requested {
        Some(timeout) => timeout,
        None => DEFAULT_SOCKET_TIMEOUT,
    }
}

/// The receive timeout that a raw count of nanoseconds asks for: a count of
/// zero asks for none.
pub open spec fn requested_timeout_spec(nanoseconds: u64) -> Option<u64> {
    if nanoseconds == 0 {
        None
    } else {
        Some(nanoseconds)
    }
}

/// Reads a receive timeout from a raw count of nanoseconds.
pub fn requested_timeout(nanoseconds: u64) -> (requested: Option<u64>)
    ensures
        requested == requested_timeout_spec(nanoseconds),
{
    if nanoseconds == 0 {
        None
    } else {
        Some(nanoseconds)
    }
}

/// The time that has passed at `now` since `time`; nothing if `now` is not
/// later.
pub open spec fn elapsed(time: u64, now: u64) -> u64 {
    if now >= time {
        (now - time) as u64
    } else {
        0
    }
}

/// How long a packet taken from the queue at `now` has to wait before it is
/// sent, when the last send ended at `time` and sends are to be at least
/// `packet_time` apart: what is left of `packet_time`, if anything.
pub open spec fn pacing_delay_spec(packet_time: u64, time: u64, now: u64) -> u64 {
    if packet_time >= elapsed(time, now) {
        (packet_time - elapsed(time, now)) as u64
    } else {
        0
    }
}

/// Computes the wait before the next send.
pub fn pacing_delay(packet_time: u64, time: u64, now: u64) -> (delay: u64)
    ensures
        delay == pacing_delay_spec(packet_time, time, now),
{
    let passed: u64 = now.saturating_sub(time);
    packet_time.saturating_sub(passed)
}

/// A send that waits out its delay starts no sooner than `packet_time` after
/// the last one ended.
pub proof fn lemma_pacing_delay_spaces_sends(packet_time: u64, time: u64, now: u64)
    requires
        time <= now,
    ensures
        now + pacing_delay_spec(packet_time, time, now) >= time + packet_time,
{
}

/// The delay is the shortest wait that spaces the sends: a send after any
/// shorter wait would start too soon.
pub proof fn lemma_pacing_delay_is_least(packet_time: u64, time: u64, now: u64, wait: int)
    requires
        time <= now,
        0 <= wait < pacing_delay_spec(packet_time, time, now),
    ensures
        now + wait < time + packet_time,
{
}

/// After an idle period of at least `packet_time` a packet is sent at once.
pub proof fn lemma_no_delay_after_idle(packet_time: u64, time: u64, now: u64)
    requires
        now - time >= packet_time,
    ensures
        pacing_delay_spec(packet_time, time, now) == 0,
{
}

} // verus!
