//! Hot-plug events and the lag-tolerant step of a subscriber's stream.

use vstd::prelude::*;

use crate::descriptor::UsbDevice;

verus! {

/// WebUSB event.
#[derive(Debug, Clone)]
#[non_exhaustive]
pub enum UsbEvent {
    /// USB device was connected.
    Connected(UsbDevice),
    /// USB device was disconnected.
    Disconnected(UsbDevice),
}

/// What one receive on a subscriber's broadcast receiver returned.
#[derive(Debug, Clone)]
pub enum Received {
    /// The next event.
    Event(UsbEvent),
    /// The subscriber fell behind and this many events were dropped for it.
    Lagged(u64),
    /// The channel is closed: every sender is gone.
    Closed,
}

/// What a subscriber's stream does with one reception.
#[derive(Debug, Clone)]
pub enum StreamStep {
    /// Hand the event to the consumer.
    Yield(UsbEvent),
    /// Receive again: a lag notice is swallowed.
    Retry,
    /// The stream ends.
    End,
}

/// The step for a reception.
pub open spec fn step_of(received: Received) -> StreamStep {
    match received {
        Received::Event(e) => StreamStep::Yield(e),
        Received::Lagged(_) => StreamStep::Retry,
        Received::Closed => StreamStep::End,
    }
}

/// The events that a stream hands out over a run of receptions, up to the
/// first one that ends it.
pub open spec fn delivered(rs: Seq<Received>) -> Seq<UsbEvent>
    decreases rs.len(),
{
    if rs.len() == 0 {
        Seq::empty()
    } else {
        match step_of(rs[0]) {
            StreamStep::Yield(e) => seq![e] + delivered(rs.drop_first()),
            StreamStep::Retry => delivered(rs.drop_first()),
            StreamStep::End => Seq::empty(),
        }
    }
}

/// Whether a run of receptions ends the stream.
pub open spec fn ends(rs: Seq<Received>) -> bool {
    exists|i: int| 0 <= i < rs.len() && #[trigger] step_of(rs[i]) is End
}

/// Decides what a subscriber's stream does with one reception: an event is
/// handed out, a lag notice is swallowed and the stream receives again, and
/// only a closed channel ends the stream.
pub fn next_step(received: Received) -> (r: StreamStep)
    ensures
        r == step_of(received),
{
    match received {
        Received::Event(e) => StreamStep::Yield(e),
        Received::Lagged(_) => StreamStep::Retry,
        Received::Closed => StreamStep::End,
    }
}

/// A lag never ends a subscriber's stream: over receptions that do not
/// include a closed channel, the stream delivers what came before the lag
/// followed by everything received after it.
pub proof fn lag_resumes_delivery(before: Seq<Received>, missed: u64, after: Seq<Received>)
    requires
        !ends(before),
    ensures
        delivered(before + seq![Received::Lagged(missed)] + after) == delivered(before) + delivered(
            after,
        ),
        !ends(before + seq![Received::Lagged(missed)] + after) <==> !ends(after),
    decreases before.len(),
{
    let all = before + seq![Received::Lagged(missed)] + after;
    if before.len() == 0 {
        assert(all == seq![Received::Lagged(missed)] + after);
        assert(all.drop_first() == after);
    } else {
        let rest = before.drop_first();
        assert(!ends(rest)) by {
            if ends(rest) {
                let i = choose|i: int| 0 <= i < rest.len() && #[trigger] step_of(rest[i]) is End;
                assert(before[i + 1] == rest[i]);
            }
        }
        lag_resumes_delivery(rest, missed, after);
        assert(all.drop_first() == rest + seq![Received::Lagged(missed)] + after);
        assert(all[0] == before[0]);
        assert(!(step_of(before[0]) is End));
        match step_of(before[0]) {
            StreamStep::Yield(e) => {
                assert(delivered(before) == seq![e] + delivered(rest));
            },
            _ => {},
        }
        assert(delivered(all) == delivered(before) + delivered(after)) by {
            match step_of(before[0]) {
                StreamStep::Yield(e) => {
                    assert(seq![e] + (delivered(rest) + delivered(after)) == (seq![e] + delivered(rest)) + delivered(after));
                },
                _ => {},
            }
        }
    }
    assert(ends(all) <==> ends(after)) by {
        if ends(after) {
            let i = choose|i: int| 0 <= i < after.len() && #[trigger] step_of(after[i]) is End;
            assert(all[before.len() + 1 + i] == after[i]);
        }
        if ends(all) {
            let i = choose|i: int| 0 <= i < all.len() && #[trigger] step_of(all[i]) is End;
            if i < before.len() {
                assert(all[i] == before[i]);
            } else if i > before.len() {
                assert(all[i] == after[i - before.len() - 1]);
            }
        }
    }
}

} // verus!
