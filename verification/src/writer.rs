//! The outbound writer's per-message work: serialize a queued message to its
//! wire bytes and build the OUT event to publish once they are written. The
//! task that owns the stream's write half drains the queue with this.

use vstd::prelude::*;
use crate::codec::{cmd_of, command_string, encodable, encode_message, wire_bytes, Message};
use crate::types::{Event, EventDirection};

verus! {

/// For one queued outbound message: the bytes to write to the stream's write
/// half, whole, and the OUT event named after the message's command tag,
/// stamped with the given time.
pub fn prepare_outbound(m: &Message, time: u64) -> (r: (Vec<u8>, Event))
    requires
        encodable(m@),
    ensures
        r.0@ == wire_bytes(m@),
        r.1@.name == cmd_of(m@),
        r.1@.direction == EventDirection::OUT,
        r.1@.time == time,
        r.1@.data.len() == 0,
{
    let bytes = encode_message(m);
    let event = Event::new(command_string(m), EventDirection::OUT, time);
    (bytes, event)
}

} // verus!
