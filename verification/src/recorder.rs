//! The event chain recorder: the single task that owns the chain, appends
//! every event it receives, and fires the shutdown signal the moment the
//! chain holds the number of events of a whole handshake.

use vstd::prelude::*;
use crate::types::{Event, EventChain, EventChainView, EventView};

verus! {

/// The number of events a whole handshake records: the outbound and inbound
/// `version`, the outbound and inbound `verack`. Only the count decides
/// completion, not the order.
pub const EXPECTED_HANDSHAKE_MESSAGES: usize = 4;

/// The recorder's invariant over the chain it owns: the completion flag is
/// set exactly when the expected count is reached, and the count never goes
/// past it.
pub open spec fn recorder_inv(c: EventChainView) -> bool {
    &&& c.complete == (c.events.len() == EXPECTED_HANDSHAKE_MESSAGES)
    &&& c.events.len() <= EXPECTED_HANDSHAKE_MESSAGES
}

/// One step of the recorder's loop: append the received event; on reaching
/// the expected count, mark the chain complete and report that the shutdown
/// signal is to be fired. The flag and the firing come together, once.
pub fn record_event(chain: &mut EventChain, event: Event) -> (fire: bool)
    requires
        recorder_inv(old(chain)@),
        !old(chain)@.complete,
    ensures
        recorder_inv(final(chain)@),
        final(chain)@.events == old(chain)@.events.push(event@),
        final(chain)@.id == old(chain)@.id,
        fire == final(chain)@.complete,
{
    chain.add(event);
    if chain.len() == EXPECTED_HANDSHAKE_MESSAGES {
        chain.mark_as_complete();
        true
    } else {
        false
    }
}

/// The chain a whole recorder run produces from the events that arrive, in
/// arrival order: the first four of them when at least four arrive, with the
/// completion flag set; all of them and no flag otherwise.
pub open spec fn recorder_chain(id: Seq<char>, arrivals: Seq<EventView>) -> EventChainView {
    if arrivals.len() >= EXPECTED_HANDSHAKE_MESSAGES {
        EventChainView {
            id,
            complete: true,
            events: arrivals.take(EXPECTED_HANDSHAKE_MESSAGES as int),
        }
    } else {
        EventChainView { id, complete: false, events: arrivals }
    }
}

/// The recorder task over one run: fold the events into a fresh chain in
/// arrival order, stopping the moment the chain completes. Whether the run
/// ends by completion, by timeout or by interrupt, the chain as recorded so
/// far is the task's output.
pub fn run_recorder(id: String, arrivals: Vec<Event>) -> (c: EventChain)
    ensures
        c@ == recorder_chain(id@, arrivals@.map_values(|e: Event| e@)),
{
    let ghost gid: Seq<char> = id@;
    let ghost all: Seq<EventView> = arrivals@.map_values(|e: Event| e@);
    let mut chain = EventChain::new(id);
    let mut rest = arrivals;
    while rest.len() > 0 && !chain.is_complete()
        invariant
            recorder_inv(chain@),
            chain@.id == gid,
            chain@.events.len() + rest@.len() == all.len(),
            forall|j: int| 0 <= j < chain@.events.len() ==> chain@.events[j] == all[j],
            forall|j: int| 0 <= j < rest@.len()
                ==> #[trigger] rest@[j]@ == all[chain@.events.len() + j],
        decreases rest@.len(),
    {
        let event = rest.remove(0);
        record_event(&mut chain, event);
    }
    proof {
        if chain@.complete {
            assert(chain@.events =~= all.take(EXPECTED_HANDSHAKE_MESSAGES as int));
        } else {
            assert(chain@.events =~= all);
        }
        assert(chain@ =~= recorder_chain(gid, all));
    }
    chain
}

/// Completion law: a recorder run marks its chain complete exactly when at
/// least four events arrive; a complete chain holds exactly the first four of
/// them, and an incomplete chain holds every event that arrived, in order.
pub proof fn lemma_recorder_completion(id: Seq<char>, arrivals: Seq<EventView>)
    ensures
        recorder_chain(id, arrivals).complete <==> arrivals.len() >= EXPECTED_HANDSHAKE_MESSAGES,
        recorder_chain(id, arrivals).complete
            ==> recorder_chain(id, arrivals).events.len() == EXPECTED_HANDSHAKE_MESSAGES,
        !recorder_chain(id, arrivals).complete ==> recorder_chain(id, arrivals).events == arrivals,
        forall|j: int| 0 <= j < recorder_chain(id, arrivals).events.len()
            ==> #[trigger] recorder_chain(id, arrivals).events[j] == arrivals[j],
{
}

} // verus!
