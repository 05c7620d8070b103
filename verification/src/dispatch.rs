//! The inbound dispatcher: a stateless function from one decoded message to
//! the event it publishes and the reply it enqueues. The handshake reacts to
//! `version` and `verack` alone; any other message changes nothing.

use vstd::prelude::*;
use crate::codec::{cmd_of, command_string, verack_message, Message, MsgView};
use crate::decimal::{dec_rep, u32_to_decimal};
use crate::types::{Event, EventDirection};

verus! {

/// What dispatching one inbound message does: the event to hand the recorder,
/// if any, and the reply to enqueue for the writer, if any.
pub struct DispatchOutcome {
    pub event: Option<Event>,
    pub reply: Option<Message>,
}

/// Dispatch one decoded inbound message, stamped with the given time: on
/// `verack`, one IN event and no reply; on `version`, one IN event decorated
/// with the peer's protocol version and user-agent, and a `verack` reply; on
/// anything else, no event and no reply.
pub fn handle_message(message: &Message, time: u64) -> (r: DispatchOutcome)
    ensures
        message@ is Verack ==> (r.event matches Some(e) && e@.name == cmd_of(message@)
            && e@.direction == EventDirection::IN && e@.time == time && e@.data.len() == 0
            && r.reply is None),
        message@ matches MsgView::Version { version, user_agent, .. } ==> (
            r.event matches Some(e) && e@.name == cmd_of(message@)
            && e@.direction == EventDirection::IN && e@.time == time
            && e@.data == seq![("vers"@, dec_rep(version as nat)), ("user-agent"@, user_agent)]
            && (r.reply matches Some(rm) && rm@ == MsgView::Verack)),
        message@ is Other ==> r.event is None && r.reply is None,
{
    match message {
        Message::Verack => {
            let event = Event::new(command_string(message), EventDirection::IN, time);
            DispatchOutcome { event: Some(event), reply: None }
        }
        Message::Version { version, user_agent, .. } => {
            let mut event = Event::new(command_string(message), EventDirection::IN, time);
            event.set_pair(String::from_str("vers"), u32_to_decimal(*version));
            event.set_pair(String::from_str("user-agent"), user_agent.clone());
            proof {
                assert(event@.data =~= seq![
                    ("vers"@, dec_rep(*version as nat)),
                    ("user-agent"@, user_agent@),
                ]);
            }
            DispatchOutcome { event: Some(event), reply: Some(verack_message()) }
        }
        Message::Other { .. } => DispatchOutcome { event: None, reply: None },
    }
}

} // verus!
