//! The protocol messages the handshake reacts to, and their wire form. The
//! wire encoding itself is the reference codec's work: this module names its
//! result and builds the two outbound handshake messages.

use vstd::prelude::*;

verus! {

/// The protocol version the outbound `version` message advertises.
pub const PROTOCOL_VERSION: u32 = 70001;

/// A decoded protocol message, reduced to what the handshake reads: the two
/// handshake payloads whole, and of any other message only its command tag.
pub enum Message {
    Version { version: u32, user_agent: String, timestamp: i64 },
    Verack,
    Other { command: String },
}

#[verifier::ext_equal]
pub enum MsgView {
    Version { version: u32, user_agent: Seq<char>, timestamp: i64 },
    Verack,
    Other { command: Seq<char> },
}

impl View for Message {
    type V = MsgView;

    open spec fn view(&self) -> MsgView {
        match self {
            Message::Version { version, user_agent, timestamp } => MsgView::Version {
                version: *version,
                user_agent: user_agent@,
                timestamp: *timestamp,
            },
            Message::Verack => MsgView::Verack,
            Message::Other { command } => MsgView::Other { command: command@ },
        }
    }
}

/// The command tag of a message.
pub open spec fn cmd_of(m: MsgView) -> Seq<char> {
    match m {
        MsgView::Version { .. } => "version"@,
        MsgView::Verack => "verack"@,
        MsgView::Other { command } => command,
    }
}

/// The command tag of a message, as the events are named after it.
pub fn command_string(m: &Message) -> (s: String)
    ensures
        s@ == cmd_of(m@),
{
    match m {
        Message::Version { .. } => String::from_str("version"),
        Message::Verack => String::from_str("verack"),
        Message::Other { command } => command.clone(),
    }
}

/// The longest user-agent a version message may carry, in characters. The
/// wire format bounds what one frame can hold, and the protocol itself caps
/// advertised user agents far below any such limit; this keeps every
/// encodable message within both the encoder's and the decoder's bounds.
pub const MAX_USER_AGENT_LEN: usize = 256;

/// Whether the writer may put a message on the wire: one of the two handshake
/// messages, with a user-agent inside the wire format's bounds.
pub open spec fn encodable(m: MsgView) -> bool {
    match m {
        MsgView::Version { user_agent, .. } => user_agent.len() <= MAX_USER_AGENT_LEN,
        MsgView::Verack => true,
        MsgView::Other { .. } => false,
    }
}

/// Whether the writer may put this message on the wire.
pub fn is_encodable(m: &Message) -> (b: bool)
    ensures
        b == encodable(m@),
{
    match m {
        Message::Version { user_agent, .. } => {
            user_agent.as_str().unicode_len() <= MAX_USER_AGENT_LEN
        }
        Message::Verack => true,
        Message::Other { .. } => false,
    }
}

/// The bytes the reference codec produces for a handshake message: its
/// complete consensus encoding, a function of the message alone.
pub uninterp spec fn wire_bytes(m: MsgView) -> Seq<u8>;

/// Relies on `bitcoin::consensus::serialize` of a `RawNetworkMessage` built
/// from the message's fields: the encoding is a function of those fields
/// alone, and it is never empty (every message carries its fixed header).
/// `RawNetworkMessage::new` panics on a payload over `u32::MAX` bytes, which
/// the bound on encodable user-agents leaves out by a wide margin.
#[verifier::external_body]
fn encode_to_wire(m: &Message) -> (r: Vec<u8>)
    requires
        encodable(m@),
    ensures
        r@ == wire_bytes(m@),
        r@.len() > 0,
{
    let zero = bitcoin::p2p::Address {
        services: bitcoin::p2p::ServiceFlags::NONE, address: [0u16; 8], port: 0 };
    let payload = match m {
        Message::Version { version, user_agent, timestamp } => {
            let mut v = bitcoin::p2p::message_network::VersionMessage::new(
                bitcoin::p2p::ServiceFlags::NONE, *timestamp, zero.clone(), zero,
                *timestamp as u64, user_agent.clone(), 0);
            v.version = *version;
            bitcoin::p2p::message::NetworkMessage::Version(v)
        }
        _ => bitcoin::p2p::message::NetworkMessage::Verack,
    };
    bitcoin::consensus::serialize(&bitcoin::p2p::message::RawNetworkMessage::new(
        bitcoin::Network::Bitcoin.magic(), payload))
}

/// Serialize one outbound handshake message to its wire bytes.
pub fn encode_message(m: &Message) -> (r: Vec<u8>)
    requires
        encodable(m@),
    ensures
        r@ == wire_bytes(m@),
        r@.len() > 0,
{
    encode_to_wire(m)
}

/// The reply to a peer's `version` message.
pub fn verack_message() -> (m: Message)
    ensures
        m@ == MsgView::Verack,
{
    Message::Verack
}

/// The initial outbound `version` message: it advertises this client's
/// user-agent and the given wall-clock timestamp.
pub fn version_message(user_agent: String, timestamp: i64) -> (m: Message)
    ensures
        m@ == (MsgView::Version { version: PROTOCOL_VERSION, user_agent: user_agent@, timestamp }),
{
    Message::Version { version: PROTOCOL_VERSION, user_agent, timestamp }
}

} // verus!
