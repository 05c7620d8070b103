use btc_handshake::codec::{verack_message, version_message, Message};
use btc_handshake::dispatch::handle_message;
use btc_handshake::framer::{end_outcome, feed_in_halves, wire_round_trip, FrameBuffer, FrameEnd};
use btc_handshake::types::EventDirection;
use btc_handshake::writer::prepare_outbound;

#[test]
fn version_round_trips_through_the_wire() {
    let msg = version_message("/btc-handshake:0.1/".to_string(), 1_700_000_123);
    let (back, left) = wire_round_trip(&msg);
    assert_eq!(left, 0);
    match back.expect("a whole encoding decodes back") {
        Message::Version { version, user_agent, timestamp } => {
            assert_eq!(version, 70001);
            assert_eq!(user_agent, "/btc-handshake:0.1/");
            assert_eq!(timestamp, 1_700_000_123);
        }
        _ => panic!("decoded back the wrong variant"),
    }
}

#[test]
fn verack_round_trips_through_the_wire() {
    let (back, left) = wire_round_trip(&verack_message());
    assert_eq!(left, 0);
    assert!(matches!(back, Some(Message::Verack)));
}

#[test]
fn half_a_frame_is_insufficient_and_the_rest_completes_it() {
    let msg = version_message("/btc-handshake:0.1/".to_string(), 42);
    let (first, second, left) = feed_in_halves(&msg);
    assert!(first.is_none());
    assert!(matches!(second, Some(Message::Version { .. })));
    assert_eq!(left, 0);
}

#[test]
fn framer_keeps_a_partial_frame_until_it_completes() {
    let (bytes, event) = prepare_outbound(&verack_message(), 8);
    assert_eq!(event.name(), "verack");
    assert!(matches!(event.direction(), EventDirection::OUT));
    assert_eq!(event.time(), 8);

    let mut framer = FrameBuffer::new();
    let half = bytes.len() / 2;
    framer.push_bytes(&bytes[..half].to_vec());
    assert!(framer.try_next().is_none());
    assert_eq!(framer.len(), half);

    framer.push_bytes(&bytes[half..].to_vec());
    assert!(matches!(framer.try_next(), Some(Message::Verack)));
    assert!(framer.is_empty());
}

#[test]
fn framer_parses_back_to_back_frames_in_order() {
    let (version_bytes, _) = prepare_outbound(&version_message("/a/".to_string(), 7), 0);
    let (verack_bytes, _) = prepare_outbound(&verack_message(), 1);
    let mut framer = FrameBuffer::new();
    let mut both = version_bytes.clone();
    both.extend_from_slice(&verack_bytes);
    framer.push_bytes(&both);
    assert!(matches!(framer.try_next(), Some(Message::Version { .. })));
    assert!(matches!(framer.try_next(), Some(Message::Verack)));
    assert!(framer.try_next().is_none());
    assert!(framer.is_empty());
}

#[test]
fn undecodable_bytes_are_held_as_insufficient() {
    let mut framer = FrameBuffer::new();
    framer.push_bytes(&vec![0xffu8; 30]);
    assert!(framer.try_next().is_none());
    assert_eq!(framer.len(), 30);
}

#[test]
fn closed_stream_on_empty_buffer_is_a_clean_end() {
    let framer = FrameBuffer::new();
    assert_eq!(framer.end_kind(), FrameEnd::CleanEof);
    assert!(end_outcome(framer.end_kind()).is_ok());
}

#[test]
fn closed_stream_with_buffered_bytes_is_a_reset() {
    let mut framer = FrameBuffer::new();
    framer.push_bytes(&vec![1u8, 2, 3]);
    assert_eq!(framer.end_kind(), FrameEnd::ResetMidFrame);
    let err = end_outcome(framer.end_kind()).err().unwrap();
    assert_eq!(err.message(), "connection reset by peer");
}

#[test]
fn peer_built_version_decodes_into_the_model() {
    // A version message as a real peer would build it, addresses and nonce
    // included: the framer reduces it to the fields the handshake reads.
    let receiver = bitcoin::p2p::Address {
        services: bitcoin::p2p::ServiceFlags::NETWORK,
        address: [0, 0, 0, 0, 0, 0xffff, 0x7f00, 1],
        port: 8333,
    };
    let sender = bitcoin::p2p::Address {
        services: bitcoin::p2p::ServiceFlags::NONE,
        address: [0u16; 8],
        port: 0,
    };
    let mut version = bitcoin::p2p::message_network::VersionMessage::new(
        bitcoin::p2p::ServiceFlags::NETWORK,
        1_700_000_777,
        receiver,
        sender,
        99,
        "/Satoshi:25.0.0/".to_string(),
        812_345,
    );
    version.version = 70015;
    let raw = bitcoin::p2p::message::RawNetworkMessage::new(
        bitcoin::Network::Bitcoin.magic(),
        bitcoin::p2p::message::NetworkMessage::Version(version),
    );
    let bytes = bitcoin::consensus::serialize(&raw);

    let mut framer = FrameBuffer::new();
    framer.push_bytes(&bytes);
    match framer.try_next().expect("a whole frame decodes") {
        Message::Version { version, user_agent, timestamp } => {
            assert_eq!(version, 70015);
            assert_eq!(user_agent, "/Satoshi:25.0.0/");
            assert_eq!(timestamp, 1_700_000_777);
        }
        _ => panic!("decoded the wrong variant"),
    }
    assert!(framer.is_empty());
}

#[test]
fn unrelated_wire_message_dispatches_to_nothing() {
    // Scenario: the peer sends a message type outside the handshake. It is
    // framed, named after its command, and dispatch records nothing for it.
    let raw = bitcoin::p2p::message::RawNetworkMessage::new(
        bitcoin::Network::Bitcoin.magic(),
        bitcoin::p2p::message::NetworkMessage::Ping(7),
    );
    let bytes = bitcoin::consensus::serialize(&raw);
    let mut framer = FrameBuffer::new();
    framer.push_bytes(&bytes);
    let msg = framer.try_next().expect("a whole frame decodes");
    match &msg {
        Message::Other { command } => assert_eq!(command, "ping"),
        _ => panic!("an unrelated message frames as Other"),
    }
    let out = handle_message(&msg, 3);
    assert!(out.event.is_none());
    assert!(out.reply.is_none());
}

#[test]
fn whole_exchange_completes_the_chain() {
    // The peer answers with version then verack in time: the four events of
    // the exchange, in causal order, complete the chain.
    let mut events = Vec::new();

    // The initial outbound version.
    let (_, out_version) = prepare_outbound(&version_message("/me/".to_string(), 1), 0);
    events.push(out_version);

    // The peer's version arrives and is dispatched: one IN event, one verack
    // reply.
    let peer_version = bitcoin::p2p::message::RawNetworkMessage::new(
        bitcoin::Network::Bitcoin.magic(),
        bitcoin::p2p::message::NetworkMessage::Version(
            bitcoin::p2p::message_network::VersionMessage::new(
                bitcoin::p2p::ServiceFlags::NONE,
                2,
                bitcoin::p2p::Address { services: bitcoin::p2p::ServiceFlags::NONE, address: [0; 8], port: 0 },
                bitcoin::p2p::Address { services: bitcoin::p2p::ServiceFlags::NONE, address: [0; 8], port: 0 },
                0,
                "/peer/".to_string(),
                0,
            ),
        ),
    );
    let mut framer = FrameBuffer::new();
    framer.push_bytes(&bitcoin::consensus::serialize(&peer_version));
    let inbound = framer.try_next().expect("the peer's version frames whole");
    let dispatched = handle_message(&inbound, 10);
    events.push(dispatched.event.expect("a version publishes an event"));
    let reply = dispatched.reply.expect("a version draws a verack reply");

    // The reply goes out.
    let (_, out_verack) = prepare_outbound(&reply, 11);
    events.push(out_verack);

    // The peer's verack arrives.
    let peer_verack = bitcoin::p2p::message::RawNetworkMessage::new(
        bitcoin::Network::Bitcoin.magic(),
        bitcoin::p2p::message::NetworkMessage::Verack,
    );
    framer.push_bytes(&bitcoin::consensus::serialize(&peer_verack));
    let inbound = framer.try_next().expect("the peer's verack frames whole");
    let dispatched = handle_message(&inbound, 20);
    events.push(dispatched.event.expect("a verack publishes an event"));
    assert!(dispatched.reply.is_none());

    let chain = btc_handshake::recorder::run_recorder("peer:8333".to_string(), events);
    assert!(chain.is_complete());
    assert_eq!(chain.len(), 4);
    assert_eq!(chain.get(0).unwrap().name(), "version");
    assert_eq!(chain.get(1).unwrap().name(), "version");
    assert_eq!(chain.get(2).unwrap().name(), "verack");
    assert_eq!(chain.get(3).unwrap().name(), "verack");
    assert_eq!(chain.elapsed_times(), vec![0, 10, 1, 9]);
}

#[test]
fn a_foreign_frame_between_handshake_frames_keeps_the_stream_in_step() {
    // A ping between the peer's version and verack: the framer consumes the
    // foreign frame whole and the handshake frames around it parse intact.
    let (version_bytes, _) = prepare_outbound(&version_message("/a/".to_string(), 7), 0);
    let ping = bitcoin::consensus::serialize(&bitcoin::p2p::message::RawNetworkMessage::new(
        bitcoin::Network::Bitcoin.magic(),
        bitcoin::p2p::message::NetworkMessage::Ping(7),
    ));
    let (verack_bytes, _) = prepare_outbound(&verack_message(), 1);

    let mut stream = version_bytes;
    stream.extend_from_slice(&ping);
    stream.extend_from_slice(&verack_bytes);

    let mut framer = FrameBuffer::new();
    framer.push_bytes(&stream);
    assert!(matches!(framer.try_next(), Some(Message::Version { .. })));
    match framer.try_next() {
        Some(Message::Other { command }) => assert_eq!(command, "ping"),
        _ => panic!("the foreign frame parses as Other"),
    }
    assert!(matches!(framer.try_next(), Some(Message::Verack)));
    assert!(framer.try_next().is_none());
    assert!(framer.is_empty());
}

#[test]
fn writer_bytes_match_the_reference_codec() {
    // What prepare_outbound hands the stream for a verack is byte for byte
    // the reference codec's encoding of one.
    let (bytes, _) = prepare_outbound(&verack_message(), 0);
    let raw = bitcoin::p2p::message::RawNetworkMessage::new(
        bitcoin::Network::Bitcoin.magic(),
        bitcoin::p2p::message::NetworkMessage::Verack,
    );
    assert_eq!(bytes, bitcoin::consensus::serialize(&raw));
}
