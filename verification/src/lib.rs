//! A single outbound peer-to-peer handshake (version/verack exchange) against
//! a remote node: the framing of inbound bytes into protocol messages, the
//! dispatch of decoded messages, the event chain that records the exchange and
//! detects completion, the one-shot shutdown signal that unifies the
//! termination paths, and the folding of every task's outcome into one result.

pub mod codec;
pub mod decimal;
pub mod dispatch;
pub mod framer;
pub mod outcome;
pub mod recorder;
pub mod shutdown;
pub mod types;
pub mod writer;
