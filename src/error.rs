//! Errors of the chain, the wire codec and the protocol.
use vstd::prelude::*;

verus! {

/// Why a block or a chain was refused, or could not be made.
#[derive(Clone, Copy, Debug, PartialEq, Eq, Structural)]
pub enum ChainError {
    /// The block does not extend the tail of the chain.
    InvalidBlock,
    /// A received chain is not linked.
    InvalidChain,
    /// The chain holds no block.
    NoTailBlock,
    /// A hash is not hexadecimal text.
    InvalidHash,
    /// The system clock stands before the Unix epoch.
    ClockUnavailable,
    /// No nonce gives a hash that meets the difficulty.
    NonceExhausted,
}

/// Why a frame could not be encoded or decoded.
#[derive(Clone, Copy, Debug, PartialEq, Eq, Structural)]
pub enum DecoderError {
    /// The opcode is none of the known commands.
    UnknownCommand,
    /// No payload decoder exists for the command.
    NoDecodeAvailable,
    /// The frame is shorter than it declares, or its payload is malformed.
    InvalidData,
}

/// Why the node refused an inbound message.
#[derive(Clone, Copy, Debug, PartialEq, Eq, Structural)]
pub enum ProtocolError {
    /// The message holds no byte.
    EmptyMessage,
    /// The sender is not in the peer list.
    UnrecognisedPeer,
    /// The payload's type does not fit the command.
    WrongDecodedType,
    /// The frame could not be decoded.
    Codec(DecoderError),
    /// The chain refused a block or a chain.
    Chain(ChainError),
}

} // verus!
