//! The eight protocol commands and their four-byte opcodes.
use vstd::prelude::*;
use crate::error::DecoderError;

verus! {

/// A protocol command.
#[derive(Clone, Copy, Debug, PartialEq, Eq, Structural)]
pub enum ProtocolMessage {
    AddMe,
    AddedPeer,
    GetPeers,
    NewBlock,
    GetBlocks,
    PeerList,
    AddTransaction,
    SendBlockchain,
}

/// The last byte of a command's opcode: the ASCII digit of its number.
pub open spec fn opcode_digit(cmd: ProtocolMessage) -> u8 {
    match cmd {
        ProtocolMessage::AddMe => 0x31,
        ProtocolMessage::GetPeers => 0x32,
        ProtocolMessage::NewBlock => 0x33,
        ProtocolMessage::GetBlocks => 0x34,
        ProtocolMessage::AddedPeer => 0x35,
        ProtocolMessage::PeerList => 0x36,
        ProtocolMessage::AddTransaction => 0x37,
        ProtocolMessage::SendBlockchain => 0x38,
    }
}

/// A command's opcode: the ASCII text "0x01" to "0x08".
pub open spec fn opcode_of(cmd: ProtocolMessage) -> Seq<u8> {
    seq![0x30u8, 0x78u8, 0x30u8, opcode_digit(cmd)]
}

/// The command whose opcode a byte sequence is, if any.
pub open spec fn command_of(b: Seq<u8>) -> Option<ProtocolMessage> {
    if b.len() != 4 || b[0] != 0x30 || b[1] != 0x78 || b[2] != 0x30 {
        None
    } else if b[3] == 0x31 {
        Some(ProtocolMessage::AddMe)
    } else if b[3] == 0x32 {
        Some(ProtocolMessage::GetPeers)
    } else if b[3] == 0x33 {
        Some(ProtocolMessage::NewBlock)
    } else if b[3] == 0x34 {
        Some(ProtocolMessage::GetBlocks)
    } else if b[3] == 0x35 {
        Some(ProtocolMessage::AddedPeer)
    } else if b[3] == 0x36 {
        Some(ProtocolMessage::PeerList)
    } else if b[3] == 0x37 {
        Some(ProtocolMessage::AddTransaction)
    } else if b[3] == 0x38 {
        Some(ProtocolMessage::SendBlockchain)
    } else {
        None
    }
}

/// Each opcode reads back as its own command.
pub proof fn lemma_opcode_round_trip(cmd: ProtocolMessage)
    ensures
        command_of(opcode_of(cmd)) == Some(cmd),
        opcode_of(cmd).len() == 4,
{
}

impl ProtocolMessage {
    /// The command's four-byte opcode.
    pub fn as_bytes(self) -> (r: [u8; 4])
        ensures
            r@ == opcode_of(self),
    {
        let digit: u8 = match self {
            ProtocolMessage::AddMe => 0x31,
            ProtocolMessage::GetPeers => 0x32,
            ProtocolMessage::NewBlock => 0x33,
            ProtocolMessage::GetBlocks => 0x34,
            ProtocolMessage::AddedPeer => 0x35,
            ProtocolMessage::PeerList => 0x36,
            ProtocolMessage::AddTransaction => 0x37,
            ProtocolMessage::SendBlockchain => 0x38,
        };
        let r = [0x30u8, 0x78u8, 0x30u8, digit];
        assert(r@ =~= opcode_of(self));
        r
    }

    /// The command of a four-byte opcode. Fails with `InvalidData` when the
    /// bytes are not four, and with `UnknownCommand` when they are no opcode.
    pub fn from_bytes(raw_bytes: &[u8]) -> (r: Result<ProtocolMessage, DecoderError>)
        ensures
            raw_bytes@.len() != 4 ==> r == Err::<ProtocolMessage, DecoderError>(
                DecoderError::InvalidData,
            ),
            raw_bytes@.len() == 4 ==> r == match command_of(raw_bytes@) {
                Some(c) => Ok::<ProtocolMessage, DecoderError>(c),
                None => Err(DecoderError::UnknownCommand),
            },
    {
        if raw_bytes.len() != 4 {
            return Err(DecoderError::InvalidData);
        }
        if raw_bytes[0] != 0x30 || raw_bytes[1] != 0x78 || raw_bytes[2] != 0x30 {
            return Err(DecoderError::UnknownCommand);
        }
        match raw_bytes[3] {
            0x31 => Ok(ProtocolMessage::AddMe),
            0x32 => Ok(ProtocolMessage::GetPeers),
            0x33 => Ok(ProtocolMessage::NewBlock),
            0x34 => Ok(ProtocolMessage::GetBlocks),
            0x35 => Ok(ProtocolMessage::AddedPeer),
            0x36 => Ok(ProtocolMessage::PeerList),
            0x37 => Ok(ProtocolMessage::AddTransaction),
            0x38 => Ok(ProtocolMessage::SendBlockchain),
            _ => Err(DecoderError::UnknownCommand),
        }
    }
}

/// Markers that frame a message.
#[derive(Clone, Copy, Debug, PartialEq, Eq, Structural)]
pub enum Encoding {
    /// Closes every message.
    EndMessage,
}

/// The end-of-message marker: the ASCII text "0x11".
pub open spec fn end_marker() -> Seq<u8> {
    seq![0x30u8, 0x78u8, 0x31u8, 0x31u8]
}

impl Encoding {
    /// The marker's bytes.
    pub fn as_bytes(self) -> (r: [u8; 4])
        ensures
            r@ == end_marker(),
    {
        let r = [0x30u8, 0x78u8, 0x31u8, 0x31u8];
        assert(r@ =~= end_marker());
        r
    }
}

} // verus!
