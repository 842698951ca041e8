//! The wire frame: a 4-byte opcode, a 16-byte originator id, a 16-byte
//! payload length (all big-endian), the payload, and the end marker.
use vstd::prelude::*;
use vstd::slice::{slice_subrange, slice_to_vec};
use crate::block::{Block, BlockData};
use crate::blockchain::Blockchain;
use crate::bytes::{
    be_bytes, be_bytes_of, be_value, be_value_of, lemma_be_round_trip, lemma_pow256_16,
};
use crate::error::DecoderError;
use crate::payload::{text_json_ok, text_of_json, Decodable, Encodable};
use crate::peerlist::PeerList;
use crate::protocol_message::{
    command_of, end_marker, lemma_opcode_round_trip, opcode_of, Encoding, ProtocolMessage,
};

verus! {

/// Bytes before the payload.
pub const HEADER_LEN: usize = 36;

/// The sections of a frame's header, each known by where it starts.
#[derive(Clone, Copy, Debug, PartialEq, Eq, Structural)]
pub enum Headers {
    ProtocolType,
    PeerEncoding,
    MessageLength,
    Data,
}

impl Headers {
    pub open spec fn spec_offset(self) -> usize {
        match self {
            Headers::ProtocolType => 0,
            Headers::PeerEncoding => 4,
            Headers::MessageLength => 20,
            Headers::Data => 36,
        }
    }

    /// Where the section starts.
    pub fn offset(self) -> (r: usize)
        ensures
            r == self.spec_offset(),
    {
        match self {
            Headers::ProtocolType => 0,
            Headers::PeerEncoding => 4,
            Headers::MessageLength => 20,
            Headers::Data => 36,
        }
    }
}

/// The commands whose payload is JSON text, which this library decodes.
pub open spec fn carries_text(cmd: ProtocolMessage) -> bool {
    match cmd {
        ProtocolMessage::AddMe | ProtocolMessage::AddedPeer | ProtocolMessage::GetPeers
        | ProtocolMessage::GetBlocks | ProtocolMessage::AddTransaction => true,
        _ => false,
    }
}

/// The frame that carries `payload` for command `cmd` from peer `peer_id`.
pub open spec fn frame(cmd: ProtocolMessage, peer_id: u128, payload: Seq<u8>) -> Seq<u8> {
    opcode_of(cmd) + be_bytes(peer_id as nat, 16) + be_bytes(payload.len(), 16) + payload
        + end_marker()
}

/// The originator id that a frame declares.
pub open spec fn frame_peer_id(b: Seq<u8>) -> nat {
    be_value(b.subrange(4, 20))
}

/// The payload length that a frame declares.
pub open spec fn frame_length(b: Seq<u8>) -> nat {
    be_value(b.subrange(20, 36))
}

/// The frame holds a header and as many payload bytes as it declares.
pub open spec fn frame_complete(b: Seq<u8>) -> bool {
    b.len() >= 36 && 36 + frame_length(b) <= b.len()
}

/// The payload of a complete frame.
pub open spec fn frame_payload(b: Seq<u8>) -> Seq<u8> {
    b.subrange(36, 36 + frame_length(b) as int)
}

/// Decoding an encoded frame gives back its command, originator id and payload.
pub proof fn lemma_frame_round_trip(cmd: ProtocolMessage, peer_id: u128, payload: Seq<u8>)
    requires
        payload.len() <= u128::MAX,
    ensures
        command_of(frame(cmd, peer_id, payload).subrange(0, 4)) == Some(cmd),
        frame_peer_id(frame(cmd, peer_id, payload)) == peer_id,
        frame_length(frame(cmd, peer_id, payload)) == payload.len(),
        frame_complete(frame(cmd, peer_id, payload)),
        frame_payload(frame(cmd, peer_id, payload)) == payload,
{
    let b = frame(cmd, peer_id, payload);
    lemma_pow256_16();
    lemma_opcode_round_trip(cmd);
    lemma_be_round_trip(peer_id as nat, 16);
    lemma_be_round_trip(payload.len(), 16);
    assert(b.subrange(0, 4) =~= opcode_of(cmd));
    assert(b.subrange(4, 20) =~= be_bytes(peer_id as nat, 16));
    assert(b.subrange(20, 36) =~= be_bytes(payload.len(), 16));
    assert(b.subrange(36, 36 + payload.len() as int) =~= payload);
}

/// Appends bytes to a buffer.
fn append_bytes(out: &mut Vec<u8>, bytes: &[u8])
    ensures
        final(out)@ == old(out)@ + bytes@,
{
    let mut i: usize = 0;
    while i < bytes.len()
        invariant
            0 <= i <= bytes@.len(),
            out@ == old(out)@ + bytes@.subrange(0, i as int),
        decreases bytes@.len() - i,
    {
        out.push(bytes[i]);
        proof {
            assert(bytes@.subrange(0, i + 1) =~= bytes@.subrange(0, i as int).push(bytes@[i as int]));
        }
        i = i + 1;
    }
    proof {
        assert(bytes@.subrange(0, i as int) =~= bytes@);
    }
}

/// Builds frames.
pub struct Encoder {}

impl Encoder {
    /// The frame for raw payload bytes. A `usize` length always fits the
    /// 16-byte length field, so this never fails.
    pub fn encode_raw(protocol: ProtocolMessage, peer_id: u128, data: Vec<u8>) -> (r: Result<
        Vec<u8>,
        DecoderError,
    >)
        ensures
            r is Ok,
            r->Ok_0@ == frame(protocol, peer_id, data@),
    {
        let mut raw_encoded: Vec<u8> = Vec::new();
        let opcode = protocol.as_bytes();
        append_bytes(&mut raw_encoded, opcode.as_slice());
        let id_bytes = be_bytes_of(peer_id, 16);
        append_bytes(&mut raw_encoded, id_bytes.as_slice());
        let length_bytes = be_bytes_of(data.len() as u128, 16);
        append_bytes(&mut raw_encoded, length_bytes.as_slice());
        append_bytes(&mut raw_encoded, data.as_slice());
        let end = Encoding::EndMessage.as_bytes();
        append_bytes(&mut raw_encoded, end.as_slice());
        assert(raw_encoded@ =~= frame(protocol, peer_id, data@));
        Ok(raw_encoded)
    }

    /// The frame for a value's payload; fails with `InvalidData` when the
    /// value cannot be serialised.
    pub fn encode<T: Encodable>(protocol: ProtocolMessage, peer_id: u128, data: &T) -> (r: Result<
        Vec<u8>,
        DecoderError,
    >)
        ensures
            r is Ok <==> data.encodable(),
            r is Ok ==> r->Ok_0@ == frame(protocol, peer_id, data.payload()),
            r is Err ==> r->Err_0 == DecoderError::InvalidData,
    {
        let bytes = data.encode()?;
        Encoder::encode_raw(protocol, peer_id, bytes)
    }
}

/// A decoded payload.
#[derive(Debug)]
pub enum DecodedType {
    /// Text: a peer's address, or nothing.
    Text(String),
    /// The data of a transaction.
    BlockData(BlockData),
    /// A snapshot of a peer list.
    PeerList(PeerList),
    /// A snapshot of a chain.
    Blockchain(Blockchain),
    /// A mined block.
    Block(Block),
}

/// Reads a received frame whose command is known.
pub struct Decoder {
    raw_bytes: Vec<u8>,
    protocol: ProtocolMessage,
}

impl Decoder {
    /// The frame's bytes.
    pub closed spec fn bytes(&self) -> Seq<u8> {
        self.raw_bytes@
    }

    /// The frame's command.
    pub closed spec fn command(&self) -> ProtocolMessage {
        self.protocol
    }

    /// A decoder for a frame that holds at least a header.
    pub fn new(raw_bytes: Vec<u8>, protocol: ProtocolMessage) -> (r: Decoder)
        requires
            raw_bytes@.len() >= HEADER_LEN,
        ensures
            r.bytes() == raw_bytes@,
            r.command() == protocol,
    {
        Decoder { raw_bytes, protocol }
    }

    /// A decoder for a received frame. The opcode is read first: fails with
    /// `UnknownCommand` when the frame does not begin with an opcode, then
    /// with `InvalidData` when it is shorter than a header.
    pub fn from_message(raw_bytes: Vec<u8>) -> (r: Result<Decoder, DecoderError>)
        ensures
            raw_bytes@.len() < 4 ==> r == Err::<Decoder, DecoderError>(
                DecoderError::UnknownCommand,
            ),
            raw_bytes@.len() >= 4 ==> match command_of(raw_bytes@.subrange(0, 4)) {
                Some(c) => if raw_bytes@.len() < HEADER_LEN {
                    r == Err::<Decoder, DecoderError>(DecoderError::InvalidData)
                } else {
                    r is Ok && r->Ok_0.bytes() == raw_bytes@ && r->Ok_0.command() == c
                },
                None => r == Err::<Decoder, DecoderError>(DecoderError::UnknownCommand),
            },
    {
        let protocol = Decoder::protocol(raw_bytes.as_slice())?;
        if raw_bytes.len() < HEADER_LEN {
            return Err(DecoderError::InvalidData);
        }
        Ok(Decoder::new(raw_bytes, protocol))
    }

    /// The command of a frame's opcode. Fails with `UnknownCommand` when the
    /// frame does not begin with the opcode of a command.
    pub fn protocol(raw_bytes: &[u8]) -> (r: Result<ProtocolMessage, DecoderError>)
        ensures
            raw_bytes@.len() < 4 ==> r == Err::<ProtocolMessage, DecoderError>(
                DecoderError::UnknownCommand,
            ),
            raw_bytes@.len() >= 4 ==> r == match command_of(raw_bytes@.subrange(0, 4)) {
                Some(c) => Ok::<ProtocolMessage, DecoderError>(c),
                None => Err(DecoderError::UnknownCommand),
            },
    {
        if raw_bytes.len() < 4 {
            return Err(DecoderError::UnknownCommand);
        }
        ProtocolMessage::from_bytes(slice_subrange(raw_bytes, 0, 4))
    }

    /// The originator id in the header.
    pub fn peer_id(&self) -> (r: u128)
        requires
            self.bytes().len() >= HEADER_LEN,
        ensures
            r == frame_peer_id(self.bytes()),
    {
        let field = slice_subrange(
            self.raw_bytes.as_slice(),
            Headers::PeerEncoding.offset(),
            Headers::MessageLength.offset(),
        );
        assert(field@.subrange(0, 16) =~= field@);
        be_value_of(field, 16)
    }

    /// The payload length in the header.
    pub fn message_length(&self) -> (r: u128)
        requires
            self.bytes().len() >= HEADER_LEN,
        ensures
            r == frame_length(self.bytes()),
    {
        let field = slice_subrange(
            self.raw_bytes.as_slice(),
            Headers::MessageLength.offset(),
            Headers::Data.offset(),
        );
        assert(field@.subrange(0, 16) =~= field@);
        be_value_of(field, 16)
    }

    /// The payload bytes; `InvalidData` when the frame holds fewer than it declares.
    pub fn decode_raw(&self) -> (r: Result<Vec<u8>, DecoderError>)
        requires
            self.bytes().len() >= HEADER_LEN,
        ensures
            r is Ok <==> frame_complete(self.bytes()),
            r is Ok ==> r->Ok_0@ == frame_payload(self.bytes()),
            r is Err ==> r->Err_0 == DecoderError::InvalidData,
    {
        let length = self.message_length();
        let start = Headers::Data.offset();
        if length > (self.raw_bytes.len() - start) as u128 {
            return Err(DecoderError::InvalidData);
        }
        let end = start + length as usize;
        Ok(slice_to_vec(slice_subrange(self.raw_bytes.as_slice(), start, end)))
    }

    /// The payload as the value that the command carries: JSON text for
    /// `AddMe`, `AddedPeer`, `GetPeers` and `GetBlocks`, and the JSON text of
    /// the block data for `AddTransaction`. The structured payloads of the
    /// other commands have no decoder here (`NoDecodeAvailable`). Fails with
    /// `InvalidData` exactly when the payload is incomplete or is no JSON text.
    pub fn decode_json(&self) -> (r: Result<DecodedType, DecoderError>)
        requires
            self.bytes().len() >= HEADER_LEN,
        ensures
            carries_text(self.command()) ==> (r is Ok <==> frame_complete(self.bytes())
                && text_json_ok(frame_payload(self.bytes()))),
            carries_text(self.command()) && r is Ok ==> match r->Ok_0 {
                DecodedType::Text(s) => self.command() != ProtocolMessage::AddTransaction && s@
                    == text_of_json(frame_payload(self.bytes())),
                DecodedType::BlockData(s) => self.command() == ProtocolMessage::AddTransaction
                    && s@ == text_of_json(frame_payload(self.bytes())),
                _ => false,
            },
            carries_text(self.command()) && r is Err ==> r->Err_0 == DecoderError::InvalidData,
            !carries_text(self.command()) ==> r == Err::<DecodedType, DecoderError>(
                DecoderError::NoDecodeAvailable,
            ),
    {
        match self.protocol {
            ProtocolMessage::AddMe | ProtocolMessage::AddedPeer | ProtocolMessage::GetPeers
            | ProtocolMessage::GetBlocks => {
                let raw = self.decode_raw()?;
                let text = String::decode(&raw)?;
                Ok(DecodedType::Text(text))
            },
            ProtocolMessage::AddTransaction => {
                let raw = self.decode_raw()?;
                let data = String::decode(&raw)?;
                Ok(DecodedType::BlockData(data))
            },
            _ => Err(DecoderError::NoDecodeAvailable),
        }
    }
}

} // verus!
