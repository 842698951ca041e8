//! The protocol state machine: one node's chain and peer list, the messages
//! it sends, and what it does with each message it receives.
use vstd::prelude::*;
use vstd::utf8::encode_utf8;
use crate::blockchain::{accepts, is_genesis, linked, valid_successor, Blockchain};
use crate::codec::{
    carries_text, frame, frame_complete, frame_payload, frame_peer_id, DecodedType, Decoder, Encoder,
    HEADER_LEN,
};
use crate::error::{ChainError, DecoderError, ProtocolError};
use crate::payload::{json_of_text, text_json_ok, text_of_json};
use crate::peerlist::{has_id, max_id, oid_uuid_v5, PeerList};
use crate::protocol_message::{command_of, ProtocolMessage};

verus! {

/// A message to send: its command, the originator id it carries, and its payload.
#[derive(Debug)]
pub struct Outbound {
    pub command: ProtocolMessage,
    pub peer_id: u128,
    pub payload: DecodedType,
}

/// What the connection layer does after a message was handled: send
/// `outbound` to every open connection (`broadcast`) or back to the sender,
/// and open a connection to `connect`.
#[derive(Debug)]
pub struct Message {
    pub broadcast: bool,
    pub connect: Option<String>,
    pub outbound: Option<Outbound>,
}

/// A node: its identifier, chain, peer list and own address.
#[derive(Debug)]
pub struct Node {
    pub id: u128,
    pub blockchain: Blockchain,
    pub peerlist: PeerList,
    pub address: String,
}

/// Nothing to send and nowhere to connect.
pub open spec fn is_quiet(m: Message) -> bool {
    !m.broadcast && m.connect is None && m.outbound is None
}

/// The node's state is as it was.
pub open spec fn unchanged(pre: Node, post: Node) -> bool {
    &&& post.id == pre.id
    &&& post.blockchain@ == pre.blockchain@
    &&& post.peerlist@ == pre.peerlist@
    &&& post.address@ == pre.address@
}

/// The identifier that a joining peer gets: one above the highest
/// identifier in the peer list, counting from 1, so the first peer gets 2;
/// the largest identifier stays itself.
pub open spec fn next_peer_id(peers: Map<u128, String>) -> u128 {
    let m = if max_id(peers) > 1 {
        max_id(peers)
    } else {
        1
    };
    if m == u128::MAX {
        m
    } else {
        (m + 1) as u128
    }
}

/// A reply to the sender alone.
pub open spec fn is_reply(r: Result<Message, ProtocolError>, command: ProtocolMessage, id: u128) -> bool {
    &&& r is Ok
    &&& !r->Ok_0.broadcast
    &&& r->Ok_0.connect is None
    &&& r->Ok_0.outbound is Some
    &&& r->Ok_0.outbound->Some_0.command == command
    &&& r->Ok_0.outbound->Some_0.peer_id == id
}

/// What handling `payload` for `command` from `peer_id` does, taking the
/// node from `pre` to `post` with result `r`.
pub open spec fn handled(
    pre: Node,
    post: Node,
    command: ProtocolMessage,
    peer_id: u128,
    payload: DecodedType,
    r: Result<Message, ProtocolError>,
) -> bool {
    match (command, payload) {
        (ProtocolMessage::AddMe, DecodedType::Text(address)) => {
            let n = next_peer_id(pre.peerlist@);
            if has_id(pre.peerlist@, n) {
                r is Ok && is_quiet(r->Ok_0) && unchanged(pre, post)
            } else {
                &&& r is Ok
                &&& post.peerlist@ == pre.peerlist@.insert(n, address)
                &&& post.id == pre.id
                &&& post.blockchain@ == pre.blockchain@
                &&& post.address@ == pre.address@
                &&& r->Ok_0.broadcast
                &&& r->Ok_0.connect is None
                &&& r->Ok_0.outbound == Some(
                    Outbound {
                        command: ProtocolMessage::AddedPeer,
                        peer_id: n,
                        payload: DecodedType::Text(address),
                    },
                )
            }
        },
        (ProtocolMessage::AddedPeer, DecodedType::Text(address)) => {
            if address@ == pre.address@ {
                &&& r is Ok && is_quiet(r->Ok_0)
                &&& post.id == peer_id
                &&& post.blockchain@ == pre.blockchain@
                &&& post.peerlist@ == pre.peerlist@
                &&& post.address@ == pre.address@
            } else if has_id(pre.peerlist@, peer_id) {
                r is Ok && is_quiet(r->Ok_0) && unchanged(pre, post)
            } else {
                &&& r is Ok
                &&& post.peerlist@ == pre.peerlist@.insert(peer_id, address)
                &&& post.id == pre.id
                &&& post.blockchain@ == pre.blockchain@
                &&& post.address@ == pre.address@
                &&& r->Ok_0.broadcast
                &&& r->Ok_0.connect == Some(address)
                &&& r->Ok_0.outbound == Some(
                    Outbound {
                        command: ProtocolMessage::AddedPeer,
                        peer_id,
                        payload: DecodedType::Text(address),
                    },
                )
            }
        },
        (ProtocolMessage::GetPeers, DecodedType::Text(_)) => {
            &&& unchanged(pre, post)
            &&& if has_id(pre.peerlist@, peer_id) {
                &&& is_reply(r, ProtocolMessage::PeerList, pre.id)
                &&& match r->Ok_0.outbound->Some_0.payload {
                    DecodedType::PeerList(p) => p@ == pre.peerlist@,
                    _ => false,
                }
            } else {
                r == Err::<Message, ProtocolError>(ProtocolError::UnrecognisedPeer)
            }
        },
        (ProtocolMessage::PeerList, DecodedType::PeerList(p)) => {
            &&& r is Ok && is_quiet(r->Ok_0)
            &&& post.peerlist@ == p@
            &&& post.id == pre.id
            &&& post.blockchain@ == pre.blockchain@
            &&& post.address@ == pre.address@
        },
        (ProtocolMessage::GetBlocks, DecodedType::Text(_)) => {
            &&& unchanged(pre, post)
            &&& is_reply(r, ProtocolMessage::SendBlockchain, pre.id)
            &&& match r->Ok_0.outbound->Some_0.payload {
                DecodedType::Blockchain(c) => c@ == pre.blockchain@,
                _ => false,
            }
        },
        (ProtocolMessage::SendBlockchain, DecodedType::Blockchain(c)) => {
            if c@.len() > 0 && linked(c@) {
                &&& r is Ok && is_quiet(r->Ok_0)
                &&& post.blockchain@ == c@
                &&& post.id == pre.id
                &&& post.peerlist@ == pre.peerlist@
                &&& post.address@ == pre.address@
            } else {
                &&& r == Err::<Message, ProtocolError>(
                    ProtocolError::Chain(ChainError::InvalidChain),
                )
                &&& unchanged(pre, post)
            }
        },
        (ProtocolMessage::AddTransaction, DecodedType::BlockData(data)) => {
            &&& pre.blockchain@.len() == 0 ==> r == Err::<Message, ProtocolError>(
                ProtocolError::Chain(ChainError::NoTailBlock),
            )
            &&& r is Err ==> r->Err_0 is Chain && unchanged(pre, post)
            &&& r is Ok ==> {
                &&& r->Ok_0.broadcast
                &&& r->Ok_0.connect is None
                &&& r->Ok_0.outbound is Some
                &&& r->Ok_0.outbound->Some_0.command == ProtocolMessage::NewBlock
                &&& r->Ok_0.outbound->Some_0.peer_id == pre.id
                &&& match r->Ok_0.outbound->Some_0.payload {
                    DecodedType::Block(b) => {
                        &&& valid_successor(b, pre.blockchain@.last())
                        &&& b.data@ == data@
                        &&& post.blockchain@ == pre.blockchain@.push(b)
                    },
                    _ => false,
                }
                &&& post.id == pre.id
                &&& post.peerlist@ == pre.peerlist@
                &&& post.address@ == pre.address@
            }
        },
        (ProtocolMessage::NewBlock, DecodedType::Block(b)) => {
            if accepts(pre.blockchain@, b) {
                &&& r is Ok && is_quiet(r->Ok_0)
                &&& post.blockchain@ == pre.blockchain@.push(b)
                &&& post.id == pre.id
                &&& post.peerlist@ == pre.peerlist@
                &&& post.address@ == pre.address@
            } else {
                &&& r == Err::<Message, ProtocolError>(
                    ProtocolError::Chain(
                        if pre.blockchain@.len() == 0 {
                            ChainError::NoTailBlock
                        } else {
                            ChainError::InvalidBlock
                        },
                    ),
                )
                &&& unchanged(pre, post)
            }
        },
        _ => r == Err::<Message, ProtocolError>(ProtocolError::WrongDecodedType) && unchanged(
            pre,
            post,
        ),
    }
}

/// The frame begins with the opcode of a command.
pub open spec fn opcode_known(b: Seq<u8>) -> bool {
    b.len() >= 4 && command_of(b.subrange(0, 4)) is Some
}

/// The payload that the library's decoder reads from a frame for its command.
pub open spec fn decoded_payload(command: ProtocolMessage, b: Seq<u8>, p: DecodedType) -> bool {
    match (command, p) {
        (ProtocolMessage::AddMe, DecodedType::Text(s)) => s@ == text_of_json(frame_payload(b)),
        (ProtocolMessage::GetPeers, DecodedType::Text(s)) => s@ == text_of_json(frame_payload(b)),
        (ProtocolMessage::GetBlocks, DecodedType::Text(s)) => s@ == text_of_json(frame_payload(b)),
        (ProtocolMessage::AddTransaction, DecodedType::BlockData(s)) => s@ == text_of_json(
            frame_payload(b),
        ),
        (ProtocolMessage::AddedPeer, DecodedType::Text(s)) => s@ == text_of_json(frame_payload(b)),
        _ => false,
    }
}

fn quiet() -> (m: Message)
    ensures
        is_quiet(m),
{
    Message { broadcast: false, connect: None, outbound: None }
}

impl Node {
    /// A node at `address`, whose identifier is derived from the address, with
    /// a chain of the genesis block alone and no peer.
    pub fn new(address: String) -> (r: Node)
        ensures
            r.id == oid_uuid_v5(encode_utf8(address@)),
            r.address@ == address@,
            r.blockchain@.len() == 1,
            is_genesis(r.blockchain@[0]),
            r.peerlist@ == Map::<u128, String>::empty(),
            r.peerlist.wf(),
    {
        let id = PeerList::get_new_peer_id(address.as_str().as_bytes());
        Node::with_id(id, address)
    }

    /// A node with a given identifier at `address`, with a chain of the
    /// genesis block alone and no peer.
    pub fn with_id(id: u128, address: String) -> (r: Node)
        ensures
            r.id == id,
            r.address@ == address@,
            r.blockchain@.len() == 1,
            is_genesis(r.blockchain@[0]),
            r.peerlist@ == Map::<u128, String>::empty(),
            r.peerlist.wf(),
    {
        Node { id, blockchain: Blockchain::new(), peerlist: PeerList::new(), address }
    }

    /// Asks to join the network: `AddMe` carrying the node's address.
    pub fn add_me(&self) -> (r: Result<Vec<u8>, DecoderError>)
        ensures
            r is Ok,
            r->Ok_0@ == frame(ProtocolMessage::AddMe, self.id, json_of_text(self.address@)),
    {
        Encoder::encode(ProtocolMessage::AddMe, self.id, &self.address)
    }

    /// Asks for the peer list: `GetPeers` with an empty text.
    pub fn get_peers(&self) -> (r: Result<Vec<u8>, DecoderError>)
        ensures
            r is Ok,
            r->Ok_0@ == frame(
                ProtocolMessage::GetPeers,
                self.id,
                json_of_text(Seq::<char>::empty()),
            ),
    {
        Encoder::encode(ProtocolMessage::GetPeers, self.id, &String::new())
    }

    /// Offers a transaction: `AddTransaction` with placeholder data.
    pub fn send_transactions(&self) -> (r: Result<Vec<u8>, DecoderError>)
        ensures
            r is Ok,
            r->Ok_0@ == frame(
                ProtocolMessage::AddTransaction,
                self.id,
                json_of_text("hello"@),
            ),
    {
        let transaction = String::from_str("hello");
        Encoder::encode(ProtocolMessage::AddTransaction, self.id, &transaction)
    }

    /// Asks for the chain: `GetBlocks` with an empty text.
    pub fn get_chain(&self) -> (r: Result<Vec<u8>, DecoderError>)
        ensures
            r is Ok,
            r->Ok_0@ == frame(
                ProtocolMessage::GetBlocks,
                self.id,
                json_of_text(Seq::<char>::empty()),
            ),
    {
        Encoder::encode(ProtocolMessage::GetBlocks, self.id, &String::new())
    }

    /// Handles a decoded message: `command` with `payload` from `peer_id`.
    ///
    /// `AddMe` gives the sender the next free identifier and broadcasts it,
    /// with the sender's address, as `AddedPeer`; an `AddedPeer` for this
    /// node's own address sets its identifier, and one for another peer is
    /// merged into the peer list and, when new, passed on with a connection
    /// to that peer; `GetPeers` answers
    /// a known sender with the peer list; `PeerList` replaces it; `GetBlocks`
    /// answers with the chain; `SendBlockchain` installs a linked chain;
    /// `AddTransaction` mines, appends and broadcasts a block. A `NewBlock` is
    /// appended when it validly extends the tail and refused otherwise: the
    /// block is checked here rather than taken on trust. A payload of the
    /// wrong kind for its command is refused with `WrongDecodedType`.
    pub fn handle(&mut self, command: ProtocolMessage, peer_id: u128, payload: DecodedType) -> (r:
        Result<Message, ProtocolError>)
        requires
            old(self).peerlist.wf(),
            match payload {
                DecodedType::PeerList(p) => p.wf(),
                _ => true,
            },
        ensures
            handled(*old(self), *final(self), command, peer_id, payload, r),
            final(self).peerlist.wf(),
    {
        match (command, payload) {
            (ProtocolMessage::AddMe, DecodedType::Text(address)) => {
                let highest = self.peerlist.highest_id();
                let top = if highest > 1 {
                    highest
                } else {
                    1
                };
                let new_id = if top == u128::MAX {
                    top
                } else {
                    top + 1
                };
                let announced = address.clone();
                if self.peerlist.insert(new_id, address) {
                    Ok(
                        Message {
                            broadcast: true,
                            connect: None,
                            outbound: Some(
                                Outbound {
                                    command: ProtocolMessage::AddedPeer,
                                    peer_id: new_id,
                                    payload: DecodedType::Text(announced),
                                },
                            ),
                        },
                    )
                } else {
                    Ok(quiet())
                }
            },
            (ProtocolMessage::AddedPeer, DecodedType::Text(address)) => {
                if address == self.address {
                    self.id = peer_id;
                    return Ok(quiet());
                }
                let connect_to = address.clone();
                let announced = address.clone();
                if self.peerlist.insert(peer_id, address) {
                    Ok(
                        Message {
                            broadcast: true,
                            connect: Some(connect_to),
                            outbound: Some(
                                Outbound {
                                    command: ProtocolMessage::AddedPeer,
                                    peer_id,
                                    payload: DecodedType::Text(announced),
                                },
                            ),
                        },
                    )
                } else {
                    Ok(quiet())
                }
            },
            (ProtocolMessage::GetPeers, DecodedType::Text(_)) => {
                if self.peerlist.contains(peer_id) {
                    Ok(
                        Message {
                            broadcast: false,
                            connect: None,
                            outbound: Some(
                                Outbound {
                                    command: ProtocolMessage::PeerList,
                                    peer_id: self.id,
                                    payload: DecodedType::PeerList(self.peerlist.clone()),
                                },
                            ),
                        },
                    )
                } else {
                    Err(ProtocolError::UnrecognisedPeer)
                }
            },
            (ProtocolMessage::PeerList, DecodedType::PeerList(p)) => {
                self.peerlist = p;
                Ok(quiet())
            },
            (ProtocolMessage::GetBlocks, DecodedType::Text(_)) => {
                Ok(
                    Message {
                        broadcast: false,
                        connect: None,
                        outbound: Some(
                            Outbound {
                                command: ProtocolMessage::SendBlockchain,
                                peer_id: self.id,
                                payload: DecodedType::Blockchain(self.blockchain.clone()),
                            },
                        ),
                    },
                )
            },
            (ProtocolMessage::SendBlockchain, DecodedType::Blockchain(c)) => {
                if c.len() > 0 && Blockchain::is_chain_valid(&c) {
                    self.blockchain = c;
                    Ok(quiet())
                } else {
                    Err(ProtocolError::Chain(ChainError::InvalidChain))
                }
            },
            (ProtocolMessage::AddTransaction, DecodedType::BlockData(data)) => {
                let new_block = match self.blockchain.generate_next_block(data.as_str()) {
                    Ok(b) => b,
                    Err(e) => {
                        return Err(ProtocolError::Chain(e));
                    },
                };
                match self.blockchain.add_block(new_block.clone()) {
                    Ok(()) => {},
                    Err(e) => {
                        return Err(ProtocolError::Chain(e));
                    },
                }
                Ok(
                    Message {
                        broadcast: true,
                        connect: None,
                        outbound: Some(
                            Outbound {
                                command: ProtocolMessage::NewBlock,
                                peer_id: self.id,
                                payload: DecodedType::Block(new_block),
                            },
                        ),
                    },
                )
            },
            (ProtocolMessage::NewBlock, DecodedType::Block(b)) => {
                match self.blockchain.add_block(b) {
                    Ok(()) => Ok(quiet()),
                    Err(e) => Err(ProtocolError::Chain(e)),
                }
            },
            _ => Err(ProtocolError::WrongDecodedType),
        }
    }

    /// Handles a received frame. Fails with `EmptyMessage` on no bytes and
    /// passes on the codec's error when the frame cannot be read, leaving the
    /// node as it was: `UnknownCommand` when it does not begin with an
    /// opcode, then `InvalidData` when it is shorter than a header, shorter
    /// than it declares, or its payload is no JSON text. The payloads of
    /// `PeerList`, `SendBlockchain` and `NewBlock` have no decoder here
    /// (`NoDecodeAvailable`) and go to `handle` once decoded. Otherwise the
    /// frame's payload is handled as `handle` does.
    pub fn handle_message(&mut self, message: &Vec<u8>) -> (r: Result<Message, ProtocolError>)
        requires
            old(self).peerlist.wf(),
        ensures
            final(self).peerlist.wf(),
            message@.len() == 0 ==> r == Err::<Message, ProtocolError>(
                ProtocolError::EmptyMessage,
            ),
            0 < message@.len() && !opcode_known(message@) ==> r == Err::<Message, ProtocolError>(
                ProtocolError::Codec(DecoderError::UnknownCommand),
            ),
            opcode_known(message@) && message@.len() < HEADER_LEN ==> r == Err::<
                Message,
                ProtocolError,
            >(ProtocolError::Codec(DecoderError::InvalidData)),
            opcode_known(message@) && message@.len() >= HEADER_LEN && !carries_text(
                command_of(message@.subrange(0, 4))->Some_0,
            ) ==> r == Err::<Message, ProtocolError>(
                ProtocolError::Codec(DecoderError::NoDecodeAvailable),
            ),
            opcode_known(message@) && message@.len() >= HEADER_LEN && carries_text(
                command_of(message@.subrange(0, 4))->Some_0,
            ) ==> {
                &&& (r is Err && r->Err_0 is Codec) <==> !(frame_complete(message@)
                    && text_json_ok(frame_payload(message@)))
                &&& r is Err && r->Err_0 is Codec ==> r->Err_0 == ProtocolError::Codec(
                    DecoderError::InvalidData,
                )
            },
            r is Err && (r->Err_0 is Codec || r->Err_0 is EmptyMessage) ==> unchanged(
                *old(self),
                *final(self),
            ),
            !(r is Err && (r->Err_0 is Codec || r->Err_0 is EmptyMessage)) ==> {
                &&& message@.len() >= HEADER_LEN
                &&& frame_complete(message@)
                &&& command_of(message@.subrange(0, 4)) is Some
                &&& exists|p: DecodedType|
                    #[trigger] decoded_payload(
                        command_of(message@.subrange(0, 4))->Some_0,
                        message@,
                        p,
                    ) && handled(
                        *old(self),
                        *final(self),
                        command_of(message@.subrange(0, 4))->Some_0,
                        frame_peer_id(message@) as u128,
                        p,
                        r,
                    )
            },
    {
        if message.len() == 0 {
            return Err(ProtocolError::EmptyMessage);
        }
        let decoder = match Decoder::from_message(message.clone()) {
            Ok(d) => d,
            Err(e) => {
                return Err(ProtocolError::Codec(e));
            },
        };
        let payload = match decoder.decode_json() {
            Ok(p) => p,
            Err(e) => {
                return Err(ProtocolError::Codec(e));
            },
        };
        let command = match Decoder::protocol(message.as_slice()) {
            Ok(c) => c,
            Err(e) => {
                return Err(ProtocolError::Codec(e));
            },
        };
        let peer_id = decoder.peer_id();
        let ghost p = payload;
        let r = self.handle(command, peer_id, payload);
        assert(decoded_payload(command, message@, p));
        r
    }
}

} // verus!
