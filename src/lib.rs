//! A minimal peer-to-peer ledger node: a hash-linked chain of blocks with
//! proof of work, a framed wire codec, a peer list and the protocol state
//! machine that ties them together.
pub mod block;
pub mod blockchain;
pub mod bytes;
pub mod codec;
pub mod difficulty;
pub mod error;
pub mod findblock;
pub mod hasher;
pub mod hexstr;
pub mod node;
pub mod payload;
pub mod peerlist;
pub mod protocol_message;
pub mod timestamp;

pub use block::{Block, BlockData};
pub use blockchain::Blockchain;
pub use codec::{DecodedType, Decoder, Encoder, Headers};
pub use error::{ChainError, DecoderError, ProtocolError};
pub use node::{Message, Node, Outbound};
pub use payload::{Decodable, Encodable};
pub use peerlist::{Peer, PeerList};
pub use protocol_message::{Encoding, ProtocolMessage};
pub use timestamp::Timestamp;
