use redistribution::peerlist::Peer;
use redistribution::{
    Block, Blockchain, ChainError, DecodedType, Decoder, DecoderError, Encoder, Message, Node,
    PeerList, ProtocolError, ProtocolMessage,
};

fn outbound_frame(message: &Message) -> Vec<u8> {
    let out = message.outbound.as_ref().unwrap();
    match &out.payload {
        DecodedType::Text(s) => Encoder::encode(out.command, out.peer_id, s).unwrap(),
        other => panic!("no scalar payload: {:?}", other),
    }
}

#[test]
fn bootstrap_assigns_next_id() {
    let mut a = Node::with_id(1, String::from("127.0.0.1:7878"));
    let b = Node::with_id(0, String::from("127.0.0.1:7879"));
    let mut add_me = b.add_me().unwrap();
    let reply = a.handle_message(&mut add_me).unwrap();
    assert!(reply.broadcast);
    assert!(reply.connect.is_none());
    assert!(a.peerlist.contains(2));
    assert_eq!(a.peerlist.peers().get(&2).unwrap(), "127.0.0.1:7879");

    let frame = outbound_frame(&reply);
    let decoder = Decoder::from_message(frame.clone()).unwrap();
    assert_eq!(decoder.peer_id(), 2);
    assert_eq!(Decoder::protocol(&frame), Ok(ProtocolMessage::AddedPeer));

    let mut b = b;
    let ack = b.handle_message(&frame).unwrap();
    assert!(!ack.broadcast && ack.outbound.is_none());
    assert_eq!(b.id, 2);
}

#[test]
fn new_ids_count_from_the_peer_list() {
    // the node's own identifier does not enter into it
    let mut a = Node::with_id(5, String::from("a"));
    let r = a
        .handle(ProtocolMessage::AddMe, 0, DecodedType::Text(String::from("b")))
        .unwrap();
    let out = r.outbound.unwrap();
    assert_eq!(out.command, ProtocolMessage::AddedPeer);
    assert_eq!(out.peer_id, 2);
    match out.payload {
        DecodedType::Text(s) => assert_eq!(s, "b"),
        other => panic!("unexpected {:?}", other),
    }
    let r = a
        .handle(ProtocolMessage::AddMe, 0, DecodedType::Text(String::from("c")))
        .unwrap();
    assert_eq!(r.outbound.unwrap().peer_id, 3);
    assert_eq!(a.peerlist.len(), 2);
    assert_eq!(a.id, 5);
}

#[test]
fn peer_update_is_merged_and_passed_on() {
    let mut c = Node::with_id(3, String::from("c"));
    let r = c
        .handle(ProtocolMessage::AddedPeer, 4, DecodedType::Text(String::from("d")))
        .unwrap();
    assert!(r.broadcast);
    assert_eq!(r.connect, Some(String::from("d")));
    let out = r.outbound.unwrap();
    assert_eq!(out.command, ProtocolMessage::AddedPeer);
    assert_eq!(out.peer_id, 4);
    assert!(c.peerlist.contains(4));
    assert_eq!(c.id, 3);
    // the same update again changes nothing
    let r = c
        .handle(ProtocolMessage::AddedPeer, 4, DecodedType::Text(String::from("d")))
        .unwrap();
    assert!(!r.broadcast && r.outbound.is_none() && r.connect.is_none());
    assert_eq!(c.peerlist.len(), 1);
}

#[test]
fn largest_id_taken_is_a_no_op() {
    let mut a = Node::with_id(u128::MAX, String::from("a"));
    let mut peers = PeerList::new();
    peers.insert(u128::MAX, String::from("x"));
    a.peerlist = peers;
    let r = a
        .handle(ProtocolMessage::AddMe, 0, DecodedType::Text(String::from("b")))
        .unwrap();
    assert!(!r.broadcast && r.outbound.is_none());
    assert_eq!(a.peerlist.len(), 1);
}

#[test]
fn get_peers_from_known_and_unknown() {
    let mut a = Node::with_id(1, String::from("a"));
    a.handle(ProtocolMessage::AddMe, 0, DecodedType::Text(String::from("b")))
        .unwrap();
    let known = Node::with_id(2, String::from("b"));
    let reply = a.handle_message(&known.get_peers().unwrap()).unwrap();
    assert!(!reply.broadcast);
    let out = reply.outbound.unwrap();
    assert_eq!(out.command, ProtocolMessage::PeerList);
    assert_eq!(out.peer_id, 1);
    match out.payload {
        DecodedType::PeerList(p) => {
            assert_eq!(p.len(), 1);
            assert!(p.contains(2));
        }
        other => panic!("unexpected {:?}", other),
    }

    let stranger = Node::with_id(9, String::from("z"));
    let r = a.handle_message(&stranger.get_peers().unwrap());
    assert_eq!(r.unwrap_err(), ProtocolError::UnrecognisedPeer);
}

#[test]
fn peer_list_snapshot_replaces() {
    let mut a = Node::with_id(1, String::from("a"));
    let p = PeerList::from_entries(vec![
        Peer { id: 4, address: String::from("d") },
        Peer { id: 5, address: String::from("e") },
    ])
    .unwrap();
    let r = a.handle(ProtocolMessage::PeerList, 2, DecodedType::PeerList(p)).unwrap();
    assert!(r.outbound.is_none());
    assert!(a.peerlist.contains(4) && a.peerlist.contains(5));
    assert!(PeerList::from_entries(vec![
        Peer { id: 4, address: String::from("d") },
        Peer { id: 4, address: String::from("e") },
    ])
    .is_none());
}

#[test]
fn get_blocks_answers_with_chain() {
    let mut a = Node::with_id(1, String::from("a"));
    let b = Node::with_id(2, String::from("b"));
    let reply = a.handle_message(&b.get_chain().unwrap()).unwrap();
    let out = reply.outbound.unwrap();
    assert_eq!(out.command, ProtocolMessage::SendBlockchain);
    match out.payload {
        DecodedType::Blockchain(c) => assert_eq!(c.len(), 1),
        other => panic!("unexpected {:?}", other),
    }
}

#[test]
fn send_blockchain_installs_only_linked_chains() {
    let mut a = Node::with_id(1, String::from("a"));
    let mut longer = Blockchain::new();
    let b1 = longer.generate_next_block("one").unwrap();
    longer.add_block(b1).unwrap();
    let r = a.handle(ProtocolMessage::SendBlockchain, 2, DecodedType::Blockchain(longer.clone()));
    assert!(r.is_ok());
    assert_eq!(a.blockchain.len(), 2);

    let mut blocks = longer.blocks().clone();
    blocks[1].previous_hash = String::from("ff");
    let broken = Blockchain::from_blocks(blocks).unwrap();
    let r = a.handle(ProtocolMessage::SendBlockchain, 2, DecodedType::Blockchain(broken));
    assert_eq!(r.unwrap_err(), ProtocolError::Chain(ChainError::InvalidChain));
    assert_eq!(a.blockchain.len(), 2);
}

#[test]
fn add_transaction_mines_appends_and_broadcasts() {
    let mut a = Node::with_id(1, String::from("a"));
    let b = Node::with_id(2, String::from("b"));
    let reply = a.handle_message(&b.send_transactions().unwrap()).unwrap();
    assert!(reply.broadcast);
    let out = reply.outbound.unwrap();
    assert_eq!(out.command, ProtocolMessage::NewBlock);
    assert_eq!(out.peer_id, 1);
    assert_eq!(a.blockchain.len(), 2);
    match out.payload {
        DecodedType::Block(block) => {
            assert_eq!(block.data, "hello");
            assert_eq!(block.index, 1);
            assert!(Blockchain::is_valid_new_block(&block, &a.blockchain.blocks()[0]));
        }
        other => panic!("unexpected {:?}", other),
    }
}

#[test]
fn new_block_appended_when_it_extends_the_tail() {
    let mut a = Node::with_id(1, String::from("a"));
    let block = a.blockchain.generate_next_block("n").unwrap();
    let r = a.handle(ProtocolMessage::NewBlock, 2, DecodedType::Block(block.clone()));
    assert!(r.unwrap().outbound.is_none());
    assert_eq!(a.blockchain.len(), 2);
    let r = a.handle(ProtocolMessage::NewBlock, 2, DecodedType::Block(block));
    assert_eq!(r.unwrap_err(), ProtocolError::Chain(ChainError::InvalidBlock));
    assert_eq!(a.blockchain.len(), 2);
}

#[test]
fn protocol_errors() {
    let mut a = Node::with_id(1, String::from("a"));
    assert_eq!(a.handle_message(&Vec::new()).unwrap_err(), ProtocolError::EmptyMessage);
    assert_eq!(
        a.handle_message(&b"0x01".to_vec()).unwrap_err(),
        ProtocolError::Codec(DecoderError::InvalidData)
    );
    let mut unknown = Encoder::encode_raw(ProtocolMessage::AddMe, 1, Vec::new()).unwrap();
    unknown[3] = b'0';
    assert_eq!(
        a.handle_message(&unknown).unwrap_err(),
        ProtocolError::Codec(DecoderError::UnknownCommand)
    );
    let structured = Encoder::encode_raw(ProtocolMessage::NewBlock, 1, b"{}".to_vec()).unwrap();
    assert_eq!(
        a.handle_message(&structured).unwrap_err(),
        ProtocolError::Codec(DecoderError::NoDecodeAvailable)
    );
    let r = a.handle(ProtocolMessage::GetBlocks, 1, DecodedType::BlockData(String::new()));
    assert_eq!(r.unwrap_err(), ProtocolError::WrongDecodedType);
    assert_eq!(
        a.handle_message(&b"0x".to_vec()).unwrap_err(),
        ProtocolError::Codec(DecoderError::UnknownCommand)
    );
    assert_eq!(
        a.handle_message(&b"0x09".to_vec()).unwrap_err(),
        ProtocolError::Codec(DecoderError::UnknownCommand)
    );
    assert_eq!(a.id, 1);
    let r = a.handle(ProtocolMessage::NewBlock, 1, DecodedType::Block(Block::genesis_block()));
    assert_eq!(r.unwrap_err(), ProtocolError::Chain(ChainError::InvalidBlock));
}

#[test]
fn node_id_from_address() {
    let n = Node::new(String::from("127.0.0.1:7878"));
    assert_eq!(n.id, 273077863738977179984275816217890769602);
    assert_eq!(PeerList::get_new_peer_id(b"127.0.0.1:7878"), n.id);
    assert_eq!(n.address, "127.0.0.1:7878");
}

#[test]
fn outbound_messages_are_framed() {
    let n = Node::with_id(5, String::from("addr"));
    let frame = n.add_me().unwrap();
    let d = Decoder::from_message(frame).unwrap();
    assert_eq!(d.peer_id(), 5);
    match d.decode_json().unwrap() {
        DecodedType::Text(s) => assert_eq!(s, "addr"),
        other => panic!("unexpected {:?}", other),
    }
    let frame = n.get_peers().unwrap();
    assert_eq!(Decoder::protocol(&frame), Ok(ProtocolMessage::GetPeers));
    let frame = n.get_chain().unwrap();
    assert_eq!(Decoder::protocol(&frame), Ok(ProtocolMessage::GetBlocks));
    let frame = n.send_transactions().unwrap();
    assert_eq!(Decoder::protocol(&frame), Ok(ProtocolMessage::AddTransaction));
}

#[test]
fn peer_list_tracks_its_highest_id() {
    let mut p = PeerList::new();
    assert_eq!(p.highest_id(), 0);
    assert!(p.insert(7, String::from("g")));
    assert!(p.insert(3, String::from("c")));
    assert!(!p.insert(7, String::from("x")));
    assert_eq!(p.highest_id(), 7);
    assert_eq!(p.len(), 2);
    assert_eq!(p.peers().get(&7).unwrap(), "g");
    let q = PeerList::from_entries(vec![
        Peer { id: 9, address: String::from("i") },
        Peer { id: 4, address: String::from("d") },
    ])
    .unwrap();
    assert_eq!(q.highest_id(), 9);
}

#[test]
fn malformed_text_payload_is_invalid_data() {
    let mut a = Node::with_id(1, String::from("a"));
    let frame = Encoder::encode_raw(ProtocolMessage::AddMe, 0, b"not json".to_vec()).unwrap();
    assert_eq!(
        a.handle_message(&frame).unwrap_err(),
        ProtocolError::Codec(DecoderError::InvalidData)
    );
    assert_eq!(a.peerlist.len(), 0);
}
