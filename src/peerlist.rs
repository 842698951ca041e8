//! The node's view of the other peers: identifier to network address.
use std::collections::HashMap;
use vstd::prelude::*;

verus! {

/// A known peer: its identifier and its network address.
#[derive(Debug)]
pub struct Peer {
    pub id: u128,
    pub address: String,
}

impl Clone for Peer {
    fn clone(&self) -> (r: Peer)
        ensures
            r == *self,
    {
        Peer { id: self.id, address: self.address.clone() }
    }
}

/// A peer with identifier `id` is known.
pub open spec fn has_id(peers: Map<u128, String>, id: u128) -> bool {
    peers.contains_key(id)
}

/// `k` is the highest identifier of a nonempty map.
pub open spec fn is_max_key(peers: Map<u128, String>, k: u128) -> bool {
    peers.contains_key(k) && forall|j: u128| #[trigger] peers.contains_key(j) ==> j <= k
}

/// The highest identifier among the peers; 0 when there is none.
pub open spec fn max_id(peers: Map<u128, String>) -> u128 {
    if exists|k: u128| #[trigger] is_max_key(peers, k) {
        choose|k: u128| #[trigger] is_max_key(peers, k)
    } else {
        0
    }
}

/// No two entries share an identifier.
pub open spec fn ids_unique(entries: Seq<Peer>) -> bool {
    forall|i: int, j: int|
        0 <= i < entries.len() && 0 <= j < entries.len() && i != j ==> #[trigger] entries[i].id
            != #[trigger] entries[j].id
}

/// The map that a sequence of entries gives, later entries last.
pub open spec fn entries_map(entries: Seq<Peer>) -> Map<u128, String>
    decreases entries.len(),
{
    if entries.len() == 0 {
        Map::empty()
    } else {
        entries_map(entries.drop_last()).insert(entries.last().id, entries.last().address)
    }
}

/// `highest` is the highest key of `peers`, or 0 when it has none.
pub open spec fn highest_is(peers: Map<u128, String>, highest: u128) -> bool {
    &&& forall|j: u128| #[trigger] peers.contains_key(j) ==> j <= highest
    &&& highest != 0 ==> peers.contains_key(highest)
}

proof fn lemma_highest_is_max(peers: Map<u128, String>, highest: u128)
    requires
        highest_is(peers, highest),
    ensures
        max_id(peers) == highest,
{
    if peers.contains_key(highest) {
        assert(is_max_key(peers, highest));
        let k = choose|k: u128| #[trigger] is_max_key(peers, k);
        assert(is_max_key(peers, k));
        assert(k <= highest && highest <= k);
    } else {
        assert(highest == 0);
        if exists|k: u128| #[trigger] is_max_key(peers, k) {
            let k = choose|k: u128| #[trigger] is_max_key(peers, k);
            assert(peers.contains_key(k));
            assert(k <= highest);
        }
    }
}

/// The SHA-1 name-based (version 5) UUID of a name in the OID namespace, as a number.
pub uninterp spec fn oid_uuid_v5(name: Seq<u8>) -> u128;

/// Known peers: identifier to network address.
#[derive(Debug)]
pub struct PeerList {
    peers: HashMap<u128, String>,
    highest: u128,
}

impl View for PeerList {
    type V = Map<u128, String>;

    closed spec fn view(&self) -> Map<u128, String> {
        self.peers@
    }
}

impl Clone for PeerList {
    fn clone(&self) -> (r: PeerList)
        ensures
            r@ == self@,
            self.wf() ==> r.wf(),
    {
        PeerList { peers: self.peers.clone(), highest: self.highest }
    }
}

impl PeerList {
    /// The list keeps track of its highest identifier.
    pub closed spec fn wf(&self) -> bool {
        highest_is(self.peers@, self.highest)
    }

    /// No peer.
    pub fn new() -> (r: PeerList)
        ensures
            r@ == Map::<u128, String>::empty(),
            r.wf(),
    {
        PeerList { peers: HashMap::new(), highest: 0 }
    }

    /// A list of the given entries; `None` when two share an identifier.
    pub fn from_entries(entries: Vec<Peer>) -> (r: Option<PeerList>)
        ensures
            r is Some <==> ids_unique(entries@),
            r is Some ==> r->Some_0@ == entries_map(entries@) && r->Some_0.wf(),
    {
        let n = entries.len();
        let mut list = PeerList::new();
        let mut i: usize = 0;
        while i < n
            invariant
                n == entries@.len(),
                0 <= i <= n,
                list.wf(),
                list@ == entries_map(entries@.subrange(0, i as int)),
                ids_unique(entries@.subrange(0, i as int)),
                forall|k: u128|
                    #[trigger] list@.contains_key(k) <==> exists|j: int|
                        0 <= j < i && #[trigger] entries@[j].id == k,
            decreases n - i,
        {
            let ghost prefix = entries@.subrange(0, i as int);
            let entry = entries[i].clone();
            let id = entry.id;
            if !list.insert(entry.id, entry.address) {
                proof {
                    let j = choose|j: int| 0 <= j < i && #[trigger] entries@[j].id == id;
                    assert(entries@[j].id == entries@[i as int].id);
                }
                return None;
            }
            proof {
                let next = entries@.subrange(0, i + 1);
                assert(next.drop_last() =~= prefix);
                assert(next.last() == entries@[i as int]);
                assert forall|a: int, b: int|
                    0 <= a < next.len() && 0 <= b < next.len() && a != b implies #[trigger] next[a].id
                    != #[trigger] next[b].id by {
                    if a < i && b < i {
                        assert(prefix[a] == next[a] && prefix[b] == next[b]);
                    }
                }
                assert forall|k: u128|
                    #[trigger] list@.contains_key(k) <==> exists|j: int|
                        0 <= j < i + 1 && #[trigger] entries@[j].id == k by {
                    if k == id {
                        assert(entries@[i as int].id == k);
                    }
                }
            }
            i = i + 1;
        }
        proof {
            assert(entries@.subrange(0, n as int) =~= entries@);
        }
        Some(list)
    }

    /// The peers by identifier.
    pub fn peers(&self) -> (r: &HashMap<u128, String>)
        ensures
            r@ == self@,
    {
        &self.peers
    }

    /// The number of peers.
    pub fn len(&self) -> (r: usize)
        ensures
            r == self@.len(),
    {
        self.peers.len()
    }

    /// Whether a peer has identifier `id`.
    pub fn contains(&self, id: u128) -> (r: bool)
        ensures
            r == has_id(self@, id),
    {
        broadcast use vstd::std_specs::hash::group_hash_axioms;

        self.peers.contains_key(&id)
    }

    /// The highest identifier; 0 when the list is empty.
    pub fn highest_id(&self) -> (r: u128)
        requires
            self.wf(),
        ensures
            r == max_id(self@),
    {
        proof {
            lemma_highest_is_max(self.peers@, self.highest);
        }
        self.highest
    }

    /// Adds a peer unless its identifier is taken; says whether it did.
    pub fn insert(&mut self, id: u128, address: String) -> (r: bool)
        ensures
            r == !has_id(old(self)@, id),
            r ==> final(self)@ == old(self)@.insert(id, address),
            !r ==> final(self)@ == old(self)@,
            old(self).wf() ==> final(self).wf(),
    {
        broadcast use vstd::std_specs::hash::group_hash_axioms;

        if self.contains(id) {
            return false;
        }
        self.peers.insert(id, address);
        if id > self.highest {
            self.highest = id;
        }
        true
    }

    /// The identifier that a peer's address gives: the version 5 UUID of the
    /// address in the OID namespace.
    pub fn get_new_peer_id(peer_addr: &[u8]) -> (r: u128)
        ensures
            r == oid_uuid_v5(peer_addr@),
    {
        uuid_v5_of(peer_addr)
    }
}

/// Relies on `uuid::Uuid::new_v5` in the OID namespace and `Uuid::as_u128`:
/// a name-based UUID, a function of the name.
#[verifier::external_body]
fn uuid_v5_of(name: &[u8]) -> (r: u128)
    ensures
        r == oid_uuid_v5(name@),
{
    uuid::Uuid::new_v5(&uuid::Uuid::NAMESPACE_OID, name).as_u128()
}

} // verus!
