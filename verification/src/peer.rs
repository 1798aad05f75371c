//! Peer membership: a set of known peer addresses, and the node's own
//! identity paired with its chain.
//!
//! A peer is represented solely by its address. The registry is a set:
//! registration and removal are idempotent, and iteration order carries no
//! meaning. Concurrent access is the caller's concern; every operation here
//! acts on an exclusively borrowed registry.

use vstd::prelude::*;
use crate::models::Blockchain;

verus! {

/// The set of addresses a sequence of address strings stands for.
pub open spec fn addr_set(v: Seq<String>) -> Set<Seq<char>> {
    Set::new(|a: Seq<char>| exists|i: int| 0 <= i < v.len() && (#[trigger] v[i])@ == a)
}

/// The set of currently known peers, each a `host:port` address string.
pub struct PeerManager {
    pub peers: Vec<String>,
}

impl View for PeerManager {
    type V = Set<Seq<char>>;

    open spec fn view(&self) -> Set<Seq<char>> {
        addr_set(self.peers@)
    }
}

impl PeerManager {
    /// No two entries hold the same address.
    pub open spec fn wf(&self) -> bool {
        forall|i: int, j: int|
            0 <= i < j < self.peers@.len() ==> (#[trigger] self.peers@[i])@ != (#[trigger] self.peers@[j])@
    }

    /// Check at run time that no two entries hold the same address. Every
    /// operation here keeps that invariant, so on a registry only this
    /// library has touched the check returns true; it lets an unverified
    /// caller test the operations' precondition through the library.
    pub fn is_well_formed(&self) -> (r: bool)
        ensures
            r == self.wf(),
    {
        let n = self.peers.len();
        let mut i: usize = 0;
        while i < n
            invariant
                i <= n,
                n == self.peers@.len(),
                forall|p: int, q: int|
                    0 <= p < q < n && p < i ==> (#[trigger] self.peers@[p])@ != (
                    #[trigger] self.peers@[q])@,
            decreases n - i,
        {
            let mut j: usize = i + 1;
            while j < n
                invariant
                    i < j <= n,
                    n == self.peers@.len(),
                    forall|q: int| i < q < j ==> (#[trigger] self.peers@[q])@ != self.peers@[i as int]@,
                decreases n - j,
            {
                if self.peers[i] == self.peers[j] {
                    assert(!self.wf());
                    return false;
                }
                j = j + 1;
            }
            i = i + 1;
        }
        true
    }

    /// An empty registry.
    pub fn new() -> (r: PeerManager)
        ensures
            r@ == Set::<Seq<char>>::empty(),
            r.wf(),
    {
        let r = PeerManager { peers: Vec::new() };
        assert(r@ =~= Set::<Seq<char>>::empty());
        r
    }

    /// Idempotent insert: afterwards the set holds `address`, and nothing
    /// else has changed.
    pub fn register_peer(&mut self, address: String)
        requires
            old(self).wf(),
        ensures
            final(self).wf(),
            final(self)@ == old(self)@.insert(address@),
    {
        let n = self.peers.len();
        let mut i: usize = 0;
        while i < n
            invariant
                i <= n,
                n == self.peers@.len(),
                old(self).wf(),
                forall|j: int| 0 <= j < i ==> (#[trigger] self.peers@[j])@ != address@,
                *self == *old(self),
            decreases n - i,
        {
            if self.peers[i] == address {
                proof {
                    assert(old(self)@.contains(address@));
                    assert(self@ =~= old(self)@.insert(address@));
                }
                return;
            }
            i = i + 1;
        }
        self.peers.push(address);
        proof {
            let oldp = old(self).peers@;
            let newp = self.peers@;
            assert(newp =~= oldp.push(address));
            assert forall|a: Seq<char>| self@.contains(a) implies
                old(self)@.insert(address@).contains(a) by {
                let k = choose|k: int| 0 <= k < newp.len() && (#[trigger] newp[k])@ == a;
                if k < oldp.len() {
                    assert(oldp[k]@ == a);
                }
            }
            assert forall|a: Seq<char>| old(self)@.insert(address@).contains(a) implies
                self@.contains(a) by {
                if old(self)@.contains(a) {
                    let k = choose|k: int| 0 <= k < oldp.len() && (#[trigger] oldp[k])@ == a;
                    assert(newp[k]@ == a);
                } else {
                    assert(newp[newp.len() - 1]@ == a);
                }
            }
            assert(self@ =~= old(self)@.insert(address@));
        }
    }

    /// Idempotent delete: afterwards the set does not hold `address`; if it
    /// was absent, nothing changes and no failure arises.
    pub fn remove_peer(&mut self, address: &String)
        requires
            old(self).wf(),
        ensures
            final(self).wf(),
            final(self)@ == old(self)@.remove(address@),
    {
        let n = self.peers.len();
        let mut i: usize = 0;
        while i < n
            invariant
                i <= n,
                n == self.peers@.len(),
                old(self).wf(),
                forall|j: int| 0 <= j < i ==> (#[trigger] self.peers@[j])@ != address@,
                *self == *old(self),
            decreases n - i,
        {
            if self.peers[i] == *address {
                self.peers.remove(i);
                proof {
                    let oldp = old(self).peers@;
                    let newp = self.peers@;
                    assert(oldp[i as int]@ == address@);
                    assert(newp =~= oldp.subrange(0, i as int) + oldp.subrange(
                        i + 1 as int,
                        oldp.len() as int,
                    ));
                    assert forall|k: int| 0 <= k < newp.len() implies (#[trigger] newp[k]) == (
                    if k < i {
                        oldp[k]
                    } else {
                        oldp[k + 1]
                    }) by {}
                    assert forall|p: int, q: int| 0 <= p < q < newp.len() implies (
                    #[trigger] newp[p])@ != (#[trigger] newp[q])@ by {
                        let p0 = if p < i { p } else { p + 1 };
                        let q0 = if q < i { q } else { q + 1 };
                        assert(newp[p] == oldp[p0]);
                        assert(newp[q] == oldp[q0]);
                    }
                    assert(self.wf());
                    assert forall|a: Seq<char>| self@.contains(a) implies
                        old(self)@.remove(address@).contains(a) by {
                        let k = choose|k: int| 0 <= k < newp.len() && (#[trigger] newp[k])@ == a;
                        if k < i {
                            assert(oldp[k]@ == a);
                            assert(a != address@);
                        } else {
                            assert(oldp[k + 1]@ == a);
                            assert(oldp[k + 1]@ != oldp[i as int]@);
                            assert(a != address@);
                        }
                    }
                    assert forall|a: Seq<char>| old(self)@.remove(address@).contains(a) implies
                        self@.contains(a) by {
                        let k = choose|k: int| 0 <= k < oldp.len() && (#[trigger] oldp[k])@ == a;
                        if k < i {
                            assert(newp[k]@ == a);
                        } else {
                            assert(k != i);
                            assert(newp[k - 1]@ == a);
                        }
                    }
                    assert(self@ =~= old(self)@.remove(address@));
                }
                return;
            }
            i = i + 1;
        }
        proof {
            assert(!old(self)@.contains(address@));
            assert(self@ =~= old(self)@.remove(address@));
        }
    }

    /// A point-in-time copy of the member set: every known address once, in
    /// no particular order. The copy does not stay current.
    pub fn get_peers(&self) -> (r: Vec<String>)
        requires
            self.wf(),
        ensures
            addr_set(r@) == self@,
            forall|i: int, j: int| 0 <= i < j < r@.len() ==> (#[trigger] r@[i])@ != (#[trigger] r@[j])@,
            forall|i: int| 0 <= i < r@.len() ==> self@.contains((#[trigger] r@[i])@),
    {
        let n = self.peers.len();
        let mut r: Vec<String> = Vec::new();
        let mut i: usize = 0;
        while i < n
            invariant
                i <= n,
                n == self.peers@.len(),
                r@.len() == i,
                self.wf(),
                forall|j: int| 0 <= j < i ==> (#[trigger] r@[j])@ == self.peers@[j]@,
            decreases n - i,
        {
            r.push(self.peers[i].clone());
            i = i + 1;
        }
        proof {
            assert forall|k: int| 0 <= k < r@.len() implies self@.contains((#[trigger] r@[k])@) by {
                assert(self.peers@[k]@ == r@[k]@);
            }
            assert forall|a: Seq<char>| addr_set(r@).contains(a) implies self@.contains(a) by {
                let k = choose|k: int| 0 <= k < r@.len() && (#[trigger] r@[k])@ == a;
                assert(self.peers@[k]@ == a);
            }
            assert forall|a: Seq<char>| self@.contains(a) implies addr_set(r@).contains(a) by {
                let k = choose|k: int| 0 <= k < self.peers@.len() && (#[trigger] self.peers@[k])@
                    == a;
                assert(r@[k]@ == a);
            }
            assert(addr_set(r@) =~= self@);
        }
        r
    }
}

/// Registry idempotence law: registering an address twice leaves the set as
/// registering it once does, and removing an absent address is a no-op.
pub proof fn lemma_registry_idempotence(s: Set<Seq<char>>, x: Seq<char>)
    ensures
        s.insert(x).insert(x) == s.insert(x),
        !s.contains(x) ==> s.remove(x) == s,
{
    assert(s.insert(x).insert(x) =~= s.insert(x));
    if !s.contains(x) {
        assert(s.remove(x) =~= s);
    }
}

/// This node's identity on the network: its own address and its chain.
pub struct Peer {
    pub address: String,
    pub blockchain: Blockchain,
}

impl Peer {
    pub fn new(address: String, blockchain: Blockchain) -> (r: Peer)
        ensures
            r.address@ == address@,
            r.blockchain@ == blockchain@,
    {
        Peer { address, blockchain }
    }

    /// An independent copy of this node's chain.
    pub fn get_blockchain(&self) -> (r: Blockchain)
        ensures
            r@ == self.blockchain@,
    {
        self.blockchain.duplicate()
    }
}

} // verus!
