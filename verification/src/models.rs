//! The ledger's data model: transactions, hash-linked blocks, and the
//! append-only chain.

use vstd::prelude::*;
use crate::codec::{is_hex_char, txs_view};
use crate::digest::{compute_block_hash, spec_block_hash};

verus! {

/// A transfer of some amount from a sender to a recipient. Immutable once
/// constructed; the node performs no validation of transaction semantics.
pub struct Transaction {
    pub sender: String,
    pub recipient: String,
    pub amount: u32,
}

/// The mathematical value of a `Transaction`.
#[verifier::ext_equal]
pub struct TransactionView {
    pub sender: Seq<char>,
    pub recipient: Seq<char>,
    pub amount: u32,
}

impl View for Transaction {
    type V = TransactionView;

    open spec fn view(&self) -> TransactionView {
        TransactionView {
            sender: self.sender@,
            recipient: self.recipient@,
            amount: self.amount,
        }
    }
}

impl Transaction {
    pub fn new(sender: String, recipient: String, amount: u32) -> (r: Transaction)
        ensures
            r@ == (TransactionView { sender: sender@, recipient: recipient@, amount }),
    {
        Transaction { sender, recipient, amount }
    }

    /// An independent copy with the same value.
    pub fn duplicate(&self) -> (r: Transaction)
        ensures
            r@ == self@,
    {
        Transaction {
            sender: self.sender.clone(),
            recipient: self.recipient.clone(),
            amount: self.amount,
        }
    }
}

/// Relies on std's `SystemTime::now` for the wall clock: seconds since the
/// Unix epoch, 0 if the clock reads earlier than the epoch. Nothing can be
/// promised of the clock's value.
#[verifier::external_body]
fn now_seconds() -> u64 {
    match std::time::SystemTime::now().duration_since(std::time::UNIX_EPOCH) {
        Ok(d) => d.as_secs(),
        Err(_) => 0,
    }
}

/// One block of the chain. Immutable after construction: the ledger never
/// mutates a block in place.
pub struct Block {
    pub timestamp: u64,
    pub transactions: Vec<Transaction>,
    pub previous_hash: String,
    pub hash: String,
}

/// The mathematical value of a `Block`.
#[verifier::ext_equal]
pub struct BlockView {
    pub timestamp: u64,
    pub transactions: Seq<TransactionView>,
    pub previous_hash: Seq<char>,
    pub hash: Seq<char>,
}

impl View for Block {
    type V = BlockView;

    open spec fn view(&self) -> BlockView {
        BlockView {
            timestamp: self.timestamp,
            transactions: txs_view(self.transactions@),
            previous_hash: self.previous_hash@,
            hash: self.hash@,
        }
    }
}

impl BlockView {
    /// Content addressing: the stored hash is the hash of the other fields.
    pub open spec fn wf(self) -> bool {
        self.hash == spec_block_hash(self.timestamp, self.transactions, self.previous_hash)
    }
}

impl Block {
    /// Build a block over the given transactions, linked to `previous_hash`,
    /// stamped with the current wall-clock time, and content-addressed by its
    /// own hash: a 64-character lowercase hex string.
    pub fn new(transactions: Vec<Transaction>, previous_hash: String) -> (r: Block)
        ensures
            r@.transactions == txs_view(transactions@),
            r@.previous_hash == previous_hash@,
            r@.wf(),
            r@.hash.len() == 64,
            forall|i: int| 0 <= i < r@.hash.len() ==> is_hex_char(#[trigger] r@.hash[i]),
    {
        let timestamp = now_seconds();
        let hash = compute_block_hash(timestamp, &transactions, &previous_hash);
        Block { timestamp, transactions, previous_hash, hash }
    }

    /// Recompute this block's hash from its stored `timestamp`,
    /// `transactions` and `previous_hash` (the stored `hash` plays no part):
    /// a 64-character lowercase hex string.
    pub fn calc_hash(&self) -> (r: String)
        ensures
            r@ == spec_block_hash(self@.timestamp, self@.transactions, self@.previous_hash),
            self@.wf() ==> r@ == self@.hash,
            r@.len() == 64,
            forall|i: int| 0 <= i < r@.len() ==> is_hex_char(#[trigger] r@[i]),
    {
        compute_block_hash(self.timestamp, &self.transactions, &self.previous_hash)
    }

    /// An independent copy with the same value.
    pub fn duplicate(&self) -> (r: Block)
        ensures
            r@ == self@,
    {
        let mut transactions: Vec<Transaction> = Vec::new();
        let n = self.transactions.len();
        let mut i: usize = 0;
        while i < n
            invariant
                i <= n,
                n == self.transactions@.len(),
                transactions@.len() == i,
                forall|j: int| 0 <= j < i ==> transactions@[j]@ == self.transactions@[j]@,
            decreases n - i,
        {
            transactions.push(self.transactions[i].duplicate());
            i = i + 1;
        }
        let r = Block {
            timestamp: self.timestamp,
            transactions,
            previous_hash: self.previous_hash.clone(),
            hash: self.hash.clone(),
        };
        assert(r@.transactions =~= self@.transactions);
        assert(r@ =~= self@);
        r
    }
}

/// The local chain: a non-empty, append-only sequence of hash-linked blocks,
/// whose first block is the genesis block.
pub struct Blockchain {
    pub chain: Vec<Block>,
}

/// The deep view of a sequence of blocks.
pub open spec fn chain_view(s: Seq<Block>) -> Seq<BlockView> {
    s.map_values(|b: Block| b@)
}

impl View for Blockchain {
    type V = Seq<BlockView>;

    open spec fn view(&self) -> Seq<BlockView> {
        chain_view(self.chain@)
    }
}

/// The sentinel previous-hash of the genesis block.
pub open spec fn genesis_previous_hash() -> Seq<char> {
    "0"@
}

/// Well-formedness of a chain: non-empty; the first block is a genesis block
/// (sentinel previous-hash, no transactions); every block is content-addressed
/// by its hash; and every block after the first links to the hash of the block
/// before it.
pub open spec fn wf_chain(c: Seq<BlockView>) -> bool {
    &&& c.len() > 0
    &&& c[0].previous_hash == genesis_previous_hash()
    &&& c[0].transactions.len() == 0
    &&& forall|i: int| 0 <= i < c.len() ==> (#[trigger] c[i]).wf()
    &&& forall|i: int| 0 < i < c.len() ==> (#[trigger] c[i]).previous_hash == c[i - 1].hash
}

impl Blockchain {
    /// A fresh ledger: exactly one block, the genesis block, with the
    /// sentinel previous-hash and no transactions.
    pub fn new() -> (r: Blockchain)
        ensures
            r@.len() == 1,
            r@[0].previous_hash == genesis_previous_hash(),
            r@[0].transactions.len() == 0,
            wf_chain(r@),
    {
        let genesis_block = Block::new(Vec::new(), String::from_str("0"));
        let mut chain: Vec<Block> = Vec::new();
        chain.push(genesis_block);
        let r = Blockchain { chain };
        assert(txs_view(Seq::<Transaction>::empty()) =~= Seq::<TransactionView>::empty());
        assert(r@.len() == 1);
        r
    }

    /// The hash of the tail block.
    pub fn last_hash(&self) -> (r: String)
        requires
            self@.len() > 0,
        ensures
            r@ == self@.last().hash,
    {
        self.chain[self.chain.len() - 1].hash.clone()
    }

    /// Append a new block built over the given transactions and linked to the
    /// current tail's hash. The blocks already in the chain are untouched.
    pub fn add_block(&mut self, transactions: Vec<Transaction>)
        requires
            old(self)@.len() > 0,
        ensures
            final(self)@.len() == old(self)@.len() + 1,
            final(self)@.take(old(self)@.len() as int) == old(self)@,
            final(self)@.last().previous_hash == old(self)@.last().hash,
            final(self)@.last().transactions == txs_view(transactions@),
            final(self)@.last().wf(),
            wf_chain(old(self)@) ==> wf_chain(final(self)@),
    {
        let prev_hash = self.last_hash();
        let block = Block::new(transactions, prev_hash);
        self.chain.push(block);
        proof {
            let oldc = chain_view(old(self).chain@);
            let newc = chain_view(self.chain@);
            assert(newc =~= oldc.push(self.chain@.last()@));
            assert(newc.take(oldc.len() as int) =~= oldc);
            if wf_chain(oldc) {
                assert forall|i: int| 0 < i < newc.len() implies
                    (#[trigger] newc[i]).previous_hash == newc[i - 1].hash by {}
                assert(wf_chain(newc));
            }
        }
    }

    /// An independent copy with the same value.
    pub fn duplicate(&self) -> (r: Blockchain)
        ensures
            r@ == self@,
    {
        let mut chain: Vec<Block> = Vec::new();
        let n = self.chain.len();
        let mut i: usize = 0;
        while i < n
            invariant
                i <= n,
                n == self.chain@.len(),
                chain@.len() == i,
                forall|j: int| 0 <= j < i ==> chain@[j]@ == self.chain@[j]@,
            decreases n - i,
        {
            chain.push(self.chain[i].duplicate());
            i = i + 1;
        }
        let r = Blockchain { chain };
        assert(r@ =~= self@);
        r
    }
}

/// Hash-link law: in a well-formed chain, every block after the first holds,
/// as its `previous_hash`, exactly the hash recomputed from the fields of the
/// block before it.
pub proof fn lemma_hash_link(c: Seq<BlockView>, i: int)
    requires
        wf_chain(c),
        0 < i < c.len(),
    ensures
        c[i].previous_hash == spec_block_hash(
            c[i - 1].timestamp,
            c[i - 1].transactions,
            c[i - 1].previous_hash,
        ),
{
}

/// Content-addressing law: recomputing a well-formed block's hash from its
/// stored fields reproduces the stored hash exactly.
pub proof fn lemma_content_addressing(b: BlockView)
    requires
        b.wf(),
    ensures
        spec_block_hash(b.timestamp, b.transactions, b.previous_hash) == b.hash,
{
}

} // verus!
