//! Block hashing: a cryptographic digest over the canonical encoding of a
//! block's fields, rendered as lowercase hex.
//!
//! The digest itself comes from the `sha2` crate and the hex rendering from
//! the `hex` crate; both calls stand behind trusted wrappers.

use vstd::prelude::*;
use crate::codec::{
    block_payload_enc,
    encode_block_payload,
    hex_of,
    is_hex_char,
    lemma_hex_of_form,
    txs_view,
};
use crate::models::{Transaction, TransactionView};

verus! {

/// The SHA-256 digest of the UTF-8 bytes of a character sequence. The digest
/// is a fixed function of its input alone; its value is not spelled out here.
pub uninterp spec fn sha256_of(data: Seq<char>) -> Seq<u8>;

/// Relies on sha2's `Sha256::digest`: the digest depends on the input bytes
/// alone and is exactly 32 bytes long.
#[verifier::external_body]
fn sha256_digest(data: &Vec<char>) -> (r: Vec<u8>)
    ensures
        r@ == sha256_of(data@),
        r@.len() == 32,
{
    let s: String = data.iter().collect();
    <sha2::Sha256 as sha2::Digest>::digest(s.as_bytes()).to_vec()
}

/// Relies on hex's `encode`: lowercase hex, two digits per byte, high nibble
/// first.
#[verifier::external_body]
fn hex_encode(bytes: &Vec<u8>) -> (r: String)
    ensures
        r@ == hex_of(bytes@),
{
    hex::encode(bytes)
}

/// The hash of a block's fields: lowercase hex of the SHA-256 digest of their
/// canonical encoding (with the hash field held empty).
pub open spec fn spec_block_hash(
    timestamp: u64,
    ts: Seq<TransactionView>,
    previous_hash: Seq<char>,
) -> Seq<char> {
    hex_of(sha256_of(block_payload_enc(timestamp, ts, previous_hash)))
}

/// Compute the hash of a block's fields: a 64-character lowercase hex string.
pub fn compute_block_hash(
    timestamp: u64,
    transactions: &Vec<Transaction>,
    previous_hash: &String,
) -> (r: String)
    ensures
        r@ == spec_block_hash(timestamp, txs_view(transactions@), previous_hash@),
        r@.len() == 64,
        forall|i: int| 0 <= i < r@.len() ==> is_hex_char(#[trigger] r@[i]),
{
    let payload = encode_block_payload(timestamp, transactions, previous_hash);
    let digest = sha256_digest(&payload);
    proof {
        lemma_hex_of_form(digest@);
    }
    hex_encode(&digest)
}

} // verus!
