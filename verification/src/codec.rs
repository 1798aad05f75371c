//! Canonical encoding of ledger data.
//!
//! A block's hash is a digest over a canonical, JSON-shaped rendering of its
//! fields (with the `hash` field held empty). The rendering is defined here as
//! spec functions over sequences of characters, together with verified
//! encoders that produce exactly those sequences.

use vstd::prelude::*;
use crate::models::{Transaction, TransactionView};

verus! {

/// The decimal digit character for `d` (`d < 10`).
pub open spec fn digit_char(d: nat) -> char {
    if d == 0 {
        '0'
    } else if d == 1 {
        '1'
    } else if d == 2 {
        '2'
    } else if d == 3 {
        '3'
    } else if d == 4 {
        '4'
    } else if d == 5 {
        '5'
    } else if d == 6 {
        '6'
    } else if d == 7 {
        '7'
    } else if d == 8 {
        '8'
    } else {
        '9'
    }
}

/// The usual decimal rendering of `n`, without leading zeros (except for 0 itself).
pub open spec fn dec_of(n: nat) -> Seq<char>
    decreases n,
{
    if n < 10 {
        seq![digit_char(n)]
    } else {
        dec_of(n / 10).push(digit_char(n % 10))
    }
}

/// How one character is escaped inside a quoted string: quote and backslash
/// get a leading backslash, everything else stands as it is.
pub open spec fn esc_char(c: char) -> Seq<char> {
    if c == '"' {
        seq!['\\', '"']
    } else if c == '\\' {
        seq!['\\', '\\']
    } else {
        seq![c]
    }
}

/// Escape every character of `s`.
pub open spec fn esc_chars(s: Seq<char>) -> Seq<char>
    decreases s.len(),
{
    if s.len() == 0 {
        Seq::empty()
    } else {
        esc_chars(s.drop_last()) + esc_char(s.last())
    }
}

/// A quoted string: `"` + escaped contents + `"`.
pub open spec fn quoted(s: Seq<char>) -> Seq<char> {
    seq!['"'] + esc_chars(s) + seq!['"']
}

/// The canonical rendering of one transaction.
pub open spec fn transaction_enc(t: TransactionView) -> Seq<char> {
    "{\"sender\":"@ + quoted(t.sender) + ",\"recipient\":"@ + quoted(t.recipient)
        + ",\"amount\":"@ + dec_of(t.amount as nat) + "}"@
}

/// The comma-separated renderings of a sequence of transactions.
pub open spec fn transactions_body(ts: Seq<TransactionView>) -> Seq<char>
    decreases ts.len(),
{
    if ts.len() == 0 {
        Seq::empty()
    } else if ts.len() == 1 {
        transaction_enc(ts[0])
    } else {
        transactions_body(ts.drop_last()) + seq![','] + transaction_enc(ts.last())
    }
}

/// The deep view of a sequence of transactions.
pub open spec fn txs_view(ts: Seq<Transaction>) -> Seq<TransactionView> {
    ts.map_values(|t: Transaction| t@)
}

/// The canonical rendering of a block's hashed fields, with the hash field
/// held empty.
pub open spec fn block_payload_enc(
    timestamp: u64,
    ts: Seq<TransactionView>,
    previous_hash: Seq<char>,
) -> Seq<char> {
    "{\"timestamp\":"@ + dec_of(timestamp as nat) + ",\"transactions\":["@
        + transactions_body(ts) + "],\"previous_hash\":"@ + quoted(previous_hash)
        + ",\"hash\":\"\"}"@
}

/// The lowercase hex digit character for `d` (`d < 16`).
pub open spec fn hex_digit(d: nat) -> char {
    if d < 10 {
        digit_char(d)
    } else if d == 10 {
        'a'
    } else if d == 11 {
        'b'
    } else if d == 12 {
        'c'
    } else if d == 13 {
        'd'
    } else if d == 14 {
        'e'
    } else {
        'f'
    }
}

/// Lowercase hex rendering of a byte sequence: two digits per byte, high
/// nibble first.
pub open spec fn hex_of(bytes: Seq<u8>) -> Seq<char>
    decreases bytes.len(),
{
    if bytes.len() == 0 {
        Seq::empty()
    } else {
        hex_of(bytes.drop_last()) + seq![
            hex_digit((bytes.last() / 16) as nat),
            hex_digit((bytes.last() % 16) as nat),
        ]
    }
}

/// Whether `c` is a lowercase hex digit character.
pub open spec fn is_hex_char(c: char) -> bool {
    ||| c == '0'
    ||| c == '1'
    ||| c == '2'
    ||| c == '3'
    ||| c == '4'
    ||| c == '5'
    ||| c == '6'
    ||| c == '7'
    ||| c == '8'
    ||| c == '9'
    ||| c == 'a'
    ||| c == 'b'
    ||| c == 'c'
    ||| c == 'd'
    ||| c == 'e'
    ||| c == 'f'
}

/// The form of a hex rendering: two lowercase hex digit characters for each
/// byte.
pub proof fn lemma_hex_of_form(bytes: Seq<u8>)
    ensures
        hex_of(bytes).len() == 2 * bytes.len(),
        forall|i: int| 0 <= i < hex_of(bytes).len() ==> is_hex_char(#[trigger] hex_of(bytes)[i]),
    decreases bytes.len(),
{
    if bytes.len() > 0 {
        lemma_hex_of_form(bytes.drop_last());
    }
}

fn digit_char_exec(d: u64) -> (r: char)
    requires
        d < 10,
    ensures
        r == digit_char(d as nat),
{
    if d == 0 {
        '0'
    } else if d == 1 {
        '1'
    } else if d == 2 {
        '2'
    } else if d == 3 {
        '3'
    } else if d == 4 {
        '4'
    } else if d == 5 {
        '5'
    } else if d == 6 {
        '6'
    } else if d == 7 {
        '7'
    } else if d == 8 {
        '8'
    } else {
        '9'
    }
}

/// Append the decimal rendering of `n` to `out`.
fn push_dec(out: &mut Vec<char>, n: u64)
    ensures
        final(out)@ == old(out)@ + dec_of(n as nat),
    decreases n,
{
    if n < 10 {
        out.push(digit_char_exec(n));
        assert(out@ =~= old(out)@ + dec_of(n as nat));
    } else {
        push_dec(out, n / 10);
        out.push(digit_char_exec(n % 10));
        assert(out@ =~= old(out)@ + dec_of(n as nat));
    }
}

/// Append every character of `s` to `out`, unchanged.
fn push_str_chars(out: &mut Vec<char>, s: &str)
    ensures
        final(out)@ == old(out)@ + s@,
{
    let n = s.unicode_len();
    let mut i: usize = 0;
    while i < n
        invariant
            i <= n,
            n == s@.len(),
            out@ == old(out)@ + s@.take(i as int),
        decreases n - i,
    {
        out.push(s.get_char(i));
        proof {
            assert(s@.take(i + 1 as int) =~= s@.take(i as int).push(s@[i as int]));
        }
        i = i + 1;
    }
    assert(s@.take(n as int) =~= s@);
}

/// Append the escaped characters of `s` to `out`.
fn push_escaped(out: &mut Vec<char>, s: &str)
    ensures
        final(out)@ == old(out)@ + esc_chars(s@),
{
    let n = s.unicode_len();
    let mut i: usize = 0;
    while i < n
        invariant
            i <= n,
            n == s@.len(),
            out@ == old(out)@ + esc_chars(s@.take(i as int)),
        decreases n - i,
    {
        let c = s.get_char(i);
        if c == '"' {
            out.push('\\');
            out.push('"');
        } else if c == '\\' {
            out.push('\\');
            out.push('\\');
        } else {
            out.push(c);
        }
        proof {
            let pre = s@.take(i as int);
            assert(s@.take(i + 1 as int).drop_last() =~= pre);
            assert(s@.take(i + 1 as int).last() == s@[i as int]);
            assert(esc_chars(s@.take(i + 1 as int)) == esc_chars(pre) + esc_char(s@[i as int]));
            assert(out@ =~= old(out)@ + esc_chars(s@.take(i + 1 as int)));
        }
        i = i + 1;
    }
    assert(s@.take(n as int) =~= s@);
}

/// Append the quoted, escaped rendering of `s` to `out`.
fn push_quoted(out: &mut Vec<char>, s: &str)
    ensures
        final(out)@ == old(out)@ + quoted(s@),
{
    out.push('"');
    push_escaped(out, s);
    out.push('"');
    assert(out@ =~= old(out)@ + quoted(s@));
}

/// Append the canonical rendering of one transaction to `out`.
fn push_transaction(out: &mut Vec<char>, t: &Transaction)
    ensures
        final(out)@ == old(out)@ + transaction_enc(t@),
{
    push_str_chars(out, "{\"sender\":");
    push_quoted(out, t.sender.as_str());
    push_str_chars(out, ",\"recipient\":");
    push_quoted(out, t.recipient.as_str());
    push_str_chars(out, ",\"amount\":");
    push_dec(out, t.amount as u64);
    push_str_chars(out, "}");
    assert(out@ =~= old(out)@ + transaction_enc(t@));
}

/// Append the comma-separated renderings of `ts` to `out`.
fn push_transactions(out: &mut Vec<char>, ts: &Vec<Transaction>)
    ensures
        final(out)@ == old(out)@ + transactions_body(txs_view(ts@)),
{
    let n = ts.len();
    let mut i: usize = 0;
    while i < n
        invariant
            i <= n,
            n == ts@.len(),
            out@ == old(out)@ + transactions_body(txs_view(ts@).take(i as int)),
        decreases n - i,
    {
        if i > 0 {
            out.push(',');
        }
        push_transaction(out, &ts[i]);
        proof {
            let vs = txs_view(ts@);
            assert(vs[i as int] == ts@[i as int]@);
            lemma_transactions_body_step(vs, i as int);
            assert(out@ =~= old(out)@ + transactions_body(vs.take(i + 1 as int)));
        }
        i = i + 1;
    }
    assert(txs_view(ts@).take(n as int) =~= txs_view(ts@));
}

/// One rendering step: extending the encoded prefix by one transaction.
proof fn lemma_transactions_body_step(vs: Seq<TransactionView>, i: int)
    requires
        0 <= i < vs.len(),
    ensures
        i == 0 ==> transactions_body(vs.take(1)) == transaction_enc(vs[0]),
        i > 0 ==> transactions_body(vs.take(i + 1)) == transactions_body(vs.take(i))
            + seq![','] + transaction_enc(vs[i]),
{
    if i == 0 {
        assert(vs.take(1).len() == 1);
        assert(vs.take(1)[0] == vs[0]);
    } else {
        assert(vs.take(i + 1).drop_last() =~= vs.take(i));
        assert(vs.take(i + 1).last() == vs[i]);
    }
}

/// The canonical rendering of a block's hashed fields, as characters.
pub fn encode_block_payload(
    timestamp: u64,
    transactions: &Vec<Transaction>,
    previous_hash: &String,
) -> (r: Vec<char>)
    ensures
        r@ == block_payload_enc(timestamp, txs_view(transactions@), previous_hash@),
{
    let mut out: Vec<char> = Vec::new();
    push_str_chars(&mut out, "{\"timestamp\":");
    push_dec(&mut out, timestamp);
    push_str_chars(&mut out, ",\"transactions\":[");
    push_transactions(&mut out, transactions);
    push_str_chars(&mut out, "],\"previous_hash\":");
    push_quoted(&mut out, previous_hash.as_str());
    push_str_chars(&mut out, ",\"hash\":\"\"}");
    assert(out@ =~= block_payload_enc(timestamp, txs_view(transactions@), previous_hash@));
    out
}

} // verus!
