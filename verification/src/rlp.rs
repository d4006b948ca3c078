//! The Ethereum-style hash of an indexed transaction: the Keccak-256 digest of
//! the transaction's fields in recursive length prefix encoding.
use crate::numbers::{lemma_pow256_widths, pow256};
use crate::outside::{keccak256, keccak_256};
use crate::types::{
    bytes_between, push_bytes, Web3Transaction, Web3TransactionView, H256, U256,
};
use vstd::prelude::*;

verus! {

/// The big-endian bytes of `value` without leading zeros; none for zero.
pub open spec fn scalar_bytes(value: nat) -> Seq<u8>
    decreases value,
{
    if value == 0 {
        Seq::<u8>::empty()
    } else {
        scalar_bytes(value / 256).push((value % 256) as u8)
    }
}

/// The low `width` big-endian bytes of `value`, leading zeros included.
pub open spec fn be_bytes(value: nat, width: nat) -> Seq<u8>
    decreases width,
{
    if width == 0 {
        Seq::<u8>::empty()
    } else {
        be_bytes(value / 256, (width - 1) as nat).push((value % 256) as u8)
    }
}

/// The bytes `b` without the zeros they begin with.
pub open spec fn strip_leading_zeros(b: Seq<u8>) -> Seq<u8>
    decreases b.len(),
{
    if b.len() > 0 && b[0] == 0 {
        strip_leading_zeros(b.drop_first())
    } else {
        b
    }
}

/// The encoding of the byte string `b`: a single byte below 0x80 stands for
/// itself; a string of up to 55 bytes follows one byte that holds its length;
/// a longer one follows its length, which follows one byte that holds the
/// length's length.
pub open spec fn rlp_string(b: Seq<u8>) -> Seq<u8> {
    if b.len() == 1 && b[0] < 0x80 {
        b
    } else if b.len() <= 55 {
        seq![(0x80 + b.len()) as u8] + b
    } else {
        seq![(0xb7 + scalar_bytes(b.len()).len()) as u8] + scalar_bytes(b.len()) + b
    }
}

/// The encoding of a list whose items, encoded, are `payload`.
pub open spec fn rlp_list(payload: Seq<u8>) -> Seq<u8> {
    if payload.len() <= 55 {
        seq![(0xc0 + payload.len()) as u8] + payload
    } else {
        seq![(0xf7 + scalar_bytes(payload.len()).len()) as u8] + scalar_bytes(payload.len())
            + payload
    }
}

/// The `v` that goes into the hash: the signature's `v` raised by 35 and twice
/// the chain id, or by 27 where the transaction is bound to no chain.
pub open spec fn replay_protected_v(v: u8, chain_id: Option<u64>) -> nat {
    match chain_id {
        Some(id) => (v + 35 + 2 * id) as nat,
        None => (v + 27) as nat,
    }
}

/// The nine fields of a transaction, each encoded, one after the other:
/// nonce, gas price, gas limit, receiver, value, input, `v`, `r` and `s`.
/// Numbers are written without leading zeros; a creation has an empty
/// receiver.
pub open spec fn eth_tx_payload(tx: Web3TransactionView) -> Seq<u8> {
    rlp_string(scalar_bytes(tx.nonce as nat)) + rlp_string(scalar_bytes(tx.gas_price as nat))
        + rlp_string(scalar_bytes(tx.gas_limit as nat)) + rlp_string(
        match tx.to_address {
            Some(to) => to,
            None => Seq::<u8>::empty(),
        },
    ) + rlp_string(scalar_bytes(tx.value.value())) + rlp_string(tx.input) + rlp_string(
        scalar_bytes(replay_protected_v(tx.v, tx.chain_id)),
    ) + rlp_string(strip_leading_zeros(tx.r)) + rlp_string(strip_leading_zeros(tx.s))
}

/// The encoding of a transaction: the list of its nine fields.
pub open spec fn eth_tx_rlp(tx: Web3TransactionView) -> Seq<u8> {
    rlp_list(eth_tx_payload(tx))
}

/// A number below `256^width` has at most `width` bytes.
pub proof fn lemma_scalar_bytes_len(value: nat, width: nat)
    requires
        value < pow256(width),
    ensures
        scalar_bytes(value).len() <= width,
    decreases width,
{
    if value > 0 {
        lemma_scalar_bytes_len(value / 256, (width - 1) as nat);
    }
}

/// A number at or above `256^width` times a positive `high` is written as
/// `high` followed by its `width` low bytes.
pub proof fn lemma_scalar_bytes_split(high: nat, low: nat, width: nat)
    requires
        high > 0,
        low < pow256(width),
    ensures
        scalar_bytes(high * pow256(width) + low) == scalar_bytes(high) + be_bytes(low, width),
    decreases width,
{
    if width == 0 {
        assert(high * pow256(0) + low == high) by (nonlinear_arith)
            requires
                pow256(0) == 1,
                low == 0,
        ;
        assert(scalar_bytes(high) + be_bytes(low, 0) =~= scalar_bytes(high));
    } else {
        let below = pow256((width - 1) as nat);
        let value = high * pow256(width) + low;
        assert(high * pow256(width) == 256 * (high * below)) by (nonlinear_arith)
            requires
                pow256(width) == 256 * below,
        ;
        assert(high * below >= 1) by (nonlinear_arith)
            requires
                high >= 1,
                below >= 1,
        ;
        assert(value / 256 == high * below + low / 256);
        assert(value % 256 == low % 256);
        lemma_scalar_bytes_split(high, low / 256, (width - 1) as nat);
        assert(scalar_bytes(value) =~= scalar_bytes(high) + be_bytes(low, width));
    }
}

/// Appends the bytes of `value`, without leading zeros, to `out`.
pub fn push_scalar(out: &mut Vec<u8>, value: u128)
    ensures
        final(out)@ == old(out)@ + scalar_bytes(value as nat),
{
    let mut digits: Vec<u8> = Vec::new();
    let mut rest: u128 = value;
    assert(scalar_bytes(rest as nat) + digits@.reverse() =~= scalar_bytes(value as nat));
    while rest > 0
        invariant
            scalar_bytes(rest as nat) + digits@.reverse() == scalar_bytes(value as nat),
        decreases rest,
    {
        let ghost before = digits@;
        let low: u8 = (rest % 256) as u8;
        digits.push(low);
        proof {
            assert(digits@.reverse() =~= seq![low] + before.reverse());
            assert(scalar_bytes((rest / 256) as nat) + digits@.reverse() =~= scalar_bytes(
                rest as nat,
            ) + before.reverse());
        }
        rest = rest / 256;
    }
    assert(scalar_bytes(value as nat) =~= digits@.reverse());
    let n = digits.len();
    let mut i: usize = n;
    let ghost start = out@;
    assert(out@ =~= start + digits@.reverse().take(0));
    while i > 0
        invariant
            i <= n == digits@.len(),
            out@ == start + digits@.reverse().take(n - i),
        decreases i,
    {
        i -= 1;
        out.push(digits[i]);
        assert(out@ =~= start + digits@.reverse().take(n - i));
    }
    assert(digits@.reverse().take(n as int) =~= digits@.reverse());
}

/// The bytes of `value` without leading zeros.
pub fn scalar_to_bytes(value: u128) -> (bytes: Vec<u8>)
    ensures
        bytes@ == scalar_bytes(value as nat),
{
    let mut bytes: Vec<u8> = Vec::new();
    push_scalar(&mut bytes, value);
    assert(Seq::<u8>::empty() + scalar_bytes(value as nat) =~= scalar_bytes(value as nat));
    bytes
}

/// Appends the low `width` big-endian bytes of `value` to `out`.
pub fn push_be(out: &mut Vec<u8>, value: u128, width: usize)
    ensures
        final(out)@ == old(out)@ + be_bytes(value as nat, width as nat),
{
    let mut digits: Vec<u8> = Vec::new();
    let mut rest: u128 = value;
    let mut done: usize = 0;
    assert(be_bytes(rest as nat, (width - done) as nat) + digits@.reverse() =~= be_bytes(
        value as nat,
        width as nat,
    ));
    while done < width
        invariant
            done <= width,
            digits@.len() == done,
            be_bytes(rest as nat, (width - done) as nat) + digits@.reverse() == be_bytes(
                value as nat,
                width as nat,
            ),
        decreases width - done,
    {
        let ghost before = digits@;
        let low: u8 = (rest % 256) as u8;
        digits.push(low);
        proof {
            assert(digits@.reverse() =~= seq![low] + before.reverse());
            assert(be_bytes((rest / 256) as nat, (width - done - 1) as nat) + digits@.reverse()
                =~= be_bytes(rest as nat, (width - done) as nat) + before.reverse());
        }
        rest = rest / 256;
        done += 1;
    }
    assert(be_bytes(value as nat, width as nat) =~= digits@.reverse());
    let n = digits.len();
    let mut i: usize = n;
    let ghost start = out@;
    assert(out@ =~= start + digits@.reverse().take(0));
    while i > 0
        invariant
            i <= n == digits@.len(),
            out@ == start + digits@.reverse().take(n - i),
        decreases i,
    {
        i -= 1;
        out.push(digits[i]);
        assert(out@ =~= start + digits@.reverse().take(n - i));
    }
    assert(digits@.reverse().take(n as int) =~= digits@.reverse());
}

/// The bytes of a 256-bit number without leading zeros.
pub fn u256_to_bytes(value: U256) -> (bytes: Vec<u8>)
    ensures
        bytes@ == scalar_bytes(value.value()),
{
    let mut bytes: Vec<u8> = Vec::new();
    if value.hi == 0 {
        push_scalar(&mut bytes, value.lo);
        assert(Seq::<u8>::empty() + scalar_bytes(value.lo as nat) =~= scalar_bytes(
            value.lo as nat,
        ));
    } else {
        push_scalar(&mut bytes, value.hi);
        push_be(&mut bytes, value.lo, 16);
        proof {
            lemma_pow256_widths();
            lemma_scalar_bytes_split(value.hi as nat, value.lo as nat, 16);
            assert(Seq::<u8>::empty() + scalar_bytes(value.hi as nat) =~= scalar_bytes(
                value.hi as nat,
            ));
        }
    }
    bytes
}

/// The bytes `b` from their first byte that is not zero.
pub fn without_leading_zeros(b: &[u8]) -> (bytes: Vec<u8>)
    ensures
        bytes@ == strip_leading_zeros(b@),
{
    let n = b.len();
    let mut k: usize = 0;
    assert(b@.subrange(0, n as int) =~= b@);
    while k < n && b[k] == 0
        invariant
            k <= n == b@.len(),
            strip_leading_zeros(b@) == strip_leading_zeros(b@.subrange(k as int, n as int)),
        decreases n - k,
    {
        assert(b@.subrange(k as int, n as int).drop_first() =~= b@.subrange(k + 1, n as int));
        k += 1;
    }
    let mut bytes: Vec<u8> = Vec::new();
    push_bytes(&mut bytes, bytes_between(b, k, n).as_slice());
    assert(bytes@ =~= b@.subrange(k as int, n as int));
    bytes
}

/// Appends to `out` the one or more bytes that stand before the `len` bytes
/// of a string or a list: `short` raised by the length where that is at most
/// 55, else `long` raised by the length's length, and the length.
fn push_length(out: &mut Vec<u8>, len: usize, short: u8, long: u8)
    requires
        short <= 0xc0,
        long <= 0xf7,
    ensures
        final(out)@ == old(out)@ + if len <= 55 {
            seq![(short + len) as u8]
        } else {
            seq![(long + scalar_bytes(len as nat).len()) as u8] + scalar_bytes(len as nat)
        },
{
    if len <= 55 {
        out.push(short + len as u8);
        assert(out@ =~= old(out)@ + seq![(short + len) as u8]);
    } else {
        let digits = scalar_to_bytes(len as u128);
        proof {
            lemma_pow256_widths();
            lemma_scalar_bytes_len(len as nat, 8);
        }
        out.push(long + digits.len() as u8);
        push_bytes(out, digits.as_slice());
        assert(out@ =~= old(out)@ + (seq![(long + scalar_bytes(len as nat).len()) as u8]
            + scalar_bytes(len as nat)));
    }
}

/// Appends the encoding of the byte string `b` to `out`.
pub fn push_rlp_string(out: &mut Vec<u8>, b: &[u8])
    ensures
        final(out)@ == old(out)@ + rlp_string(b@),
{
    if b.len() == 1 && b[0] < 0x80 {
        out.push(b[0]);
        assert(out@ =~= old(out)@ + b@);
    } else {
        push_length(out, b.len(), 0x80, 0xb7);
        push_bytes(out, b);
        assert(out@ =~= old(out)@ + rlp_string(b@));
    }
}

/// The encoding of a list whose items, encoded, are `payload`.
pub fn encode_rlp_list(payload: &[u8]) -> (list: Vec<u8>)
    ensures
        list@ == rlp_list(payload@),
{
    let mut list: Vec<u8> = Vec::new();
    push_length(&mut list, payload.len(), 0xc0, 0xf7);
    push_bytes(&mut list, payload);
    assert(list@ =~= rlp_list(payload@));
    list
}

impl Web3Transaction {
    /// The transaction in recursive length prefix encoding.
    pub fn to_rlp(&self) -> (bytes: Vec<u8>)
        ensures
            bytes@ == eth_tx_rlp(self@),
    {
        let mut payload: Vec<u8> = Vec::new();
        let ghost tx = self@;
        let ghost f0 = rlp_string(scalar_bytes(tx.nonce as nat));
        let ghost f1 = rlp_string(scalar_bytes(tx.gas_price as nat));
        let ghost f2 = rlp_string(scalar_bytes(tx.gas_limit as nat));
        let ghost f3 = rlp_string(
            match tx.to_address {
                Some(to) => to,
                None => Seq::<u8>::empty(),
            },
        );
        let ghost f4 = rlp_string(scalar_bytes(tx.value.value()));
        let ghost f5 = rlp_string(tx.input);
        let ghost f6 = rlp_string(scalar_bytes(replay_protected_v(tx.v, tx.chain_id)));
        let ghost f7 = rlp_string(strip_leading_zeros(tx.r));
        let ghost f8 = rlp_string(strip_leading_zeros(tx.s));
        push_rlp_string(&mut payload, scalar_to_bytes(self.nonce as u128).as_slice());
        assert(payload@ =~= f0);
        push_rlp_string(&mut payload, scalar_to_bytes(self.gas_price).as_slice());
        push_rlp_string(&mut payload, scalar_to_bytes(self.gas_limit).as_slice());
        match &self.to_address {
            Some(to) => {
                push_rlp_string(&mut payload, to.as_slice());
            },
            None => {
                let nothing: Vec<u8> = Vec::new();
                push_rlp_string(&mut payload, nothing.as_slice());
            },
        }
        assert(payload@ =~= f0 + f1 + f2 + f3);
        push_rlp_string(&mut payload, u256_to_bytes(self.value).as_slice());
        push_rlp_string(&mut payload, self.input.as_slice());
        let v: u128 = match self.chain_id {
            Some(id) => self.v as u128 + 35 + 2 * (id as u128),
            None => self.v as u128 + 27,
        };
        push_rlp_string(&mut payload, scalar_to_bytes(v).as_slice());
        assert(payload@ =~= f0 + f1 + f2 + f3 + f4 + f5 + f6);
        push_rlp_string(&mut payload, without_leading_zeros(self.r.as_slice()).as_slice());
        push_rlp_string(&mut payload, without_leading_zeros(self.s.as_slice()).as_slice());
        assert(payload@ =~= eth_tx_payload(tx));
        encode_rlp_list(payload.as_slice())
    }

    /// The Ethereum-style hash of the transaction: the Keccak-256 digest of
    /// its encoding.
    pub fn compute_eth_tx_hash(&self) -> (hash: H256)
        ensures
            hash@ == keccak_256(eth_tx_rlp(self@)),
    {
        let encoded = self.to_rlp();
        keccak256(encoded.as_slice())
    }
}

} // verus!
