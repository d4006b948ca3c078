//! The calls that leave the verified library. What each contract says is
//! believed, not proved.
use crate::helper::hex_chars;
use crate::types::H256;
use vstd::prelude::*;

verus! {

/// The digest that `ckb_hash::blake2b_256` computes for the bytes `data`.
pub uninterp spec fn ckb_blake2b_256(data: Seq<u8>) -> Seq<u8>;

/// Calls `ckb_hash::blake2b_256`: the 32-byte blake2b digest of `data`, under
/// the chain's personalisation. The digest depends on the bytes alone.
#[verifier::external_body]
pub(crate) fn blake2b_256(data: &[u8]) -> (digest: H256)
    ensures
        digest@ == ckb_blake2b_256(data@),
{
    ckb_hash::blake2b_256(data)
}

/// What `ethabi::decode` makes of the bytes `data` when asked for one string:
/// nothing where the bytes do not decode, else one entry for each value that
/// came out, which is the value's text where the value is a string.
pub uninterp spec fn ethabi_decoded_strings(data: Seq<u8>) -> Option<Seq<Option<Seq<char>>>>;

/// The texts of `decoded`, each as its characters.
pub open spec fn decoded_strings_view(decoded: Option<Vec<Option<String>>>) -> Option<
    Seq<Option<Seq<char>>>,
> {
    match decoded {
        Some(tokens) => Some(
            Seq::new(
                tokens@.len(),
                |i: int|
                    match tokens@[i] {
                        Some(text) => Some(text@),
                        None => None,
                    },
            ),
        ),
        None => None,
    }
}

/// Calls `ethabi::decode` for the parameter list of one string, and
/// `ethabi::Token::into_string` on each value that comes out. The result
/// depends on the bytes alone; the contract gives it its name and claims no
/// more. The decoder adds offsets that it reads from the bytes, each below
/// 2^32, to lengths, and does not check the sums: with addresses of 32 bits
/// such a sum can overflow and the call panic, so the call is for machines
/// with addresses of 64 bits only, where no such sum overflows.
#[verifier::external_body]
pub(crate) fn abi_decode_string(data: &[u8]) -> (decoded: Option<Vec<Option<String>>>)
    requires
        usize::BITS == 64,
    ensures
        decoded_strings_view(decoded) == ethabi_decoded_strings(data@),
{
    match ethabi::decode(&[ethabi::ParamType::String], data) {
        Ok(tokens) => Some(tokens.into_iter().map(ethabi::Token::into_string).collect()),
        Err(_) => None,
    }
}

/// Calls `faster_hex::hex_string`: two lowercase hexadecimal digits for each
/// byte of `src`, the high half first, with nothing before, between or after
/// them. The call panics where the text would be longer than `isize::MAX`
/// bytes, so such input is kept out.
#[verifier::external_body]
pub(crate) fn hex_string(src: &[u8]) -> (text: String)
    requires
        2 * src@.len() <= isize::MAX,
    ensures
        text@ == hex_chars(src@),
{
    faster_hex::hex_string(src)
}

/// The digest that `sha3::Keccak256` computes for the bytes `data`.
pub uninterp spec fn keccak_256(data: Seq<u8>) -> Seq<u8>;

/// Calls `sha3::Keccak256::digest`: the 32-byte Keccak-256 digest of `data`.
/// The digest depends on the bytes alone.
#[verifier::external_body]
pub(crate) fn keccak256(data: &[u8]) -> (digest: H256)
    ensures
        digest@ == keccak_256(data@),
{
    <sha3::Keccak256 as sha3::Digest>::digest(data).into()
}

} // verus!
