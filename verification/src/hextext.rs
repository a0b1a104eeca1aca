//! Hexadecimal texts: the form of storage keys and of external request ids.
//! Encoding and decoding are carried out by the `hex` crate.
use crate::address::{Address, AddressKind};
use vstd::prelude::*;

verus! {

/// Whether `c` is a hexadecimal digit, in either case.
pub open spec fn is_hex_digit(c: char) -> bool {
    ('0' <= c && c <= '9') || ('a' <= c && c <= 'f') || ('A' <= c && c <= 'F')
}

/// Whether `text` spells out whole bytes in hexadecimal digits.
pub open spec fn is_hex_text(text: Seq<char>) -> bool {
    text.len() % 2 == 0 && forall|i: int| 0 <= i < text.len() ==> is_hex_digit(#[trigger] text[i])
}

/// The sixteen digits, lower case.
pub open spec fn hex_digits() -> Seq<char> {
    seq!['0', '1', '2', '3', '4', '5', '6', '7', '8', '9', 'a', 'b', 'c', 'd', 'e', 'f']
}

/// The text that spells out `bytes`: two lower-case digits for each byte,
/// the higher half first.
pub open spec fn hex_text(bytes: Seq<u8>) -> Seq<char> {
    Seq::new(
        2 * bytes.len(),
        |i: int|
            if i % 2 == 0 {
                hex_digits()[bytes[i / 2] as int / 16]
            } else {
                hex_digits()[bytes[i / 2] as int % 16]
            },
    )
}

/// A text that spells out bytes is a hexadecimal text, of two digits a byte.
pub proof fn lemma_hex_text_is_hex(bytes: Seq<u8>)
    ensures
        hex_text(bytes).len() == 2 * bytes.len(),
        is_hex_text(hex_text(bytes)),
{
    assert forall|i: int| 0 <= i < hex_text(bytes).len() implies is_hex_digit(
        #[trigger] hex_text(bytes)[i],
    ) by {
        let byte = bytes[i / 2] as int;
        let digit = if i % 2 == 0 {
            byte / 16
        } else {
            byte % 16
        };
        assert(0 <= digit < 16);
        assert(hex_text(bytes)[i] == hex_digits()[digit]);
        assert(forall|d: int| 0 <= d < 16 ==> is_hex_digit(#[trigger] hex_digits()[d]));
    }
}

/// Calls `hex::decode` and says whether it decoded the text. It does so for a
/// text of an even number of hexadecimal digits, and for no other.
#[verifier::external_body]
pub(crate) fn hex_decodes(text: &String) -> (r: bool)
    ensures
        r == is_hex_text(text@),
{
    hex::decode(text).is_ok()
}

/// Calls `hex::encode`: the text that spells out the bytes, two lower-case
/// digits for each, the higher half first.
#[verifier::external_body]
pub(crate) fn hex_encode(bytes: &[u8; 32]) -> (r: String)
    ensures
        r@ == hex_text(bytes@),
{
    hex::encode(bytes)
}

/// The key under which the records of an account are stored: its account
/// hash in hexadecimal digits. A contract has no such key.
pub fn make_dictionary_item_key_for_account(hash: Address) -> (r: Option<String>)
    ensures
        match r {
            Some(key) => hash.kind == AddressKind::Account && key@ == hex_text(hash.bytes@),
            None => hash.kind == AddressKind::Contract,
        },
{
    match hash.kind {
        AddressKind::Account => Some(hex_encode(&hash.bytes)),
        AddressKind::Contract => None,
    }
}

/// The key under which the records of a contract are stored: its package
/// hash in hexadecimal digits. An account has no such key.
pub fn make_dictionary_item_key_for_contract(hash: Address) -> (r: Option<String>)
    ensures
        match r {
            Some(key) => hash.kind == AddressKind::Contract && key@ == hex_text(hash.bytes@),
            None => hash.kind == AddressKind::Account,
        },
{
    match hash.kind {
        AddressKind::Contract => Some(hex_encode(&hash.bytes)),
        AddressKind::Account => None,
    }
}

} // verus!
