//! COSE_Sign1, the envelope around an attestation document.

use crate::verify::MAX_DOCUMENT_LEN;
use coset::{CborSerializable, CoseSign1, TaggedCborSerializable};
use vstd::prelude::*;

verus! {

/// What a COSE_Sign1 structure says.
#[derive(Debug)]
pub struct Sign1 {
    /// The signed payload, if the structure carries one.
    pub payload: Option<Vec<u8>>,
    /// The signature.
    pub signature: Vec<u8>,
    /// The bytes that the signature covers, for empty external data.
    pub signed: Vec<u8>,
}

/// A COSE_Sign1 structure as plain values.
#[verifier::ext_equal]
pub struct Sign1View {
    pub payload: Option<Seq<u8>>,
    pub signature: Seq<u8>,
    pub signed: Seq<u8>,
}

impl View for Sign1 {
    type V = Sign1View;

    open spec fn view(&self) -> Sign1View {
        Sign1View {
            payload: match self.payload {
                Some(payload) => Some(payload@),
                None => None,
            },
            signature: self.signature@,
            signed: self.signed@,
        }
    }
}

/// The byte that a COSE_Sign1 structure starts with if it is tagged in the shortest way.
pub const SIGN1_TAG: u8 = 0xd2;

/// The view of a structure that may be missing.
pub open spec fn optional_sign1(sign1: Option<Sign1>) -> Option<Sign1View> {
    match sign1 {
        Some(sign1) => Some(sign1@),
        None => None,
    }
}

/// What is read from `encoded` as a COSE_Sign1 structure behind its CBOR tag.
pub uninterp spec fn tagged_sign1(encoded: Seq<u8>) -> Option<Sign1View>;

/// What is read from `encoded` as a COSE_Sign1 structure without a CBOR tag.
pub uninterp spec fn untagged_sign1(encoded: Seq<u8>) -> Option<Sign1View>;

/// Whether the structure in `encoded`, if it starts with the tag byte, is the one behind that
/// byte.
pub open spec fn tag_is_a_prefix(encoded: Seq<u8>, sign1: Sign1View) -> bool {
    encoded.len() > 0 && encoded[0] == SIGN1_TAG ==> {
        &&& tagged_sign1(encoded.skip(1)) is None
        &&& untagged_sign1(encoded.skip(1)) == Some(sign1)
    }
}

/// `coset::CoseSign1::from_tagged_slice`, its public fields, and the data that
/// `CoseSign1::verify_signature` hands to its verifier (`CoseSign1::tbs_data`). Claimed of it:
/// all of them are a function of the encoded bytes; and what is read behind the tag byte is what
/// is read from the bytes after it, which themselves have no tag. Only input within the protocol
/// limit is read: nested headers are read by recursion.
#[verifier::external_body]
fn sign1_from_tagged_slice(encoded: &[u8]) -> (sign1: Option<Sign1>)
    requires
        encoded@.len() <= MAX_DOCUMENT_LEN,
    ensures
        optional_sign1(sign1) == tagged_sign1(encoded@),
        sign1 matches Some(s) ==> tag_is_a_prefix(encoded@, s@),
{
    let cose = CoseSign1::from_tagged_slice(encoded).ok()?;
    let signed = cose.tbs_data(&[]);
    Some(Sign1 { payload: cose.payload, signature: cose.signature, signed })
}

/// `coset::CoseSign1::from_slice`, its public fields, and the data that
/// `CoseSign1::verify_signature` hands to its verifier (`CoseSign1::tbs_data`). Claimed of it:
/// all of them are a function of the encoded bytes; and a structure that is read does not start
/// with the tag byte. Only input within the protocol limit is read: nested headers are read by
/// recursion.
#[verifier::external_body]
fn sign1_from_slice(encoded: &[u8]) -> (sign1: Option<Sign1>)
    requires
        encoded@.len() <= MAX_DOCUMENT_LEN,
    ensures
        optional_sign1(sign1) == untagged_sign1(encoded@),
        sign1 is Some ==> encoded@.len() > 0 && encoded@[0] != SIGN1_TAG,
{
    let cose = CoseSign1::from_slice(encoded).ok()?;
    let signed = cose.tbs_data(&[]);
    Some(Sign1 { payload: cose.payload, signature: cose.signature, signed })
}

/// The structure in `encoded`, with its tag or without.
pub open spec fn cose_sign1(encoded: Seq<u8>) -> Option<Sign1View> {
    match tagged_sign1(encoded) {
        Some(sign1) => Some(sign1),
        None => untagged_sign1(encoded),
    }
}

/// Reads a COSE_Sign1 structure, with its tag or without. Behind the tag byte it reads what it
/// would read without that byte.
pub fn decode_sign1(encoded: &[u8]) -> (sign1: Option<Sign1>)
    requires
        encoded@.len() <= MAX_DOCUMENT_LEN,
    ensures
        optional_sign1(sign1) == cose_sign1(encoded@),
        encoded@.len() > 0 && encoded@[0] == SIGN1_TAG && sign1 is Some ==> optional_sign1(sign1)
            == cose_sign1(encoded@.skip(1)),
{
    match sign1_from_tagged_slice(encoded) {
        Some(sign1) => Some(sign1),
        None => sign1_from_slice(encoded),
    }
}

} // verus!
