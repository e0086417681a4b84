//! What ties a document to one TLS connection.

use crate::bytes::{push_bytes, push_u64};
use crate::crypto::sha256_digest;
use vstd::prelude::*;

verus! {

/// Values supplied by the client before the TLS handshake and verified from the certificate
/// extension during that handshake.
#[derive(Debug)]
pub struct NitroBinding<'a> {
    /// Application-owned domain separation and protocol identity.
    pub context: &'a [u8],
    /// The nonce that the client chose for this connection.
    pub nonce: &'a [u8],
    /// The subject public key info of the server's TLS key, in DER.
    pub tls_spki: &'a [u8],
}

/// A binding as plain values.
#[verifier::ext_equal]
pub struct BindingView {
    pub context: Seq<u8>,
    pub nonce: Seq<u8>,
    pub tls_spki: Seq<u8>,
}

impl<'a> View for NitroBinding<'a> {
    type V = BindingView;

    open spec fn view(&self) -> BindingView {
        BindingView {
            context: self.context@,
            nonce: self.nonce@,
            tls_spki: self.tls_spki@,
        }
    }
}

impl<'a> Clone for NitroBinding<'a> {
    /// The same binding.
    fn clone(&self) -> (copy: NitroBinding<'a>)
        ensures
            copy@ == self@,
    {
        NitroBinding { context: self.context, nonce: self.nonce, tls_spki: self.tls_spki }
    }
}

/// A byte string behind its length, which is written as eight big-endian bytes.
pub open spec fn framed(bytes: Seq<u8>) -> Seq<u8> {
    crate::bytes::big_endian(bytes.len(), 8) + bytes
}

/// The message whose digest a document must carry as its user data.
pub open spec fn binding_message(binding: BindingView) -> Seq<u8> {
    framed(binding.context) + framed(binding.nonce) + framed(binding.tls_spki)
}

/// The user data that a document for this binding must carry.
pub open spec fn bound_user_data(binding: BindingView) -> Seq<u8> {
    crate::crypto::sha256(binding_message(binding))
}

/// Appends `bytes` behind its length to `out`.
fn push_framed(out: &mut Vec<u8>, bytes: &[u8])
    ensures
        final(out)@ == old(out)@ + framed(bytes@),
{
    push_u64(out, bytes.len() as u64);
    push_bytes(out, bytes);
    assert(out@ =~= old(out)@ + framed(bytes@));
}

/// The message whose digest binds a document to one connection.
pub fn encode_binding(binding: &NitroBinding<'_>) -> (message: Vec<u8>)
    ensures
        message@ == binding_message(binding@),
{
    let mut message: Vec<u8> = Vec::new();
    push_framed(&mut message, binding.context);
    push_framed(&mut message, binding.nonce);
    push_framed(&mut message, binding.tls_spki);
    assert(message@ =~= binding_message(binding@));
    message
}

/// Returns the exact `user_data` passed to the NSM for a TLS key and nonce.
pub fn binding_user_data(binding: NitroBinding<'_>) -> (user_data: [u8; 32])
    ensures
        user_data@ == bound_user_data(binding@),
{
    let message = encode_binding(&binding);
    sha256_digest(message.as_slice())
}

/// A framed byte string can be told apart from what follows it: two of them, each followed by
/// some rest, are equal only if the byte strings are equal and the rests are.
pub proof fn lemma_framed_prefix(a: Seq<u8>, rest_a: Seq<u8>, b: Seq<u8>, rest_b: Seq<u8>)
    requires
        a.len() <= u64::MAX,
        b.len() <= u64::MAX,
        framed(a) + rest_a == framed(b) + rest_b,
    ensures
        a == b,
        rest_a == rest_b,
{
    let whole_a = framed(a) + rest_a;
    let whole_b = framed(b) + rest_b;
    crate::bytes::lemma_big_endian_len(a.len(), 8);
    crate::bytes::lemma_big_endian_len(b.len(), 8);
    crate::bytes::lemma_digit_span_64();
    assert(whole_a.take(8) =~= crate::bytes::big_endian(a.len(), 8));
    assert(whole_b.take(8) =~= crate::bytes::big_endian(b.len(), 8));
    crate::bytes::lemma_big_endian_injective(a.len(), b.len(), 8);
    assert(whole_a.subrange(8, 8 + a.len() as int) =~= a);
    assert(whole_b.subrange(8, 8 + b.len() as int) =~= b);
    assert(whole_a.skip(8 + a.len() as int) =~= rest_a);
    assert(whole_b.skip(8 + b.len() as int) =~= rest_b);
}

/// Different bindings never share a message: protocol, nonce and TLS key are each bound, and no
/// bytes can move from one to another.
pub proof fn binding_message_injective(a: BindingView, b: BindingView)
    requires
        a.context.len() <= u64::MAX,
        a.nonce.len() <= u64::MAX,
        a.tls_spki.len() <= u64::MAX,
        b.context.len() <= u64::MAX,
        b.nonce.len() <= u64::MAX,
        b.tls_spki.len() <= u64::MAX,
        binding_message(a) == binding_message(b),
    ensures
        a == b,
{
    let tail_a = framed(a.nonce) + framed(a.tls_spki);
    let tail_b = framed(b.nonce) + framed(b.tls_spki);
    assert(binding_message(a) =~= framed(a.context) + tail_a);
    assert(binding_message(b) =~= framed(b.context) + tail_b);
    lemma_framed_prefix(a.context, tail_a, b.context, tail_b);
    lemma_framed_prefix(a.nonce, framed(a.tls_spki), b.nonce, framed(b.tls_spki));
    assert(framed(a.tls_spki) + Seq::<u8>::empty() =~= framed(a.tls_spki));
    assert(framed(b.tls_spki) + Seq::<u8>::empty() =~= framed(b.tls_spki));
    lemma_framed_prefix(a.tls_spki, Seq::empty(), b.tls_spki, Seq::empty());
    assert(a =~= b);
}

/// Two different bindings with the same user data are a collision of SHA-256: two different
/// messages with the same digest.
pub proof fn shared_user_data_is_a_collision(a: BindingView, b: BindingView)
    requires
        a.context.len() <= u64::MAX,
        a.nonce.len() <= u64::MAX,
        a.tls_spki.len() <= u64::MAX,
        b.context.len() <= u64::MAX,
        b.nonce.len() <= u64::MAX,
        b.tls_spki.len() <= u64::MAX,
        a != b,
        bound_user_data(a) == bound_user_data(b),
    ensures
        binding_message(a) != binding_message(b),
        crate::crypto::sha256(binding_message(a)) == crate::crypto::sha256(binding_message(b)),
{
    if binding_message(a) == binding_message(b) {
        binding_message_injective(a, b);
    }
}

} // verus!
