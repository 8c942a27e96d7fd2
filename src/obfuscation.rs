//! The byte obfuscation applied to both directions of a tunnel link.
//!
//! Every byte that crosses an obfuscated boundary is replaced by its bitwise
//! complement. The transform keeps no state between bytes, so it does not
//! matter how a stream is cut into chunks, and it is its own inverse.

use vstd::prelude::*;

verus! {

/// The obfuscation of one byte: its bitwise complement.
pub open spec fn spec_transform(b: u8) -> u8 {
    !b
}

/// The obfuscation of a byte sequence, byte by byte.
pub open spec fn spec_transform_seq(s: Seq<u8>) -> Seq<u8> {
    s.map_values(|b: u8| spec_transform(b))
}

/// Obfuscates (or, equally, restores) one byte.
pub fn transform(b: u8) -> (r: u8)
    ensures
        r == spec_transform(b),
{
    !b
}

/// Applying the transform twice gives the byte back.
pub proof fn lemma_transform_involution(b: u8)
    ensures
        spec_transform(spec_transform(b)) == b,
{
    assert(!(!b) == b) by (bit_vector);
}

/// Applying the transform twice to a byte sequence gives the sequence back.
pub proof fn lemma_transform_seq_involution(s: Seq<u8>)
    ensures
        spec_transform_seq(spec_transform_seq(s)) == s,
{
    assert forall|i: int| 0 <= i < s.len() implies spec_transform_seq(spec_transform_seq(s))[i]
        == s[i] by {
        lemma_transform_involution(s[i]);
    }
    assert(spec_transform_seq(spec_transform_seq(s)) =~= s);
}

/// The transform of a concatenation is the concatenation of the transforms:
/// how a stream is split into chunks does not change what comes out.
pub proof fn lemma_transform_seq_chunks(a: Seq<u8>, b: Seq<u8>)
    ensures
        spec_transform_seq(a + b) == spec_transform_seq(a) + spec_transform_seq(b),
{
    assert(spec_transform_seq(a + b) =~= spec_transform_seq(a) + spec_transform_seq(b));
}

/// Returns the obfuscated copy of `buf`, as written to an obfuscated link.
pub fn transform_bytes(buf: &[u8]) -> (r: Vec<u8>)
    ensures
        r@ == spec_transform_seq(buf@),
{
    let mut out: Vec<u8> = Vec::with_capacity(buf.len());
    let mut i: usize = 0;
    while i < buf.len()
        invariant
            i <= buf@.len(),
            out@ == spec_transform_seq(buf@.subrange(0, i as int)),
        decreases buf@.len() - i,
    {
        out.push(transform(buf[i]));
        i += 1;
        assert(spec_transform_seq(buf@.subrange(0, i as int)) =~= spec_transform_seq(
            buf@.subrange(0, i - 1),
        ).push(spec_transform(buf@[i - 1])));
    }
    assert(buf@.subrange(0, buf@.len() as int) =~= buf@);
    out
}

/// Transforms in place the bytes of `buf` from index `start` on, as done to
/// the bytes that a read from an obfuscated link has just filled in; the
/// bytes before `start` stay as they are.
pub fn transform_from(buf: &mut [u8], start: usize)
    ensures
        final(buf)@.len() == old(buf)@.len(),
        start <= old(buf)@.len() ==> final(buf)@ == old(buf)@.subrange(0, start as int)
            + spec_transform_seq(old(buf)@.subrange(start as int, old(buf)@.len() as int)),
        start > old(buf)@.len() ==> final(buf)@ == old(buf)@,
{
    let mut i: usize = start;
    while i < buf.len()
        invariant
            buf@.len() == old(buf)@.len(),
            start <= i || buf@.len() <= i,
            forall|j: int| 0 <= j < start && j < buf@.len() ==> buf@[j] == old(buf)@[j],
            forall|j: int| start <= j < i && j < buf@.len() ==> buf@[j] == spec_transform(old(buf)@[j]),
            forall|j: int| i <= j < buf@.len() ==> buf@[j] == old(buf)@[j],
        decreases buf@.len() - i,
    {
        let b = buf[i];
        buf[i] = transform(b);
        i += 1;
    }
    if start <= buf.len() {
        assert(buf@ =~= old(buf)@.subrange(0, start as int) + spec_transform_seq(
            old(buf)@.subrange(start as int, old(buf)@.len() as int),
        ));
    } else {
        assert(buf@ =~= old(buf)@);
    }
}

/// The reading side of an obfuscated link: what is read through it is the
/// transform of what its inner reader delivers.
pub struct ObfucationAsyncReader<R> {
    inner: R,
}

impl<R> ObfucationAsyncReader<R> {
    /// The wrapped reader.
    pub closed spec fn inner(&self) -> R {
        self.inner
    }

    /// Wraps `inner`.
    pub fn new(inner: R) -> (r: Self)
        ensures
            r.inner() == inner,
    {
        Self { inner }
    }

    /// Unwraps the inner reader.
    pub fn into_inner(self) -> (r: R)
        ensures
            r == self.inner(),
    {
        self.inner
    }

    /// Restores, in place, the bytes of `buf` from index `start` on that the
    /// inner reader has just filled in.
    pub fn decode_filled(&self, buf: &mut [u8], start: usize)
        ensures
            final(buf)@.len() == old(buf)@.len(),
            start <= old(buf)@.len() ==> final(buf)@ == old(buf)@.subrange(0, start as int)
                + spec_transform_seq(old(buf)@.subrange(start as int, old(buf)@.len() as int)),
            start > old(buf)@.len() ==> final(buf)@ == old(buf)@,
    {
        transform_from(buf, start);
    }
}

/// The writing side of an obfuscated link: what its inner writer receives is
/// the transform of what is written through it.
pub struct ObfucationAsyncWriter<W> {
    inner: W,
}

impl<W> ObfucationAsyncWriter<W> {
    /// The wrapped writer.
    pub closed spec fn inner(&self) -> W {
        self.inner
    }

    /// Wraps `inner`.
    pub fn new(inner: W) -> (r: Self)
        ensures
            r.inner() == inner,
    {
        Self { inner }
    }

    /// Unwraps the inner writer.
    pub fn into_inner(self) -> (r: W)
        ensures
            r == self.inner(),
    {
        self.inner
    }

    /// The bytes to hand to the inner writer for `buf`.
    pub fn encode(&self, buf: &[u8]) -> (r: Vec<u8>)
        ensures
            r@ == spec_transform_seq(buf@),
    {
        transform_bytes(buf)
    }
}

} // verus!
