//! Immutable byte chunks from the `bytes` crate, and facts about streams made
//! of equally sized chunks.

use vstd::prelude::*;
use bytes::{Bytes, BytesMut};

verus! {

#[verifier::external_type_specification]
#[verifier::external_body]
pub struct ExBytes(Bytes);

#[verifier::external_type_specification]
#[verifier::external_body]
pub struct ExBytesMut(BytesMut);

/// The bytes held by a frozen chunk.
pub uninterp spec fn bytes_view(b: Bytes) -> Seq<u8>;

/// The bytes held by a chunk that is still being filled.
pub uninterp spec fn bytes_mut_view(b: BytesMut) -> Seq<u8>;

/// Relies on `BytesMut::with_capacity`: the new buffer is empty.
#[verifier::external_body]
pub(crate) fn new_chunk(capacity: usize) -> (r: BytesMut)
    ensures
        bytes_mut_view(r) == Seq::<u8>::empty(),
{
    BytesMut::with_capacity(capacity)
}

/// Relies on `BytesMut::extend_from_slice`: the slice is appended at the end.
#[verifier::external_body]
pub(crate) fn extend_chunk(b: &mut BytesMut, s: &[u8])
    ensures
        bytes_mut_view(*final(b)) == bytes_mut_view(*old(b)) + s@,
{
    b.extend_from_slice(s)
}

/// Relies on `BytesMut::len`: the number of bytes held.
#[verifier::external_body]
pub(crate) fn chunk_len(b: &BytesMut) -> (r: usize)
    ensures
        r as int == bytes_mut_view(*b).len(),
{
    b.len()
}

/// Relies on `BytesMut::freeze`: the frozen chunk holds the same bytes.
#[verifier::external_body]
pub(crate) fn freeze_chunk(b: BytesMut) -> (r: Bytes)
    ensures
        bytes_view(r) == bytes_mut_view(b),
{
    b.freeze()
}

/// Relies on `Bytes`'s `Clone`: a second handle on the same bytes.
#[verifier::external_body]
pub(crate) fn share_chunk(b: &Bytes) -> (r: Bytes)
    ensures
        bytes_view(r) == bytes_view(*b),
{
    b.clone()
}

/// Relies on `Bytes::copy_from_slice`: the chunk holds a copy of the slice.
#[verifier::external_body]
pub(crate) fn copy_chunk(s: &[u8]) -> (r: Bytes)
    ensures
        bytes_view(r) == s@,
{
    Bytes::copy_from_slice(s)
}

/// Relies on `Bytes`'s `Deref` to `[u8]`: the slice shows the chunk's bytes.
#[verifier::external_body]
pub(crate) fn chunk_bytes(b: &Bytes) -> (r: &[u8])
    ensures
        r@ == bytes_view(*b),
{
    &b[..]
}

/// The contents of a list of frozen chunks.
pub open spec fn chunk_views(chunks: Seq<Bytes>) -> Seq<Seq<u8>> {
    chunks.map_values(|b: Bytes| bytes_view(b))
}

/// Every chunk but the last holds exactly `size` bytes, and none holds more
/// than `size` or nothing at all.
pub open spec fn regular_chunks(cs: Seq<Seq<u8>>, size: nat) -> bool {
    &&& forall|i: int| 0 <= i < cs.len() ==> 0 < #[trigger] cs[i].len() <= size
    &&& forall|i: int| 0 <= i < cs.len() - 1 ==> #[trigger] cs[i].len() == size
}

/// Appending one chunk appends its bytes to the concatenation.
pub proof fn lemma_flatten_push(cs: Seq<Seq<u8>>, c: Seq<u8>)
    ensures
        cs.push(c).flatten() == cs.flatten() + c,
{
    cs.lemma_flatten_push(c);
}

/// The chunks from index `a` on of a stream of regular chunks hold the
/// stream's bytes from offset `a * size` on, when the earlier chunks are full.
pub proof fn lemma_regular_suffix(cs: Seq<Seq<u8>>, size: nat, a: int, b: int)
    requires
        regular_chunks(cs, size),
        0 <= a <= b <= cs.len(),
        a < cs.len(),
    ensures
        cs.subrange(0, a).flatten().len() == a * size,
        cs.flatten() == cs.subrange(0, a).flatten() + cs.subrange(a, b).flatten() + cs.subrange(
            b,
            cs.len() as int,
        ).flatten(),
        regular_chunks(cs.subrange(a, b), size),
        b < cs.len() ==> cs.subrange(a, b).flatten().len() == (b - a) * size,
{
    let x = cs.subrange(0, a);
    let y = cs.subrange(a, b);
    let z = cs.subrange(b, cs.len() as int);
    assert(cs == x + y + z);
    vstd::seq_lib::lemma_flatten_concat(x + y, z);
    vstd::seq_lib::lemma_flatten_concat(x, y);
    assert(regular_chunks(x, size));
    lemma_regular_len(x, size);
    if a > 0 {
        assert(x.last() == cs[a - 1]);
        assert(cs[a - 1].len() == size);
        assert((a - 1) * size + size == a * size) by (nonlinear_arith);
    } else {
        assert(a * size == 0) by (nonlinear_arith)
            requires a == 0;
    }
    assert(regular_chunks(y, size));
    lemma_regular_len(y, size);
    if b < cs.len() && b > a {
        assert(y.last() == cs[b - 1]);
        assert(cs[b - 1].len() == size);
        assert((b - a - 1) * size + size == (b - a) * size) by (nonlinear_arith);
    } else if b == a {
        assert((b - a) * size == 0) by (nonlinear_arith)
            requires b == a;
    }
}

/// Position `p` of a stream of regular chunks lies at offset `p % size` of
/// chunk `p / size`, and the stream's length is fixed by the last chunk.
pub proof fn lemma_regular_index(cs: Seq<Seq<u8>>, size: nat, p: int)
    requires
        size > 0,
        regular_chunks(cs, size),
        0 <= p < cs.flatten().len(),
    ensures
        p / (size as int) < cs.len(),
        p % (size as int) < cs[p / (size as int)].len(),
        cs.flatten()[p] == cs[p / (size as int)][p % (size as int)],
    decreases cs.len(),
{
    lemma_regular_len(cs, size);
    let n = cs.len() - 1;
    let init = cs.drop_last();
    assert(cs == init.push(cs.last()));
    lemma_flatten_push(init, cs.last());
    assert(regular_chunks(init, size));
    lemma_regular_len(init, size);
    let s = size as int;
    if p < init.flatten().len() {
        lemma_regular_index(init, size, p);
        assert(init[p / s] == cs[p / s]);
    } else {
        assert(init.flatten().len() == n * s) by {
            if n > 0 {
                assert(init.last().len() == size);
            }
        }
        let r = p - n * s;
        assert(0 <= r < cs.last().len());
        vstd::arithmetic::div_mod::lemma_fundamental_div_mod_converse(p, s, n, r);
    }
}

/// The length of a stream of regular chunks.
pub proof fn lemma_regular_len(cs: Seq<Seq<u8>>, size: nat)
    requires
        regular_chunks(cs, size),
    ensures
        cs.len() > 0 ==> cs.flatten().len() == (cs.len() - 1) * size + cs.last().len(),
        cs.len() == 0 ==> cs.flatten().len() == 0,
        cs.flatten().len() <= cs.len() * size,
    decreases cs.len(),
{
    if cs.len() > 0 {
        let init = cs.drop_last();
        assert(cs == init.push(cs.last()));
        lemma_flatten_push(init, cs.last());
        assert(regular_chunks(init, size));
        lemma_regular_len(init, size);
        if init.len() > 0 {
            assert(init.last().len() == size);
            let k = init.len() as int;
            assert((k - 1) * size + size == k * size) by (nonlinear_arith);
            assert(init.flatten().len() == k * size);
        } else {
            assert(init.flatten().len() == 0);
            assert((cs.len() - 1) * size == 0) by (nonlinear_arith)
                requires cs.len() == 1;
        }
        assert(cs.flatten().len() == init.flatten().len() + cs.last().len());
        assert(cs.len() - 1 == init.len());
        assert((cs.len() - 1) * size + cs.last().len() <= cs.len() * size) by (nonlinear_arith)
            requires cs.last().len() <= size;
    } else {
        assert(cs.flatten() == Seq::<u8>::empty());
    }
}

} // verus!
