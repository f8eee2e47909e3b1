//! The chunked buffer: a producer appends arbitrarily sized pieces, which are
//! cut into immutable chunks of one fixed size; a reader copies from the
//! frozen chunks by absolute position.

use vstd::prelude::*;
use vstd::slice::slice_subrange;
use bytes::{Bytes, BytesMut};
use tokio_util::sync::CancellationToken;
use crate::cancel::{new_token, share_token, token_is_cancelled};
use crate::chunks::{
    bytes_mut_view, bytes_view, chunk_bytes, chunk_len, chunk_views, copy_chunk, extend_chunk,
    freeze_chunk, lemma_flatten_push, lemma_regular_index, lemma_regular_len,
    lemma_regular_suffix, new_chunk, regular_chunks, share_chunk,
};
use crate::reader::{
    seek_position, seek_target, AppendableDataWrapper, ReadStep, SeekError, SeekFrom,
};

verus! {

/// Frozen chunks of `chunk_size` bytes, the chunk being filled, and whether
/// the producer has finished.
pub struct MVecBytesWrapper {
    data: Vec<Bytes>,
    completed: bool,
    chunk_size: usize,
    current_chunk: BytesMut,
    frozen_len: usize,
}

impl MVecBytesWrapper {
    /// The contents of the frozen chunks, in order.
    pub closed spec fn frozen(&self) -> Seq<Seq<u8>> {
        chunk_views(self.data@)
    }

    /// The bytes of the chunk being filled.
    pub closed spec fn tail(&self) -> Seq<u8> {
        bytes_mut_view(self.current_chunk)
    }

    pub closed spec fn is_completed(&self) -> bool {
        self.completed
    }

    pub closed spec fn size(&self) -> nat {
        self.chunk_size as nat
    }

    /// The bytes a reader can see: those of the frozen chunks.
    pub open spec fn produced(&self) -> Seq<u8> {
        self.frozen().flatten()
    }

    /// Every byte appended so far.
    pub open spec fn stream(&self) -> Seq<u8> {
        self.produced() + self.tail()
    }

    pub open spec fn wf(&self) -> bool {
        &&& self.size() > 0
        &&& self.size() <= usize::MAX
        &&& regular_chunks(self.frozen(), self.size())
        &&& !self.is_completed() ==> forall|i: int|
            0 <= i < self.frozen().len() ==> #[trigger] self.frozen()[i].len() == self.size()
        &&& self.tail().len() < self.size()
        &&& self.is_completed() ==> self.tail().len() == 0
        &&& self.stream().len() <= usize::MAX
        &&& self.fields_agree()
    }

    /// The stored byte count matches the frozen chunks.
    pub closed spec fn fields_agree(&self) -> bool {
        &&& self.frozen_len as int == self.produced().len()
        &&& self.data@.len() == self.frozen().len()
    }

    /// A buffer that cuts its input into chunks of `chunk_size` bytes.
    pub fn new(chunk_size: usize) -> (r: Self)
        requires
            chunk_size > 0,
        ensures
            r.wf(),
            r.size() == chunk_size,
            r.stream() == Seq::<u8>::empty(),
            r.frozen() == Seq::<Seq<u8>>::empty(),
            !r.is_completed(),
    {
        let r = MVecBytesWrapper {
            data: Vec::new(),
            completed: false,
            chunk_size,
            current_chunk: new_chunk(chunk_size),
            frozen_len: 0,
        };
        assert(r.frozen() =~= Seq::<Seq<u8>>::empty());
        assert(r.stream() =~= Seq::<u8>::empty());
        r
    }

    /// The frozen chunks.
    pub fn data(&self) -> (r: &Vec<Bytes>)
        ensures
            chunk_views(r@) == self.frozen(),
    {
        &self.data
    }

    pub fn completed(&self) -> (r: bool)
        ensures
            r == self.is_completed(),
    {
        self.completed
    }

    pub fn chunk_size(&self) -> (r: usize)
        ensures
            r == self.size(),
    {
        self.chunk_size
    }

    /// The number of bytes in the frozen chunks.
    pub fn produced_bytes(&self) -> (r: usize)
        requires
            self.wf(),
        ensures
            r as int == self.produced().len(),
    {
        self.frozen_len
    }

    /// Freezes `chunk` and puts it after the frozen chunks.
    fn push_frozen(&mut self, chunk: Bytes)
        requires
            old(self).fields_agree(),
            old(self).produced().len() + bytes_view(chunk).len() <= usize::MAX,
        ensures
            final(self).fields_agree(),
            final(self).frozen() == old(self).frozen().push(bytes_view(chunk)),
            final(self).produced() == old(self).produced() + bytes_view(chunk),
            final(self).tail() == old(self).tail(),
            final(self).completed == old(self).completed,
            final(self).chunk_size == old(self).chunk_size,
    {
        let ghost before = self.frozen();
        let n = chunk_bytes(&chunk).len();
        self.data.push(chunk);
        assert(self.frozen() =~= before.push(bytes_view(chunk)));
        proof { lemma_flatten_push(before, bytes_view(chunk)); }
        self.frozen_len = self.frozen_len + n;
    }
}

/// Handles on a run of consecutive frozen chunks, which a reader copies from
/// after it has let go of the buffer.
pub struct ChunkWindow {
    chunks: Vec<Bytes>,
    start: u64,
    chunk_size: usize,
}

impl ChunkWindow {
    /// The bytes the window holds.
    pub closed spec fn bytes(&self) -> Seq<u8> {
        chunk_views(self.chunks@).flatten()
    }

    /// The stream offset of the window's first byte.
    pub closed spec fn start_spec(&self) -> u64 {
        self.start
    }

    pub open spec fn end_spec(&self) -> int {
        self.start_spec() + self.bytes().len()
    }

    /// The number of bytes the window holds.
    pub fn len_bytes(&self) -> (r: usize)
        ensures
            r == self.bytes().len(),
    {
        proof { use_type_invariant(self); }
        let mut total: usize = 0;
        let mut i: usize = 0;
        while i < self.chunks.len()
            invariant
                i <= self.chunks@.len(),
                total == chunk_views(self.chunks@.subrange(0, i as int)).flatten().len(),
                self.bytes().len() <= usize::MAX,
            decreases self.chunks@.len() - i,
        {
            let ghost before = self.chunks@.subrange(0, i as int);
            proof {
                assert(self.chunks@.subrange(0, i + 1) =~= before.push(self.chunks@[i as int]));
                let c = self.chunks@[i as int];
                assert(chunk_views(before.push(c)) =~= chunk_views(before).push(bytes_view(c)));
                lemma_flatten_push(chunk_views(before), bytes_view(self.chunks@[i as int]));
                let rest = chunk_views(self.chunks@.subrange(i + 1, self.chunks@.len() as int));
                let upto = chunk_views(self.chunks@.subrange(0, i + 1));
                assert(chunk_views(self.chunks@) =~= upto + rest);
                vstd::seq_lib::lemma_flatten_concat(upto, rest);
            }
            total = total + chunk_bytes(&self.chunks[i]).len();
            i = i + 1;
        }
        assert(self.chunks@.subrange(0, i as int) =~= self.chunks@);
        total
    }

    #[verifier::type_invariant]
    closed spec fn window_inv(&self) -> bool {
        &&& self.chunk_size > 0
        &&& regular_chunks(chunk_views(self.chunks@), self.chunk_size as nat)
        &&& self.start + self.bytes().len() <= u64::MAX
        &&& self.bytes().len() <= usize::MAX
    }
}

/// What a reader does next, decided while it holds the buffer.
pub enum ReadPlan {
    /// Copy from these chunks once the buffer is released.
    Copy(ChunkWindow),
    /// Nothing is to be copied: the stream ended, the reader was cancelled,
    /// or the caller asked for no byte.
    Finished,
    /// No byte is available yet: wait for the producer's signal and retry.
    Wait,
}

/// A seekable reader over the frozen chunks of a [`MVecBytesWrapper`]; it
/// carries the position and the signal that tells it to stop waiting.
pub struct MVecBytesReader {
    chunk_size: usize,
    pos: u64,
    cancellation_token: CancellationToken,
}

/// What a read of up to `n` bytes at `pos` owes when `produced` holds the
/// readable bytes: the count copied, or `None` when it must wait.
pub open spec fn read_outcome(
    produced: Seq<u8>,
    completed: bool,
    cancelled: bool,
    pos: u64,
    n: nat,
) -> Option<nat> {
    if pos >= produced.len() {
        if completed || cancelled {
            Some(0)
        } else {
            None
        }
    } else if n < produced.len() - pos {
        Some(n)
    } else {
        Some((produced.len() - pos) as nat)
    }
}

/// `after` is `before` with its first `k` bytes replaced by the `k` bytes of
/// `source` from `pos` on.
pub open spec fn copied(
    before: Seq<u8>,
    after: Seq<u8>,
    source: Seq<u8>,
    pos: int,
    k: nat,
) -> bool {
    &&& after.len() == before.len()
    &&& k <= before.len()
    &&& k > 0 ==> pos + k <= source.len()
    &&& forall|j: int| 0 <= j < k ==> #[trigger] after[j] == source[pos + j]
    &&& forall|j: int| k <= j < before.len() ==> #[trigger] after[j] == before[j]
}

impl MVecBytesReader {
    pub closed spec fn position_spec(&self) -> u64 {
        self.pos
    }

    pub closed spec fn size(&self) -> nat {
        self.chunk_size as nat
    }

    /// A reader at position zero over buffers cut like `wrapper`.
    pub fn new(wrapper: &MVecBytesWrapper) -> (r: Self)
        ensures
            r.position_spec() == 0,
            r.size() == wrapper.size(),
    {
        MVecBytesReader {
            chunk_size: wrapper.chunk_size(),
            pos: 0,
            cancellation_token: new_token(),
        }
    }

    /// A handle to this reader's cancellation signal.
    pub fn cancellation_token(&self) -> CancellationToken {
        share_token(&self.cancellation_token)
    }

    pub fn position(&self) -> (r: u64)
        ensures
            r == self.position_spec(),
    {
        self.pos
    }

    /// The chunk size of the buffers this reader reads.
    pub fn chunk_size(&self) -> (r: usize)
        ensures
            r == self.size(),
    {
        self.chunk_size
    }

    /// One read attempt with the cancellation signal read as `cancelled`:
    /// copies up to `buf.len()` readable bytes from the reader's position and
    /// moves past them, reports the end (zero) once the stream is complete or
    /// cancelled, or asks the caller to wait.
    pub fn read_step(&mut self, data: &MVecBytesWrapper, cancelled: bool, buf: &mut [u8]) -> (r:
        ReadStep)
        requires
            data.wf(),
            old(self).size() == data.size(),
        ensures
            final(self).size() == old(self).size(),
            match read_outcome(
                data.produced(),
                data.is_completed(),
                cancelled,
                old(self).position_spec(),
                old(buf)@.len(),
            ) {
                None => r == ReadStep::Wait && final(self).position_spec() == old(
                    self,
                ).position_spec() && final(buf)@ == old(buf)@,
                Some(k) => r == ReadStep::Read(k as usize) && final(self).position_spec()
                    == old(self).position_spec() + k && copied(
                    old(buf)@,
                    final(buf)@,
                    data.produced(),
                    old(self).position_spec() as int,
                    k,
                ),
            },
    {
        let produced = data.produced_bytes();
        if self.pos >= produced as u64 {
            if data.completed() || cancelled {
                return ReadStep::Read(0);
            } else {
                return ReadStep::Wait;
            }
        }
        let p = self.pos as usize;
        let avail = produced - p;
        let k = if buf.len() < avail { buf.len() } else { avail };
        let cs = self.chunk_size;
        let ghost flat = data.produced();
        let ghost old_buf = buf@;
        proof { lemma_regular_len(data.frozen(), cs as nat); }
        let mut i: usize = 0;
        while i < k
            invariant
                p + k <= flat.len(),
                flat == data.produced(),
                data.wf(),
                cs == data.size(),
                i <= k,
                k <= old_buf.len(),
                buf@.len() == old_buf.len(),
                forall|j: int| 0 <= j < i ==> #[trigger] buf@[j] == flat[p + j],
                forall|j: int| k <= j < old_buf.len() ==> #[trigger] buf@[j] == old_buf[j],
            decreases k - i,
        {
            let q = p + i;
            let idx = q / cs;
            let off = q % cs;
            proof { lemma_regular_index(data.frozen(), cs as nat, q as int); }
            let chunk = chunk_bytes(&data.data()[idx]);
            assert(chunk@ == data.frozen()[idx as int]);
            buf[i] = chunk[off];
            i = i + 1;
        }
        self.pos = self.pos + k as u64;
        ReadStep::Read(k)
    }

    /// The first half of a read of up to `n` bytes, taken while the buffer is
    /// held: either wait, or stop, or take handles on the chunks that hold the
    /// bytes to copy — every available byte up to `n` of them.
    pub fn plan(&self, data: &MVecBytesWrapper, cancelled: bool, n: usize) -> (r: ReadPlan)
        requires
            data.wf(),
            self.size() == data.size(),
        ensures
            match read_outcome(
                data.produced(),
                data.is_completed(),
                cancelled,
                self.position_spec(),
                n as nat,
            ) {
                None => r is Wait,
                Some(k) => if k == 0 {
                    r is Finished
                } else {
                    &&& r is Copy
                    &&& r->Copy_0.start_spec() <= self.position_spec()
                    &&& self.position_spec() + k <= r->Copy_0.end_spec() <= data.produced().len()
                    &&& r->Copy_0.bytes() == data.produced().subrange(
                        r->Copy_0.start_spec() as int,
                        r->Copy_0.end_spec(),
                    )
                },
            },
    {
        let produced = data.produced_bytes();
        if self.pos >= produced as u64 {
            if data.completed() || cancelled {
                return ReadPlan::Finished;
            } else {
                return ReadPlan::Wait;
            }
        }
        if n == 0 {
            return ReadPlan::Finished;
        }
        let ghost frozen = data.frozen();
        let p = self.pos as usize;
        let cs = self.chunk_size;
        let last = if n < produced - p { p + n } else { produced };
        let first = p / cs;
        proof {
            vstd::arithmetic::div_mod::lemma_fundamental_div_mod(p as int, cs as int);
        }
        let start = p - p % cs;
        proof {
            lemma_regular_len(frozen, cs as nat);
            lemma_regular_index(frozen, cs as nat, p as int);
            lemma_regular_suffix(frozen, cs as nat, first as int, first as int);
            assert(start == first * cs) by (nonlinear_arith)
                requires
                    start == p - p % cs,
                    p == cs * first + p % cs,
            ;
            let none = Seq::<Bytes>::empty();
            assert(chunk_views(none) =~= frozen.subrange(first as int, first as int));
        }
        let mut chunks: Vec<Bytes> = Vec::new();
        let mut idx = first;
        let mut covered = start;
        while idx < data.data().len() && covered < last
            invariant
                data.wf(),
                frozen == data.frozen(),
                cs == data.size(),
                first < frozen.len(),
                first <= idx <= frozen.len(),
                start == first * cs,
                start <= p < last <= produced,
                produced == frozen.flatten().len(),
                chunk_views(chunks@) == frozen.subrange(first as int, idx as int),
                covered == start + chunk_views(chunks@).flatten().len(),
                covered <= produced,
                idx < frozen.len() ==> covered == idx * cs,
            decreases frozen.len() - idx,
        {
            let c = share_chunk(&data.data()[idx]);
            let m = chunk_bytes(&c).len();
            let ghost before = chunks@;
            chunks.push(c);
            proof {
                assert(chunk_views(chunks@) =~= chunk_views(before).push(bytes_view(c)));
                lemma_flatten_push(chunk_views(before), bytes_view(c));
                let upto = frozen.subrange(first as int, idx as int);
                assert(frozen.subrange(first as int, idx + 1) =~= upto.push(frozen[idx as int]));
                lemma_regular_suffix(frozen, cs as nat, first as int, idx + 1);
                if idx + 1 < frozen.len() {
                    assert(frozen[idx as int].len() == cs);
                    assert(idx * cs + cs == (idx + 1) * cs) by (nonlinear_arith);
                }
            }
            covered = covered + m;
            idx = idx + 1;
        }
        proof {
            lemma_regular_suffix(frozen, cs as nat, first as int, idx as int);
            if idx == frozen.len() {
                let rest = frozen.subrange(idx as int, frozen.len() as int);
                assert(rest.flatten() =~= Seq::<u8>::empty());
            }
            let y = frozen.subrange(first as int, idx as int).flatten();
            assert(y =~= frozen.flatten().subrange(start as int, covered as int));
        }
        let w = ChunkWindow { chunks, start: start as u64, chunk_size: cs };
        ReadPlan::Copy(w)
    }

    /// The second half of a read, once the buffer is released: copies from
    /// `w` up to `buf.len()` bytes from the reader's position, which a window
    /// planned for it covers, and moves past them.
    pub fn copy_window(&mut self, w: &ChunkWindow, buf: &mut [u8]) -> (r: usize)
        ensures
            final(self).size() == old(self).size(),
            if w.start_spec() <= old(self).position_spec() < w.end_spec() {
                let k = if old(buf)@.len() < w.end_spec() - old(self).position_spec() {
                    old(buf)@.len() as int
                } else {
                    w.end_spec() - old(self).position_spec()
                };
                &&& r == k
                &&& final(self).position_spec() == old(self).position_spec() + k
                &&& copied(
                    old(buf)@,
                    final(buf)@,
                    w.bytes(),
                    old(self).position_spec() - w.start_spec(),
                    k as nat,
                )
            } else {
                &&& r == 0
                &&& final(self).position_spec() == old(self).position_spec()
                &&& final(buf)@ == old(buf)@
            },
    {
        proof { use_type_invariant(w); }
        let ghost flat = w.bytes();
        let ghost views = chunk_views(w.chunks@);
        if self.pos < w.start || self.pos - w.start >= w.len_bytes() as u64 {
            return 0;
        }
        let base = (self.pos - w.start) as usize;
        let avail = w.len_bytes() - base;
        let k = if buf.len() < avail { buf.len() } else { avail };
        let cs = w.chunk_size;
        let ghost old_buf = buf@;
        let mut i: usize = 0;
        while i < k
            invariant
                base + k <= flat.len(),
                flat.len() <= usize::MAX,
                flat == views.flatten(),
                views == chunk_views(w.chunks@),
                regular_chunks(views, cs as nat),
                cs == w.chunk_size,
                cs > 0,
                i <= k,
                k <= old_buf.len(),
                buf@.len() == old_buf.len(),
                forall|j: int| 0 <= j < i ==> #[trigger] buf@[j] == flat[base + j],
                forall|j: int| k <= j < old_buf.len() ==> #[trigger] buf@[j] == old_buf[j],
            decreases k - i,
        {
            let q = base + i;
            let idx = q / cs;
            let off = q % cs;
            proof { lemma_regular_index(views, cs as nat, q as int); }
            let chunk = chunk_bytes(&w.chunks[idx]);
            assert(chunk@ == views[idx as int]);
            buf[i] = chunk[off];
            i = i + 1;
        }
        self.pos = self.pos + k as u64;
        k
    }

    /// One read attempt that consults the reader's cancellation signal: it
    /// behaves as [`MVecBytesReader::read_step`] does for whatever the
    /// signal reads at that moment.
    pub fn try_read(&mut self, data: &MVecBytesWrapper, buf: &mut [u8]) -> (r: ReadStep)
        requires
            data.wf(),
            old(self).size() == data.size(),
        ensures
            final(self).size() == old(self).size(),
            exists|cancelled: bool|
                match #[trigger] read_outcome(
                    data.produced(),
                    data.is_completed(),
                    cancelled,
                    old(self).position_spec(),
                    old(buf)@.len(),
                ) {
                    None => r == ReadStep::Wait && final(self).position_spec() == old(
                        self,
                    ).position_spec() && final(buf)@ == old(buf)@,
                    Some(k) => r == ReadStep::Read(k as usize) && final(self).position_spec()
                        == old(self).position_spec() + k && copied(
                        old(buf)@,
                        final(buf)@,
                        data.produced(),
                        old(self).position_spec() as int,
                        k,
                    ),
                },
    {
        let cancelled = token_is_cancelled(&self.cancellation_token);
        self.read_step(data, cancelled, buf)
    }

    /// Moves the position; seeking from the end, or to a position below
    /// zero or beyond the largest, is refused and leaves it unchanged.
    pub fn seek(&mut self, from: SeekFrom) -> (r: Result<u64, SeekError>)
        ensures
            final(self).size() == old(self).size(),
            r == seek_target(old(self).position_spec(), from),
            match r {
                Ok(t) => final(self).position_spec() == t,
                Err(_) => final(self).position_spec() == old(self).position_spec(),
            },
    {
        match seek_position(self.pos, from) {
            Ok(t) => {
                self.pos = t;
                Ok(t)
            },
            Err(e) => Err(e),
        }
    }
}

/// A read in two halves gives what a read in one step gives: when `plan`
/// hands out a window for a read owing `k` bytes at `pos`, `copy_window`
/// copies exactly those `k` bytes of the stream.
pub proof fn law_two_phase_read(w: ChunkWindow, produced: Seq<u8>, pos: u64, n: nat, k: nat)
    requires
        0 < k,
        pos < produced.len(),
        k == if n < produced.len() - pos { n } else { (produced.len() - pos) as nat },
        w.start_spec() <= pos,
        pos + k <= w.end_spec() <= produced.len(),
        w.bytes() == produced.subrange(w.start_spec() as int, w.end_spec()),
    ensures
        w.start_spec() <= pos < w.end_spec(),
        (if n < w.end_spec() - pos { n as int } else { w.end_spec() - pos }) == k,
        forall|j: int|
            0 <= j < k ==> #[trigger] w.bytes()[pos - w.start_spec() + j] == produced[pos + j],
{
}

/// Once appends of `pieces` in order are followed by `complete`, the frozen
/// chunks hold exactly the concatenated pieces, and every chunk but the last
/// holds `chunk_size` bytes.
pub proof fn law_chunking(w: MVecBytesWrapper, pieces: Seq<Seq<u8>>)
    requires
        w.wf(),
        w.is_completed(),
        w.stream() == pieces.flatten(),
    ensures
        w.frozen().flatten() == pieces.flatten(),
        forall|i: int| 0 <= i < w.frozen().len() - 1 ==> #[trigger] w.frozen()[i].len() == w.size(),
        forall|i: int| 0 <= i < w.frozen().len() ==> 0 < #[trigger] w.frozen()[i].len() <= w.size(),
{
    assert(w.stream() =~= w.produced());
}

/// A read never waits once the stream is complete or cancelled, and with
/// nothing left it reports the end.
pub proof fn law_read_ends(produced: Seq<u8>, completed: bool, cancelled: bool, pos: u64, n: nat)
    requires
        completed || cancelled,
    ensures
        read_outcome(produced, completed, cancelled, pos, n) is Some,
        pos >= produced.len() ==> read_outcome(produced, completed, cancelled, pos, n) == Some(
            0nat,
        ),
{
}

/// Every chunk holds exactly `size` bytes.
pub open spec fn all_full(cs: Seq<Seq<u8>>, size: nat) -> bool {
    forall|i: int| 0 <= i < cs.len() ==> #[trigger] cs[i].len() == size
}

proof fn lemma_push_regular(cs: Seq<Seq<u8>>, c: Seq<u8>, size: nat)
    requires
        regular_chunks(cs, size),
        all_full(cs, size),
        0 < c.len() <= size,
    ensures
        regular_chunks(cs.push(c), size),
        c.len() == size ==> all_full(cs.push(c), size),
{
    assert forall|i: int| 0 <= i < cs.push(c).len() implies 0 < #[trigger] cs.push(c)[i].len()
        <= size by {
        if i < cs.len() {
            assert(cs.push(c)[i] == cs[i]);
        }
    }
    assert forall|i: int| 0 <= i < cs.push(c).len() - 1 implies #[trigger] cs.push(c)[i].len()
        == size by {
        assert(cs.push(c)[i] == cs[i]);
    }
    if c.len() == size {
        assert forall|i: int| 0 <= i < cs.push(c).len() implies #[trigger] cs.push(c)[i].len()
            == size by {
            if i < cs.len() {
                assert(cs.push(c)[i] == cs[i]);
            }
        }
    }
}

impl MVecBytesWrapper {
    /// Replaces the chunk being filled by an empty one and freezes the old one.
    fn freeze_tail(&mut self)
        requires
            old(self).fields_agree(),
            old(self).produced().len() + old(self).tail().len() <= usize::MAX,
        ensures
            final(self).fields_agree(),
            final(self).frozen() == old(self).frozen().push(old(self).tail()),
            final(self).produced() == old(self).produced() + old(self).tail(),
            final(self).tail() == Seq::<u8>::empty(),
            final(self).completed == old(self).completed,
            final(self).chunk_size == old(self).chunk_size,
    {
        let mut fresh = new_chunk(self.chunk_size);
        std::mem::swap(&mut self.current_chunk, &mut fresh);
        let frozen = freeze_chunk(fresh);
        self.push_frozen(frozen);
    }
}

impl AppendableDataWrapper for MVecBytesWrapper {
    open spec fn contents(&self) -> Seq<u8> {
        self.stream()
    }

    open spec fn is_complete(&self) -> bool {
        self.is_completed()
    }

    open spec fn inv(&self) -> bool {
        self.wf()
    }

    /// Fills the chunk being built; each time it reaches the chunk size it is
    /// frozen, and whole chunks are cut straight from the rest of `slice`.
    fn append_data(&mut self, slice: &[u8])
        ensures
            old(self).frozen().is_prefix_of(final(self).frozen()),
            final(self).size() == old(self).size(),
    {
        if self.completed {
            assert(self.frozen().is_prefix_of(self.frozen()));
            return;
        }
        let ghost old_stream = self.stream();
        let ghost old_frozen = self.frozen();
        let cur = chunk_len(&self.current_chunk);
        let cs = self.chunk_size;
        if slice.len() <= cs - cur {
            extend_chunk(&mut self.current_chunk, slice);
            if cur + slice.len() == cs {
                let ghost t = self.tail();
                self.freeze_tail();
                proof {
                    lemma_push_regular(old_frozen, t, cs as nat);
                    assert(self.stream() =~= old_stream + slice@);
                }
            } else {
                assert(self.stream() =~= old_stream + slice@);
            }
        } else {
            let mut offset: usize = 0;
            if cur != 0 {
                let first = cs - cur;
                extend_chunk(&mut self.current_chunk, slice_subrange(slice, 0, first));
                let ghost t = self.tail();
                self.freeze_tail();
                proof {
                    lemma_push_regular(old_frozen, t, cs as nat);
                    assert(self.produced() =~= old_stream + slice@.subrange(0, first as int));
                }
                offset = first;
            } else {
                assert(self.produced() =~= old_stream + slice@.subrange(0, 0));
            }
            while slice.len() - offset >= cs
                invariant
                    offset <= slice.len(),
                    self.chunk_size == cs,
                    cs > 0,
                    !self.completed,
                    self.fields_agree(),
                    regular_chunks(self.frozen(), cs as nat),
                    all_full(self.frozen(), cs as nat),
                    self.tail() == Seq::<u8>::empty(),
                    self.produced() == old_stream + slice@.subrange(0, offset as int),
                    old_stream.len() + slice@.len() <= usize::MAX,
                    old_frozen.is_prefix_of(self.frozen()),
                decreases slice.len() - offset,
            {
                let ghost before = self.frozen();
                let piece = copy_chunk(slice_subrange(slice, offset, offset + cs));
                self.push_frozen(piece);
                proof {
                    lemma_push_regular(before, bytes_view(piece), cs as nat);
                    assert(self.produced() =~= old_stream + slice@.subrange(
                        0,
                        offset + cs,
                    ));
                    assert(old_frozen.is_prefix_of(self.frozen()));
                }
                offset = offset + cs;
            }
            if offset < slice.len() {
                extend_chunk(&mut self.current_chunk, slice_subrange(slice, offset, slice.len()));
            }
            assert(self.stream() =~= old_stream + slice@);
        }
    }

    /// Freezes a non-empty chunk being filled and marks the buffer complete.
    fn complete(&mut self)
        ensures
            final(self).size() == old(self).size(),
            old(self).frozen().is_prefix_of(final(self).frozen()),
    {
        let ghost old_frozen = self.frozen();
        if chunk_len(&self.current_chunk) > 0 {
            let ghost t = self.tail();
            self.freeze_tail();
            proof {
                lemma_push_regular(old_frozen, t, self.size());
                assert(self.stream() =~= old(self).stream());
            }
        } else {
            assert(self.stream() =~= old(self).stream());
            assert(old_frozen.is_prefix_of(self.frozen()));
        }
        self.completed = true;
    }

    /// Reserves room in the chunk list for a stream of `capacity` bytes.
    fn set_capacity(&mut self, capacity: usize)
        ensures
            final(self).frozen() == old(self).frozen(),
            final(self).tail() == old(self).tail(),
            final(self).size() == old(self).size(),
    {
        let cs = self.chunk_size;
        let whole = capacity / cs;
        let slots = if capacity % cs == 0 || whole == usize::MAX { whole } else { whole + 1 };
        let additional = if slots > self.data.len() { slots - self.data.len() } else { 0 };
        self.data.reserve(additional);
    }
}

} // verus!
