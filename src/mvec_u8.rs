//! The flat buffer: every appended byte goes into one growing vector, and a
//! reader copies from it by absolute position.

use vstd::prelude::*;
use tokio_util::sync::CancellationToken;
use crate::cancel::{new_token, share_token, token_is_cancelled};
use crate::mvec_bytes::{copied, read_outcome};
use crate::reader::{
    seek_position, seek_target, AppendableDataWrapper, ReadStep, SeekError, SeekFrom,
};

verus! {

/// All bytes received so far, and whether the producer has finished.
pub struct MVecU8Wrapper {
    data: Vec<u8>,
    completed: bool,
}

impl MVecU8Wrapper {
    pub closed spec fn bytes(&self) -> Seq<u8> {
        self.data@
    }

    pub closed spec fn is_completed(&self) -> bool {
        self.completed
    }

    /// An empty, open buffer.
    pub fn new() -> (r: Self)
        ensures
            r.bytes() == Seq::<u8>::empty(),
            !r.is_completed(),
    {
        MVecU8Wrapper { data: Vec::new(), completed: false }
    }

    /// The bytes received so far.
    pub fn data(&self) -> (r: &Vec<u8>)
        ensures
            r@ == self.bytes(),
    {
        &self.data
    }

    pub fn completed(&self) -> (r: bool)
        ensures
            r == self.is_completed(),
    {
        self.completed
    }
}

impl AppendableDataWrapper for MVecU8Wrapper {
    open spec fn contents(&self) -> Seq<u8> {
        self.bytes()
    }

    open spec fn is_complete(&self) -> bool {
        self.is_completed()
    }

    open spec fn inv(&self) -> bool {
        true
    }

    fn append_data(&mut self, slice: &[u8]) {
        if !self.completed {
            self.data.extend_from_slice(slice);
        }
    }

    fn complete(&mut self) {
        self.completed = true;
    }

    fn set_capacity(&mut self, capacity: usize) {
        let held = self.data.len();
        if capacity > held {
            self.data.reserve(capacity - held);
        }
    }
}

/// A seekable reader over the bytes of a [`MVecU8Wrapper`].
pub struct MVecU8Reader {
    pos: u64,
    cancellation_token: CancellationToken,
}

impl MVecU8Reader {
    pub closed spec fn position_spec(&self) -> u64 {
        self.pos
    }

    /// A reader at position zero.
    pub fn new() -> (r: Self)
        ensures
            r.position_spec() == 0,
    {
        MVecU8Reader { pos: 0, cancellation_token: new_token() }
    }

    /// A handle to this reader's cancellation signal.
    pub fn cancellation_token(&self) -> CancellationToken {
        share_token(&self.cancellation_token)
    }

    pub fn position(&self) -> (r: u64)
        ensures
            r == self.position_spec(),
    {
        self.pos
    }

    /// One read attempt with the cancellation signal read as `cancelled`:
    /// copies up to `buf.len()` available bytes, reports the end (zero) once
    /// the stream is complete or cancelled, or asks the caller to wait.
    pub fn read_step(&mut self, data: &MVecU8Wrapper, cancelled: bool, buf: &mut [u8]) -> (r:
        ReadStep)
        ensures
            match read_outcome(
                data.bytes(),
                data.is_completed(),
                cancelled,
                old(self).position_spec(),
                old(buf)@.len(),
            ) {
                None => r == ReadStep::Wait && final(self).position_spec() == old(
                    self,
                ).position_spec() && final(buf)@ == old(buf)@,
                Some(k) => r == ReadStep::Read(k as usize) && final(self).position_spec()
                    == old(self).position_spec() + k && copied(
                    old(buf)@,
                    final(buf)@,
                    data.bytes(),
                    old(self).position_spec() as int,
                    k,
                ),
            },
    {
        let bytes = data.data();
        if self.pos >= bytes.len() as u64 {
            if data.completed() || cancelled {
                return ReadStep::Read(0);
            } else {
                return ReadStep::Wait;
            }
        }
        let p = self.pos as usize;
        let avail = bytes.len() - p;
        let k = if buf.len() < avail { buf.len() } else { avail };
        let ghost old_buf = buf@;
        let mut i: usize = 0;
        while i < k
            invariant
                p + k <= bytes@.len(),
                bytes@.len() <= usize::MAX,
                i <= k,
                k <= old_buf.len(),
                buf@.len() == old_buf.len(),
                forall|j: int| 0 <= j < i ==> #[trigger] buf@[j] == bytes@[p + j],
                forall|j: int| k <= j < old_buf.len() ==> #[trigger] buf@[j] == old_buf[j],
            decreases k - i,
        {
            buf[i] = bytes[p + i];
            i = i + 1;
        }
        self.pos = self.pos + k as u64;
        ReadStep::Read(k)
    }

    /// One read attempt that consults the reader's cancellation signal.
    pub fn try_read(&mut self, data: &MVecU8Wrapper, buf: &mut [u8]) -> (r: ReadStep)
        ensures
            exists|cancelled: bool|
                match #[trigger] read_outcome(
                    data.bytes(),
                    data.is_completed(),
                    cancelled,
                    old(self).position_spec(),
                    old(buf)@.len(),
                ) {
                    None => r == ReadStep::Wait && final(self).position_spec() == old(
                        self,
                    ).position_spec() && final(buf)@ == old(buf)@,
                    Some(k) => r == ReadStep::Read(k as usize) && final(self).position_spec()
                        == old(self).position_spec() + k && copied(
                        old(buf)@,
                        final(buf)@,
                        data.bytes(),
                        old(self).position_spec() as int,
                        k,
                    ),
                },
    {
        let cancelled = token_is_cancelled(&self.cancellation_token);
        self.read_step(data, cancelled, buf)
    }

    /// Moves the position; seeking from the end, or to a position below
    /// zero or beyond the largest, is refused and leaves it unchanged.
    pub fn seek(&mut self, from: SeekFrom) -> (r: Result<u64, SeekError>)
        ensures
            r == seek_target(old(self).position_spec(), from),
            match r {
                Ok(t) => final(self).position_spec() == t,
                Err(_) => final(self).position_spec() == old(self).position_spec(),
            },
    {
        match seek_position(self.pos, from) {
            Ok(t) => {
                self.pos = t;
                Ok(t)
            },
            Err(e) => Err(e),
        }
    }
}

} // verus!
