//! What a byte container fed by a producer offers, and the outcome of one
//! read attempt by a consumer.

use vstd::prelude::*;

verus! {

/// A byte container that a producer fills in order and then closes.
pub trait AppendableDataWrapper: Sized {
    /// Every byte appended so far, in order.
    spec fn contents(&self) -> Seq<u8>;

    /// Whether the producer has closed the container.
    spec fn is_complete(&self) -> bool;

    /// The container's internal invariant.
    spec fn inv(&self) -> bool;

    /// Appends `slice`; once the container is closed this does nothing.
    fn append_data(&mut self, slice: &[u8])
        requires
            old(self).inv(),
            old(self).contents().len() + slice@.len() <= usize::MAX,
        ensures
            final(self).inv(),
            final(self).is_complete() == old(self).is_complete(),
            final(self).contents() == if old(self).is_complete() {
                old(self).contents()
            } else {
                old(self).contents() + slice@
            },
    ;

    /// Closes the container: no byte is appended after this.
    fn complete(&mut self)
        requires
            old(self).inv(),
        ensures
            final(self).inv(),
            final(self).is_complete(),
            final(self).contents() == old(self).contents(),
    ;

    /// Prepares room for a stream of `capacity` bytes; the contents stay.
    fn set_capacity(&mut self, capacity: usize)
        requires
            old(self).inv(),
        ensures
            final(self).inv(),
            final(self).is_complete() == old(self).is_complete(),
            final(self).contents() == old(self).contents(),
    ;
}

/// The outcome of one read attempt.
#[derive(Clone, Copy, Debug, PartialEq, Eq, Structural)]
pub enum ReadStep {
    /// This many bytes were copied; zero means end of stream or cancelled.
    Read(usize),
    /// No byte is available yet: wait for the producer's signal and retry.
    Wait,
}

/// Where a seek is measured from.
#[derive(Clone, Copy, Debug, PartialEq, Eq, Structural)]
pub enum SeekFrom {
    Start(u64),
    End(i64),
    Current(i64),
}

/// Why a seek was refused.
#[derive(Clone, Copy, Debug, PartialEq, Eq, Structural)]
pub enum SeekError {
    /// Seeking relative to the end is not offered: the length may be unknown.
    EndUnsupported,
    /// The target lies before the start or beyond the largest position.
    InvalidPosition,
}

/// The outcome of a seek from `pos`: the new position, or why there is none.
pub open spec fn seek_target(pos: u64, from: SeekFrom) -> Result<u64, SeekError> {
    match from {
        SeekFrom::Start(n) => Ok(n),
        SeekFrom::Current(d) => if 0 <= pos + d <= u64::MAX {
            Ok((pos + d) as u64)
        } else {
            Err(SeekError::InvalidPosition)
        },
        SeekFrom::End(_) => Err(SeekError::EndUnsupported),
    }
}

/// A seek relative to the current position lands where a seek from the
/// start to the sum does, whenever the sum is a valid position.
pub proof fn law_seek_current(pos: u64, d: i64)
    requires
        0 <= pos + d <= u64::MAX,
    ensures
        seek_target(pos, SeekFrom::Current(d)) == seek_target(
            pos,
            SeekFrom::Start((pos + d) as u64),
        ),
{
}

/// Moves a read position as `from` says.
pub fn seek_position(pos: u64, from: SeekFrom) -> (r: Result<u64, SeekError>)
    ensures
        r == seek_target(pos, from),
{
    match from {
        SeekFrom::Start(n) => Ok(n),
        SeekFrom::Current(d) => {
            if d >= 0 {
                let up = d as u64;
                if up <= u64::MAX - pos {
                    Ok(pos + up)
                } else {
                    Err(SeekError::InvalidPosition)
                }
            } else {
                let down: u64 = if d == i64::MIN {
                    0x8000_0000_0000_0000
                } else {
                    (-d) as u64
                };
                if down <= pos {
                    Ok(pos - down)
                } else {
                    Err(SeekError::InvalidPosition)
                }
            }
        },
        SeekFrom::End(_) => Err(SeekError::EndUnsupported),
    }
}

} // verus!
