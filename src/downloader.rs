//! The download lifecycle: the decisions taken on each step of an HTTP
//! download that streams its body into a byte container.

use vstd::prelude::*;
use vstd::std_specs::iter::IteratorSpec;
use crate::events::LoaderEvent;
use crate::reader::AppendableDataWrapper;

verus! {

/// Where a download stands.
#[derive(Clone, Copy, Debug, PartialEq, Eq, Structural)]
pub enum DownloadStatus {
    NotStarted,
    Downloading,
    Completed,
    Aborted,
}

/// What a download reports.
#[derive(Clone, Copy, Debug, PartialEq, Eq, Structural)]
pub enum DownloadEvent {
    /// The response headers arrived.
    HeaderReceived,
    /// The whole body arrived.
    Completed,
    /// The download was interrupted.
    Aborted,
}

/// The value of a decimal numeral: ASCII digits, most significant first.
pub open spec fn digits_value(s: Seq<char>) -> int
    decreases s.len(),
{
    if s.len() == 0 {
        0
    } else {
        digits_value(s.drop_last()) * 10 + (s.last() as int - '0' as int)
    }
}

/// `s` is a numeral of one or more ASCII digits.
pub open spec fn is_numeral(s: Seq<char>) -> bool {
    &&& s.len() > 0
    &&& forall|i: int| 0 <= i < s.len() ==> '0' <= #[trigger] s[i] <= '9'
}

/// The `u64` that `s` spells in decimal: an optional `+` followed by digits,
/// with no other character, whose value fits.
pub open spec fn decimal_u64(s: Seq<char>) -> Option<u64> {
    let d = if s.len() > 0 && s[0] == '+' {
        s.subrange(1, s.len() as int)
    } else {
        s
    };
    if is_numeral(d) && digits_value(d) <= u64::MAX {
        Some(digits_value(d) as u64)
    } else {
        None
    }
}

/// What a left-to-right scan of `all` knows after its first `i` characters:
/// whether a leading `+` was skipped, whether a digit was seen, whether a
/// character other than a digit was met, and the value so far or that it no
/// longer fits.
spec fn scanned(
    all: Seq<char>,
    i: int,
    plus: bool,
    seen: bool,
    bad: bool,
    overflow: bool,
    value: u64,
) -> bool {
    let base: int = if plus { 1 } else { 0 };
    let d = all.subrange(base, i);
    &&& 0 <= i <= all.len()
    &&& plus == (i > 0 && all[0] == '+')
    &&& seen == (i > base)
    &&& !bad == (forall|j: int| base <= j < i ==> '0' <= #[trigger] all[j] <= '9')
    &&& !bad && !overflow ==> value as int == digits_value(d)
    &&& !bad && overflow ==> digits_value(d) > u64::MAX
}

proof fn lemma_digits_nonneg(s: Seq<char>)
    requires
        forall|j: int| 0 <= j < s.len() ==> '0' <= #[trigger] s[j] <= '9',
    ensures
        digits_value(s) >= 0,
    decreases s.len(),
{
    if s.len() > 0 {
        assert(forall|j: int| 0 <= j < s.drop_last().len() ==> s.drop_last()[j] == s[j]);
        lemma_digits_nonneg(s.drop_last());
    }
}

/// The `u64` that `s` spells in decimal, as `str::parse::<u64>` reads it:
/// an optional `+` and one or more ASCII digits whose value fits.
fn parse_u64(s: &str) -> (r: Option<u64>)
    ensures
        r == decimal_u64(s@),
{
    broadcast use vstd::string::axiom_spec_iter, vstd::string::next_postcondition;

    let ghost all = s@;
    let mut chars = s.chars();
    let ghost mut i: int = 0;
    let mut first = true;
    let mut plus = false;
    let mut seen = false;
    let mut bad = false;
    let mut overflow = false;
    let mut value: u64 = 0;
    proof {
        assert(all.subrange(0, 0) =~= Seq::<char>::empty());
    }
    loop
        invariant
            chars.obeys_prophetic_iter_laws(),
            chars.remaining() == all.subrange(i, all.len() as int),
            first == (i == 0),
            scanned(all, i, plus, seen, bad, overflow, value),
        ensures
            i == all.len(),
            scanned(all, i, plus, seen, bad, overflow, value),
        decreases all.len() - i,
    {
        let ghost before = chars.remaining();
        match chars.next() {
            None => {
                assert(before.len() == 0);
                break;
            },
            Some(c) => {
                assert(c == all[i]);
                let ghost base: int = if plus { 1int } else { 0int };
                let ghost prev = all.subrange(base, i);
                if first && c == '+' {
                    plus = true;
                    proof {
                        assert(all.subrange(1, 1) =~= Seq::<char>::empty());
                    }
                } else if '0' <= c && c <= '9' {
                    let d = (c as u32 - '0' as u32) as u64;
                    proof {
                        let next = all.subrange(base, i + 1);
                        assert(next.drop_last() =~= prev);
                        assert(next.last() == c);
                        assert(digits_value(next) == digits_value(prev) * 10 + d);
                        if !bad {
                            lemma_digits_nonneg(prev);
                        }
                    }
                    if !overflow {
                        if value <= (u64::MAX - d) / 10 {
                            value = value * 10 + d;
                        } else {
                            proof {
                                vstd::arithmetic::div_mod::lemma_fundamental_div_mod(
                                    (u64::MAX - d) as int,
                                    10,
                                );
                            }
                            overflow = true;
                        }
                    }
                    seen = true;
                } else {
                    bad = true;
                    seen = true;
                }
                first = false;
                proof {
                    i = i + 1;
                    assert(chars.remaining() =~= all.subrange(i, all.len() as int));
                }
            },
        }
    }
    let ghost base: int = if plus { 1int } else { 0int };
    proof {
        let d = if all.len() > 0 && all[0] == '+' {
            all.subrange(1, all.len() as int)
        } else {
            all
        };
        assert(d =~= all.subrange(base, all.len() as int));
        if !bad {
            assert forall|j: int| 0 <= j < d.len() implies '0' <= #[trigger] d[j] <= '9' by {
                assert(d[j] == all[base + j]);
            }
        } else {
            let j = choose|j: int| base <= j < all.len() && !('0' <= #[trigger] all[j] <= '9');
            assert(d[j - base] == all[j]);
        }
        assert(is_numeral(d) == (seen && !bad));
    }
    if bad || !seen || overflow {
        None
    } else {
        Some(value)
    }
}

/// The stream length that a `Content-Length` header gives: its value when
/// it is a decimal number, else zero (unknown).
pub open spec fn content_length_spec(header: Option<Seq<char>>) -> u64 {
    match header {
        Some(h) => match decimal_u64(h) {
            Some(v) => v,
            None => 0,
        },
        None => 0,
    }
}

pub fn content_length_of(header: Option<&str>) -> (r: u64)
    ensures
        r == content_length_spec(
            match header {
                Some(h) => Some(h@),
                None => None,
            },
        ),
{
    match header {
        Some(h) => match parse_u64(h) {
            Some(v) => v,
            None => 0,
        },
        None => 0,
    }
}

/// The event that the player passes on to its user for a download event.
pub open spec fn loader_event_spec(e: DownloadEvent) -> Option<LoaderEvent> {
    match e {
        DownloadEvent::HeaderReceived => None,
        DownloadEvent::Completed => Some(LoaderEvent::Completed),
        DownloadEvent::Aborted => Some(LoaderEvent::Aborted),
    }
}

pub fn loader_event(e: DownloadEvent) -> (r: Option<LoaderEvent>)
    ensures
        r == loader_event_spec(e),
{
    match e {
        DownloadEvent::HeaderReceived => None,
        DownloadEvent::Completed => Some(LoaderEvent::Completed),
        DownloadEvent::Aborted => Some(LoaderEvent::Aborted),
    }
}

/// The state of one download into the container `data`.
pub struct Downloader<W: AppendableDataWrapper> {
    data: W,
    status: DownloadStatus,
    total_bytes: u64,
    downloaded_bytes: u64,
    download_called: bool,
    should_abort: bool,
    download_completed: bool,
}

impl<W: AppendableDataWrapper> Downloader<W> {
    pub closed spec fn status_spec(&self) -> DownloadStatus {
        self.status
    }

    pub closed spec fn total_spec(&self) -> u64 {
        self.total_bytes
    }

    pub closed spec fn downloaded_spec(&self) -> u64 {
        self.downloaded_bytes
    }

    pub closed spec fn aborting(&self) -> bool {
        self.should_abort
    }

    pub closed spec fn completed_spec(&self) -> bool {
        self.download_completed
    }

    pub closed spec fn data_spec(&self) -> W {
        self.data
    }

    pub closed spec fn wf(&self) -> bool {
        &&& self.data.inv()
        &&& self.downloaded_bytes as int == self.data.contents().len()
        &&& self.download_completed == self.data.is_complete()
        &&& self.download_called == (self.status != DownloadStatus::NotStarted)
        &&& self.should_abort ==> self.status == DownloadStatus::Aborted
        &&& self.data.is_complete() ==> (self.status == DownloadStatus::Completed
            || self.status == DownloadStatus::Aborted)
    }

    /// What a well-formed download promises of its container: it is valid,
    /// the downloaded count is its length, and the completion flag is its
    /// closed state.
    pub proof fn lemma_wf(&self)
        requires
            self.wf(),
        ensures
            self.data_spec().inv(),
            self.downloaded_spec() as int == self.data_spec().contents().len(),
            self.completed_spec() == self.data_spec().is_complete(),
            self.aborting() ==> self.status_spec() == DownloadStatus::Aborted,
            self.status_spec() == DownloadStatus::Downloading ==> !self.data_spec().is_complete(),
    {
    }

    /// Once an abort has been asked for, the download is aborted for good:
    /// no step brings it back, and every later piece of body is refused.
    pub proof fn law_abort_is_final(&self)
        requires
            self.wf(),
            self.aborting(),
        ensures
            self.status_spec() == DownloadStatus::Aborted,
    {
    }

    /// A download, not started, into the empty and open container `data`.
    pub fn new(data: W) -> (r: Self)
        requires
            data.inv(),
            data.contents().len() == 0,
            !data.is_complete(),
        ensures
            r.wf(),
            r.status_spec() == DownloadStatus::NotStarted,
            r.total_spec() == 0,
            r.downloaded_spec() == 0,
            !r.aborting(),
            !r.completed_spec(),
            r.data_spec() == data,
    {
        Downloader {
            data,
            status: DownloadStatus::NotStarted,
            total_bytes: 0,
            downloaded_bytes: 0,
            download_called: false,
            should_abort: false,
            download_completed: false,
        }
    }

    pub fn status(&self) -> (r: DownloadStatus)
        ensures
            r == self.status_spec(),
    {
        self.status
    }

    /// The stream length announced by the server, zero when unknown.
    pub fn total_bytes(&self) -> (r: u64)
        ensures
            r == self.total_spec(),
    {
        self.total_bytes
    }

    pub fn downloaded_bytes(&self) -> (r: u64)
        ensures
            r == self.downloaded_spec(),
    {
        self.downloaded_bytes
    }

    /// Whether the whole body has been stored.
    pub fn download_completed(&self) -> (r: bool)
        ensures
            r == self.completed_spec(),
    {
        self.download_completed
    }

    /// Whether an abort has been asked for.
    pub fn should_abort(&self) -> (r: bool)
        ensures
            r == self.aborting(),
    {
        self.should_abort
    }

    /// The container the body is stored in.
    pub fn data(&self) -> (r: &W)
        ensures
            *r == self.data_spec(),
    {
        &self.data
    }

    /// Starts the download; a download is started at most once.
    pub fn begin(&mut self)
        requires
            old(self).wf(),
            old(self).status_spec() == DownloadStatus::NotStarted,
        ensures
            final(self).wf(),
            final(self).status_spec() == DownloadStatus::Downloading,
            final(self).data_spec() == old(self).data_spec(),
            final(self).total_spec() == old(self).total_spec(),
            final(self).downloaded_spec() == old(self).downloaded_spec(),
            final(self).aborting() == old(self).aborting(),
    {
        self.download_called = true;
        self.status = DownloadStatus::Downloading;
    }

    /// The request could not be sent: the download is aborted.
    pub fn request_failed(&mut self) -> (r: DownloadEvent)
        requires
            old(self).wf(),
        ensures
            final(self).wf(),
            r == DownloadEvent::Aborted,
            final(self).status_spec() == DownloadStatus::Aborted,
            final(self).data_spec() == old(self).data_spec(),
            final(self).aborting() == old(self).aborting(),
            final(self).total_spec() == old(self).total_spec(),
            final(self).downloaded_spec() == old(self).downloaded_spec(),
            final(self).completed_spec() == old(self).completed_spec(),
    {
        self.download_called = true;
        self.status = DownloadStatus::Aborted;
        DownloadEvent::Aborted
    }

    /// The response headers arrived with `content_length` as the value of
    /// `Content-Length`: the announced length is kept and room is reserved.
    pub fn headers_received(&mut self, content_length: Option<&str>) -> (r: DownloadEvent)
        requires
            old(self).wf(),
        ensures
            final(self).wf(),
            r == DownloadEvent::HeaderReceived,
            final(self).total_spec() == content_length_spec(
                match content_length {
                    Some(h) => Some(h@),
                    None => None,
                },
            ),
            final(self).status_spec() == old(self).status_spec(),
            final(self).downloaded_spec() == old(self).downloaded_spec(),
            final(self).aborting() == old(self).aborting(),
            final(self).data_spec().contents() == old(self).data_spec().contents(),
            final(self).data_spec().is_complete() == old(self).data_spec().is_complete(),
    {
        let total = content_length_of(content_length);
        self.total_bytes = total;
        let room: usize = if total <= usize::MAX as u64 {
            total as usize
        } else {
            usize::MAX
        };
        self.data.set_capacity(room);
        DownloadEvent::HeaderReceived
    }

    /// A piece of the body arrived. When an abort was asked for, or the
    /// task was cancelled, the download ends as aborted and reports it;
    /// otherwise the piece is stored and counted.
    pub fn receive_chunk(&mut self, chunk: &[u8], cancelled: bool) -> (r: Option<DownloadEvent>)
        requires
            old(self).wf(),
            old(self).status_spec() == DownloadStatus::Downloading || old(self).aborting(),
            old(self).data_spec().contents().len() + chunk@.len() <= usize::MAX,
        ensures
            final(self).wf(),
            final(self).total_spec() == old(self).total_spec(),
            final(self).aborting() == old(self).aborting(),
            if old(self).aborting() || cancelled {
                &&& r == Some(DownloadEvent::Aborted)
                &&& final(self).status_spec() == DownloadStatus::Aborted
                &&& final(self).data_spec() == old(self).data_spec()
                &&& final(self).downloaded_spec() == old(self).downloaded_spec()
            } else {
                &&& r == None::<DownloadEvent>
                &&& final(self).status_spec() == DownloadStatus::Downloading
                &&& final(self).data_spec().contents() == old(self).data_spec().contents()
                    + chunk@
                &&& !final(self).data_spec().is_complete()
                &&& final(self).downloaded_spec() == old(self).downloaded_spec() + chunk@.len()
            },
    {
        if self.should_abort || cancelled {
            self.status = DownloadStatus::Aborted;
            return Some(DownloadEvent::Aborted);
        }
        self.data.append_data(chunk);
        self.downloaded_bytes = self.downloaded_bytes + chunk.len() as u64;
        None
    }

    /// The body stream failed: a running download ends as aborted, and its
    /// container is closed so that a reader consumes what was stored and
    /// then sees the end of the stream.
    pub fn body_failed(&mut self) -> (r: Option<DownloadEvent>)
        requires
            old(self).wf(),
        ensures
            final(self).wf(),
            final(self).aborting() == old(self).aborting(),
            final(self).total_spec() == old(self).total_spec(),
            final(self).downloaded_spec() == old(self).downloaded_spec(),
            final(self).data_spec().contents() == old(self).data_spec().contents(),
            if old(self).status_spec() == DownloadStatus::Downloading {
                &&& r == Some(DownloadEvent::Aborted)
                &&& final(self).status_spec() == DownloadStatus::Aborted
                &&& final(self).completed_spec()
                &&& final(self).data_spec().is_complete()
            } else {
                &&& r == None::<DownloadEvent>
                &&& final(self).status_spec() == old(self).status_spec()
                &&& final(self).data_spec() == old(self).data_spec()
                &&& final(self).completed_spec() == old(self).completed_spec()
            },
    {
        if self.status == DownloadStatus::Downloading {
            self.data.complete();
            self.download_completed = true;
            self.status = DownloadStatus::Aborted;
            Some(DownloadEvent::Aborted)
        } else {
            None
        }
    }

    /// The body stream ended: a running download closes its container and
    /// ends as completed.
    pub fn body_finished(&mut self) -> (r: Option<DownloadEvent>)
        requires
            old(self).wf(),
        ensures
            final(self).wf(),
            final(self).aborting() == old(self).aborting(),
            final(self).total_spec() == old(self).total_spec(),
            final(self).downloaded_spec() == old(self).downloaded_spec(),
            final(self).data_spec().contents() == old(self).data_spec().contents(),
            if old(self).status_spec() == DownloadStatus::Downloading {
                &&& r == Some(DownloadEvent::Completed)
                &&& final(self).status_spec() == DownloadStatus::Completed
                &&& final(self).completed_spec()
                &&& final(self).data_spec().is_complete()
            } else {
                &&& r == None::<DownloadEvent>
                &&& final(self).status_spec() == old(self).status_spec()
                &&& final(self).data_spec() == old(self).data_spec()
                &&& final(self).completed_spec() == old(self).completed_spec()
            },
    {
        if self.status == DownloadStatus::Downloading {
            self.data.complete();
            self.status = DownloadStatus::Completed;
            self.download_completed = true;
            Some(DownloadEvent::Completed)
        } else {
            None
        }
    }

    /// Interrupts a running download; any other state is refused and
    /// returned.
    pub fn abort(&mut self) -> (r: Result<(), DownloadStatus>)
        requires
            old(self).wf(),
        ensures
            final(self).wf(),
            final(self).data_spec() == old(self).data_spec(),
            final(self).total_spec() == old(self).total_spec(),
            final(self).downloaded_spec() == old(self).downloaded_spec(),
            final(self).completed_spec() == old(self).completed_spec(),
            if old(self).status_spec() == DownloadStatus::Downloading {
                &&& r == Ok::<(), DownloadStatus>(())
                &&& final(self).status_spec() == DownloadStatus::Aborted
                &&& final(self).aborting()
            } else {
                &&& r == Err::<(), DownloadStatus>(old(self).status_spec())
                &&& final(self).status_spec() == old(self).status_spec()
                &&& final(self).aborting() == old(self).aborting()
            },
    {
        if self.status != DownloadStatus::Downloading {
            return Err(self.status);
        }
        self.should_abort = true;
        self.status = DownloadStatus::Aborted;
        Ok(())
    }

    /// The download's owner lets go of it: whatever its state, it is
    /// aborted and every later piece of body is refused.
    pub fn shut_down(&mut self)
        requires
            old(self).wf(),
        ensures
            final(self).wf(),
            final(self).status_spec() == DownloadStatus::Aborted,
            final(self).aborting(),
            final(self).data_spec() == old(self).data_spec(),
            final(self).total_spec() == old(self).total_spec(),
            final(self).downloaded_spec() == old(self).downloaded_spec(),
            final(self).completed_spec() == old(self).completed_spec(),
    {
        self.download_called = true;
        self.should_abort = true;
        self.status = DownloadStatus::Aborted;
    }
}

} // verus!
