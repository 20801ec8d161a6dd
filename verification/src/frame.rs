//! Reading until a marker shows up: bytes from the device gather in one
//! buffer, and the reader stops as soon as a needle lies anywhere in that
//! buffer, or when its time is up.

use vstd::prelude::*;
use crate::error::{Error, ErrorView};
use crate::link::{copy_bytes, elapsed, elapsed_ms, Reply, ReplyView, Request, RequestView};
use crate::search::{contains, contains_bytes, occurs_at};

verus! {

/// How long a reader may go on polling.
#[derive(Clone, Copy, Debug, PartialEq, Eq, Structural)]
pub enum Budget {
    /// Polling stops once more than this many milliseconds have passed.
    AtMost(u64),
    /// Polling stops once this many milliseconds have passed.
    Under(u64),
}

impl Budget {
    /// No time is left after `elapsed` milliseconds.
    pub open spec fn spent(self, elapsed: u64) -> bool {
        match self {
            Budget::AtMost(ms) => elapsed > ms,
            Budget::Under(ms) => elapsed >= ms,
        }
    }

    /// Whether no time is left after `elapsed` milliseconds.
    pub fn is_spent(&self, elapsed: u64) -> (r: bool)
        ensures
            r == self.spent(elapsed),
    {
        match self {
            Budget::AtMost(ms) => elapsed > *ms,
            Budget::Under(ms) => elapsed >= *ms,
        }
    }
}

/// Where a reader stands.
#[derive(Clone, Copy, Debug, PartialEq, Eq, Structural)]
pub enum ReaderPhase {
    /// Not begun.
    Idle,
    /// A read is out.
    Reading,
    /// A pause after a read error is out.
    Pausing,
    /// Over: a needle lies in the buffer.
    Found,
    /// Over: the time was up first.
    Expired,
    /// Over: the transport failed.
    Failed,
}

/// The mathematical state of a [`FrameReader`].
pub struct ReaderState {
    /// The marker to look for.
    pub needle: Seq<u8>,
    /// A second marker that ends the wait as well, if any.
    pub alt: Option<Seq<u8>>,
    pub budget: Budget,
    /// The pause after a read error, in milliseconds.
    pub pause_ms: u64,
    /// The most bytes asked for in one read.
    pub chunk: usize,
    /// When polling began.
    pub started: u64,
    /// Everything read so far.
    pub buf: Seq<u8>,
    pub phase: ReaderPhase,
    /// The transport's text, once the phase is `Failed`.
    pub failure: Seq<char>,
}

impl ReaderState {
    /// A reader that has not begun.
    pub open spec fn fresh(
        needle: Seq<u8>,
        alt: Option<Seq<u8>>,
        budget: Budget,
        pause_ms: u64,
        chunk: usize,
    ) -> ReaderState {
        ReaderState {
            needle,
            alt,
            budget,
            pause_ms,
            chunk,
            started: 0,
            buf: Seq::empty(),
            phase: ReaderPhase::Idle,
            failure: Seq::empty(),
        }
    }

    /// A reader as `read_until` makes it: one needle, polling stops once more
    /// than `timeout_ms` have passed, timeouts are waited out for 10 ms and
    /// any other read error is fatal.
    pub open spec fn strict(needle: Seq<u8>, timeout_ms: u64) -> ReaderState {
        ReaderState::fresh(needle, None, Budget::AtMost(timeout_ms), 10, 1024)
    }

    /// A needle lies in `buf`.
    pub open spec fn hit(self, buf: Seq<u8>) -> bool {
        contains(buf, self.needle) || (self.alt matches Some(other) && contains(buf, other))
    }

    /// The reader is over.
    pub open spec fn finished(self) -> bool {
        self.phase == ReaderPhase::Found || self.phase == ReaderPhase::Expired || self.phase
            == ReaderPhase::Failed
    }

    /// The start of another round: over if the time is up, else one more read.
    pub open spec fn poll(self, now: u64) -> (ReaderState, RequestView) {
        if self.budget.spent(elapsed_ms(self.started, now)) {
            (ReaderState { phase: ReaderPhase::Expired, ..self }, RequestView::Finish)
        } else {
            (ReaderState { phase: ReaderPhase::Reading, ..self }, RequestView::Read(self.chunk))
        }
    }

    /// The beginning: the clock starts at `now` and the buffer is empty.
    pub open spec fn begin(self, now: u64) -> (ReaderState, RequestView) {
        ReaderState { started: now, buf: Seq::empty(), failure: Seq::empty(), ..self }.poll(now)
    }

    /// One step: the state and the request that follow a reply.
    ///
    /// Bytes that a read gave are added to the buffer; if a needle then lies
    /// anywhere in the buffer the reader is over, having found it. A timeout
    /// is waited out with a pause. Any other failure of a read ends the
    /// reader. As long as the reader is not over, the time is looked at and
    /// then another read goes out.
    pub open spec fn next(self, reply: ReplyView, now: u64) -> (ReaderState, RequestView) {
        match self.phase {
            ReaderPhase::Reading => match reply {
                ReplyView::Bytes(data) => {
                    if data.len() > 0 {
                        let grown = ReaderState { buf: self.buf + data, ..self };
                        if grown.hit(grown.buf) {
                            (ReaderState { phase: ReaderPhase::Found, ..grown }, RequestView::Finish)
                        } else {
                            grown.poll(now)
                        }
                    } else {
                        self.poll(now)
                    }
                },
                ReplyView::TimedOut => (
                    ReaderState { phase: ReaderPhase::Pausing, ..self },
                    RequestView::Sleep(self.pause_ms),
                ),
                ReplyView::Failed(text) => (
                    ReaderState { phase: ReaderPhase::Failed, failure: text, ..self },
                    RequestView::Finish,
                ),
                _ => self.poll(now),
            },
            ReaderPhase::Pausing => self.poll(now),
            _ => (self, RequestView::Finish),
        }
    }

    /// What the reader has to say once it is over: whether a needle was
    /// found, or the transport's failure.
    pub open spec fn result(self) -> Result<bool, ErrorView> {
        if self.phase == ReaderPhase::Failed {
            Err(ErrorView::Transport(self.failure))
        } else {
            Ok(self.phase == ReaderPhase::Found)
        }
    }
}

/// Gathers what the device sends until a marker lies in it.
pub struct FrameReader {
    needle: Vec<u8>,
    alt: Option<Vec<u8>>,
    budget: Budget,
    pause_ms: u64,
    chunk: usize,
    started: u64,
    buf: Vec<u8>,
    phase: ReaderPhase,
    failure: String,
}

impl View for FrameReader {
    type V = ReaderState;

    closed spec fn view(&self) -> ReaderState {
        ReaderState {
            needle: self.needle@,
            alt: match self.alt {
                Some(other) => Some(other@),
                None => None,
            },
            budget: self.budget,
            pause_ms: self.pause_ms,
            chunk: self.chunk,
            started: self.started,
            buf: self.buf@,
            phase: self.phase,
            failure: self.failure@,
        }
    }
}

impl FrameReader {
    /// A reader for one needle that gives up once more than `timeout_ms`
    /// milliseconds have passed. It waits out timeouts of the transport and
    /// ends on any other read error.
    pub fn read_until(needle: Vec<u8>, timeout_ms: u64) -> (r: FrameReader)
        ensures
            r@ == ReaderState::strict(needle@, timeout_ms),
    {
        FrameReader {
            needle,
            alt: None,
            budget: Budget::AtMost(timeout_ms),
            pause_ms: 10,
            chunk: 1024,
            started: 0,
            buf: Vec::new(),
            phase: ReaderPhase::Idle,
            failure: String::new(),
        }
    }

    /// A reader that waits for a prompt: for either of up to two needles,
    /// while fewer than `limit_ms` milliseconds have passed. It waits out
    /// timeouts of the transport and ends on any other read error.
    pub fn prompt_wait(
        needle: Vec<u8>,
        alt: Option<Vec<u8>>,
        limit_ms: u64,
        pause_ms: u64,
        chunk: usize,
    ) -> (r: FrameReader)
        ensures
            r@ == ReaderState::fresh(
                needle@,
                match alt {
                    Some(other) => Some(other@),
                    None => None,
                },
                Budget::Under(limit_ms),
                pause_ms,
                chunk,
            ),
    {
        FrameReader {
            needle,
            alt,
            budget: Budget::Under(limit_ms),
            pause_ms,
            chunk,
            started: 0,
            buf: Vec::new(),
            phase: ReaderPhase::Idle,
            failure: String::new(),
        }
    }

    /// Whether a needle lies in what was read.
    fn hit(&self) -> (r: bool)
        ensures
            r == self@.hit(self@.buf),
    {
        if contains_bytes(self.buf.as_slice(), self.needle.as_slice()) {
            true
        } else {
            match &self.alt {
                Some(other) => contains_bytes(self.buf.as_slice(), other.as_slice()),
                None => false,
            }
        }
    }

    /// Looks at the time and asks for another read, or ends.
    fn poll(&mut self, now: u64) -> (req: Request)
        ensures
            final(self)@ == old(self)@.poll(now).0,
            req@ == old(self)@.poll(now).1,
    {
        if self.budget.is_spent(elapsed(self.started, now)) {
            self.phase = ReaderPhase::Expired;
            Request::Finish
        } else {
            self.phase = ReaderPhase::Reading;
            Request::Read(self.chunk)
        }
    }

    /// Begins reading at time `now`, with an empty buffer.
    pub fn begin(&mut self, now: u64) -> (req: Request)
        ensures
            final(self)@ == old(self)@.begin(now).0,
            req@ == old(self)@.begin(now).1,
    {
        self.started = now;
        self.buf = Vec::new();
        self.failure = String::new();
        self.poll(now)
    }

    /// Takes the host's reply to the last request, at time `now`, and gives
    /// the next request.
    pub fn step(&mut self, reply: Reply, now: u64) -> (req: Request)
        ensures
            final(self)@ == old(self)@.next(reply@, now).0,
            req@ == old(self)@.next(reply@, now).1,
    {
        match self.phase {
            ReaderPhase::Reading => match reply {
                Reply::Bytes(mut data) => {
                    if data.len() > 0 {
                        self.buf.append(&mut data);
                        if self.hit() {
                            self.phase = ReaderPhase::Found;
                            Request::Finish
                        } else {
                            self.poll(now)
                        }
                    } else {
                        self.poll(now)
                    }
                },
                Reply::TimedOut => {
                    self.phase = ReaderPhase::Pausing;
                    Request::Sleep(self.pause_ms)
                },
                Reply::Failed(text) => {
                    self.phase = ReaderPhase::Failed;
                    self.failure = text;
                    Request::Finish
                },
                _ => self.poll(now),
            },
            ReaderPhase::Pausing => self.poll(now),
            _ => Request::Finish,
        }
    }

    /// Whether the reader is over.
    pub fn is_finished(&self) -> (r: bool)
        ensures
            r == self@.finished(),
    {
        match self.phase {
            ReaderPhase::Found | ReaderPhase::Expired | ReaderPhase::Failed => true,
            _ => false,
        }
    }

    /// Whether a needle was found.
    pub fn found(&self) -> (r: bool)
        ensures
            r == (self@.phase == ReaderPhase::Found),
    {
        match self.phase {
            ReaderPhase::Found => true,
            _ => false,
        }
    }

    /// Everything read so far.
    pub fn captured(&self) -> (r: Vec<u8>)
        ensures
            r@ == self@.buf,
    {
        let r = copy_bytes(self.buf.as_slice(), 0, self.buf.len());
        proof {
            assert(self.buf@.subrange(0, self.buf@.len() as int) =~= self.buf@);
        }
        r
    }

    /// Whether the transport's failure ended the reader.
    pub fn failed(&self) -> (r: bool)
        ensures
            r == (self@.phase == ReaderPhase::Failed),
    {
        match self.phase {
            ReaderPhase::Failed => true,
            _ => false,
        }
    }

    /// The transport's text for the failure that ended the reader; empty if
    /// none did.
    pub fn failure_text(&self) -> (r: String)
        ensures
            r@ == self@.failure,
    {
        self.failure.clone()
    }

    /// Whether a needle was found, or the failure that ended the reader.
    pub fn result(&self) -> (r: Result<bool, Error>)
        ensures
            match r {
                Ok(found) => self@.result() == Ok::<bool, ErrorView>(found),
                Err(e) => self@.result() == Err::<bool, ErrorView>(e@),
            },
    {
        match self.phase {
            ReaderPhase::Failed => Err(Error::Transport(self.failure.clone())),
            ReaderPhase::Found => Ok(true),
            _ => Ok(false),
        }
    }
}

/// A needle that arrives in two pieces, in two reads one after the other, is
/// found at the second read, however much time has passed by then: the
/// search runs over everything read so far, not over each read alone.
pub proof fn lemma_finds_split_needle(
    s: ReaderState,
    head: Seq<u8>,
    tail: Seq<u8>,
    t1: u64,
    t2: u64,
)
    requires
        s.phase == ReaderPhase::Reading,
        head.len() > 0,
        tail.len() > 0,
        s.needle == head + tail,
        !s.budget.spent(elapsed_ms(s.started, t1)),
    ensures
        ({
            let after_head = s.next(ReplyView::Bytes(head), t1).0;
            let after_tail = after_head.next(ReplyView::Bytes(tail), t2);
            &&& after_tail.0.phase == ReaderPhase::Found
            &&& after_tail.1 == RequestView::Finish
        }),
{
    let after_head = s.next(ReplyView::Bytes(head), t1).0;
    if after_head.phase != ReaderPhase::Found {
        let whole = s.buf + head + tail;
        let at = s.buf.len() as int;
        assert(whole.subrange(at, at + s.needle.len()) =~= s.needle);
        assert(occurs_at(whole, s.needle, at));
    }
}

/// Whatever a read gives is kept: the buffer only ever grows by the bytes of
/// the replies, and a reader that is over stays as it is.
pub proof fn lemma_reader_keeps_bytes(s: ReaderState, reply: ReplyView, now: u64)
    ensures
        s.phase == ReaderPhase::Reading && reply is Bytes ==> s.next(reply, now).0.buf == s.buf
            + reply->Bytes_0,
        !(s.phase == ReaderPhase::Reading && reply is Bytes) ==> s.next(reply, now).0.buf == s.buf,
        s.finished() ==> s.next(reply, now) == (s, RequestView::Finish),
        s.next(reply, now).0.phase == ReaderPhase::Found && !s.finished() ==> s.hit(
            s.next(reply, now).0.buf,
        ),
{
    if s.phase == ReaderPhase::Reading && reply is Bytes {
        assert(s.buf + reply->Bytes_0 =~= s.next(reply, now).0.buf);
    }
}

/// A reader does not outlast its time: once the budget is spent, a pause
/// that is over, and a read that gave no bytes and did not fail, end the
/// reader, with nothing found.
pub proof fn lemma_reader_ends_with_its_time(s: ReaderState, reply: ReplyView, now: u64)
    requires
        s.budget.spent(elapsed_ms(s.started, now)),
        s.phase == ReaderPhase::Pausing || (s.phase == ReaderPhase::Reading && (reply
            == ReplyView::Bytes(Seq::empty()) || reply == ReplyView::Ack)),
    ensures
        s.next(reply, now) == (
            ReaderState { phase: ReaderPhase::Expired, ..s },
            RequestView::Finish,
        ),
        s.next(reply, now).0.result() == Ok::<bool, ErrorView>(false),
{
}

} // verus!
