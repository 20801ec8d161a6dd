//! Sending a line of text and gathering what comes back: until a prompt of
//! either dialect shows up, or, with an explicit timeout, until the device
//! has gone quiet or the time is up.

use vstd::prelude::*;
use crate::error::{Error, ErrorView};
use crate::link::{bytes_of, elapsed, elapsed_ms, Reply, ReplyView, Request, RequestView};
use crate::search::{bytes_end_with, contains, contains_bytes, ends_with};
use crate::text::{chars_of, decode_lossy, utf8_lossy};
use vstd::string::StringSliceAdditionalSpecFns;

verus! {

/// The seconds after which a send without an explicit timeout gives up.
pub const DEFAULT_TIMEOUT_S: u64 = 30;

/// The text does not end in a line feed or a carriage return, so that a line
/// terminator has to follow it.
pub open spec fn lacks_terminator(text: Seq<char>) -> bool {
    !(text.len() > 0 && (text.last() == '\n' || text.last() == '\r'))
}

/// A prompt of either dialect shows in the bytes: they hold the
/// interpreter's `>>>` or the shell's `/ $:`, or they end in `$:`.
pub open spec fn prompt_seen(buf: Seq<u8>) -> bool {
    ||| contains(buf, ">>>".spec_bytes())
    ||| contains(buf, "/ $:".spec_bytes())
    ||| ends_with(buf, "$:".spec_bytes())
}

/// Whether a prompt of either dialect shows in the bytes.
pub fn shows_prompt(buf: &[u8]) -> (r: bool)
    ensures
        r == prompt_seen(buf@),
{
    let interpreter = bytes_of(">>>");
    let shell = bytes_of("/ $:");
    let tail = bytes_of("$:");
    contains_bytes(buf, interpreter.as_slice()) || contains_bytes(buf, shell.as_slice())
        || bytes_end_with(buf, tail.as_slice())
}

/// Where a send stands.
#[derive(Clone, Copy, Debug, PartialEq, Eq, Structural)]
pub enum SendPhase {
    /// Not begun.
    Idle,
    /// Stale input is being read away.
    Flushing,
    /// The text is being written.
    Writing,
    /// The line terminator is being written.
    Terminating,
    /// A read is out.
    Polling,
    /// A prompt was seen: the short pause before the last read.
    PromptGrace,
    /// The last, short read after a prompt.
    PromptExtra,
    /// The device went quiet: the short pause before one more read.
    QuietGrace,
    /// The read after that pause.
    QuietExtra,
    /// The pause after a timeout of the transport.
    Pausing,
    /// Over.
    Done,
}

/// The mathematical state of a [`SendString`].
pub struct SendState {
    pub phase: SendPhase,
    /// The bytes of the text.
    pub data: Seq<u8>,
    /// Whether a line terminator follows the text.
    pub terminate: bool,
    /// The seconds after which polling stops.
    pub timeout_s: u64,
    /// Whether a prompt ends the polling. It does when no timeout was given.
    pub wait_for_prompt: bool,
    /// When polling began.
    pub started: u64,
    /// Everything received.
    pub buf: Seq<u8>,
    /// The transport's text for the failure that ended the send.
    pub failure: Option<Seq<char>>,
}

impl SendState {
    /// A send that has not begun.
    pub open spec fn fresh(text: Seq<char>, bytes: Seq<u8>, timeout: Option<u64>) -> SendState {
        SendState {
            phase: SendPhase::Idle,
            data: bytes,
            terminate: lacks_terminator(text),
            timeout_s: match timeout {
                Some(secs) => secs,
                None => DEFAULT_TIMEOUT_S,
            },
            wait_for_prompt: timeout is None,
            started: 0,
            buf: Seq::empty(),
            failure: None,
        }
    }

    /// The beginning: one read to throw stale input away.
    pub open spec fn begin(self) -> (SendState, RequestView) {
        (
            SendState { phase: SendPhase::Flushing, buf: Seq::empty(), failure: None, ..self },
            RequestView::Read(1024),
        )
    }

    /// The send is over.
    pub open spec fn finish(self) -> (SendState, RequestView) {
        (SendState { phase: SendPhase::Done, ..self }, RequestView::Finish)
    }

    /// The time is up: as many whole seconds have passed as the timeout has.
    pub open spec fn expired(self, now: u64) -> bool {
        elapsed_ms(self.started, now) / 1000 >= self.timeout_s
    }

    /// The start of another round: over if the time is up, else one more read.
    pub open spec fn poll(self, now: u64) -> (SendState, RequestView) {
        if self.expired(now) {
            self.finish()
        } else {
            (SendState { phase: SendPhase::Polling, ..self }, RequestView::Read(1024))
        }
    }

    /// One step: the state and the request that follow a reply.
    ///
    /// While polling, bytes are kept as they come. With no timeout given, a
    /// prompt anywhere in what was received ends the polling: a pause of
    /// 100 ms and one read of up to 256 bytes follow, and then the send is
    /// over. With a timeout given, a timeout of the transport after
    /// something was received leads to a pause of 100 ms and one more read,
    /// and the send is over unless that read gives bytes. Any other timeout
    /// of the transport is waited out for 10 ms. A failed write, and a read
    /// that failed otherwise than by timeout while polling, end the send
    /// with that failure.
    pub open spec fn next(self, reply: ReplyView, now: u64) -> (SendState, RequestView) {
        match self.phase {
            SendPhase::Idle => (self, RequestView::Finish),
            SendPhase::Flushing => (
                SendState { phase: SendPhase::Writing, ..self },
                RequestView::Write(self.data),
            ),
            SendPhase::Writing => match reply {
                ReplyView::Failed(text) => SendState { failure: Some(text), ..self }.finish(),
                _ => if self.terminate {
                    (
                        SendState { phase: SendPhase::Terminating, ..self },
                        RequestView::Write("\r".spec_bytes()),
                    )
                } else {
                    SendState { started: now, ..self }.poll(now)
                },
            },
            SendPhase::Terminating => match reply {
                ReplyView::Failed(text) => SendState { failure: Some(text), ..self }.finish(),
                _ => SendState { started: now, ..self }.poll(now),
            },
            SendPhase::Polling => match reply {
                ReplyView::Bytes(data) => {
                    if data.len() > 0 {
                        let grown = SendState { buf: self.buf + data, ..self };
                        if self.wait_for_prompt && prompt_seen(grown.buf) {
                            (
                                SendState { phase: SendPhase::PromptGrace, ..grown },
                                RequestView::Sleep(100),
                            )
                        } else {
                            grown.poll(now)
                        }
                    } else {
                        self.poll(now)
                    }
                },
                ReplyView::TimedOut => {
                    if self.buf.len() > 0 && !self.wait_for_prompt {
                        (
                            SendState { phase: SendPhase::QuietGrace, ..self },
                            RequestView::Sleep(100),
                        )
                    } else {
                        (SendState { phase: SendPhase::Pausing, ..self }, RequestView::Sleep(10))
                    }
                },
                ReplyView::Failed(text) => SendState { failure: Some(text), ..self }.finish(),
                _ => self.poll(now),
            },
            SendPhase::PromptGrace => (
                SendState { phase: SendPhase::PromptExtra, ..self },
                RequestView::Read(256),
            ),
            SendPhase::PromptExtra => match reply {
                ReplyView::Bytes(data) => SendState { buf: self.buf + data, ..self }.finish(),
                _ => self.finish(),
            },
            SendPhase::QuietGrace => (
                SendState { phase: SendPhase::QuietExtra, ..self },
                RequestView::Read(1024),
            ),
            SendPhase::QuietExtra => match reply {
                ReplyView::Bytes(data) => {
                    if data.len() > 0 {
                        SendState { buf: self.buf + data, ..self }.poll(now)
                    } else {
                        self.finish()
                    }
                },
                _ => self.finish(),
            },
            SendPhase::Pausing => self.poll(now),
            SendPhase::Done => (self, RequestView::Finish),
        }
    }

    /// What the send has to say once it is over: the failure that ended it,
    /// or everything received, as text.
    pub open spec fn outcome(self) -> Result<Seq<char>, ErrorView> {
        match self.failure {
            Some(text) => Err(ErrorView::Transport(text)),
            None => Ok(utf8_lossy(self.buf)),
        }
    }
}

/// One send of a line of text.
pub struct SendString {
    phase: SendPhase,
    data: Vec<u8>,
    terminate: bool,
    timeout_s: u64,
    wait_for_prompt: bool,
    started: u64,
    buf: Vec<u8>,
    failure: Option<String>,
}

impl View for SendString {
    type V = SendState;

    closed spec fn view(&self) -> SendState {
        SendState {
            phase: self.phase,
            data: self.data@,
            terminate: self.terminate,
            timeout_s: self.timeout_s,
            wait_for_prompt: self.wait_for_prompt,
            started: self.started,
            buf: self.buf@,
            failure: match self.failure {
                Some(text) => Some(text@),
                None => None,
            },
        }
    }
}

impl SendString {
    /// A send of `text`. With a timeout, in seconds, the answer is gathered
    /// until the device goes quiet or the time is up; without one, until a
    /// prompt shows up, for `DEFAULT_TIMEOUT_S` seconds at most.
    pub fn new(text: &str, timeout_secs: Option<u64>) -> (r: SendString)
        ensures
            r@ == SendState::fresh(text@, text.spec_bytes(), timeout_secs),
    {
        let chars = chars_of(text);
        let n: usize = chars.len();
        let ended: bool = n > 0 && (chars[n - 1] == '\n' || chars[n - 1] == '\r');
        SendString {
            phase: SendPhase::Idle,
            data: bytes_of(text),
            terminate: !ended,
            timeout_s: match timeout_secs {
                Some(secs) => secs,
                None => DEFAULT_TIMEOUT_S,
            },
            wait_for_prompt: timeout_secs.is_none(),
            started: 0,
            buf: Vec::new(),
            failure: None,
        }
    }

    /// Begins the send.
    pub fn begin(&mut self) -> (req: Request)
        ensures
            final(self)@ == old(self)@.begin().0,
            req@ == old(self)@.begin().1,
    {
        self.phase = SendPhase::Flushing;
        self.buf = Vec::new();
        self.failure = None;
        Request::Read(1024)
    }

    fn finish(&mut self) -> (req: Request)
        ensures
            final(self)@ == old(self)@.finish().0,
            req@ == old(self)@.finish().1,
    {
        self.phase = SendPhase::Done;
        Request::Finish
    }

    fn poll(&mut self, now: u64) -> (req: Request)
        ensures
            final(self)@ == old(self)@.poll(now).0,
            req@ == old(self)@.poll(now).1,
    {
        if elapsed(self.started, now) / 1000 >= self.timeout_s {
            self.finish()
        } else {
            self.phase = SendPhase::Polling;
            Request::Read(1024)
        }
    }

    /// Whether a prompt of either dialect shows in what was received.
    fn sees_prompt(&self) -> (r: bool)
        ensures
            r == prompt_seen(self@.buf),
    {
        shows_prompt(self.buf.as_slice())
    }

    /// Takes the host's reply to the last request, at time `now`, and gives
    /// the next request.
    pub fn step(&mut self, reply: Reply, now: u64) -> (req: Request)
        ensures
            final(self)@ == old(self)@.next(reply@, now).0,
            req@ == old(self)@.next(reply@, now).1,
    {
        match self.phase {
            SendPhase::Idle => Request::Finish,
            SendPhase::Flushing => {
                self.phase = SendPhase::Writing;
                let data = crate::link::copy_bytes(self.data.as_slice(), 0, self.data.len());
                proof {
                    assert(self.data@.subrange(0, self.data@.len() as int) =~= self.data@);
                }
                Request::Write(data)
            },
            SendPhase::Writing => match reply {
                Reply::Failed(text) => {
                    self.failure = Some(text);
                    self.finish()
                },
                _ => {
                    if self.terminate {
                        self.phase = SendPhase::Terminating;
                        Request::Write(bytes_of("\r"))
                    } else {
                        self.started = now;
                        self.poll(now)
                    }
                },
            },
            SendPhase::Terminating => match reply {
                Reply::Failed(text) => {
                    self.failure = Some(text);
                    self.finish()
                },
                _ => {
                    self.started = now;
                    self.poll(now)
                },
            },
            SendPhase::Polling => match reply {
                Reply::Bytes(mut data) => {
                    if data.len() > 0 {
                        self.buf.append(&mut data);
                        if self.wait_for_prompt && self.sees_prompt() {
                            self.phase = SendPhase::PromptGrace;
                            Request::Sleep(100)
                        } else {
                            self.poll(now)
                        }
                    } else {
                        self.poll(now)
                    }
                },
                Reply::TimedOut => {
                    if self.buf.len() > 0 && !self.wait_for_prompt {
                        self.phase = SendPhase::QuietGrace;
                        Request::Sleep(100)
                    } else {
                        self.phase = SendPhase::Pausing;
                        Request::Sleep(10)
                    }
                },
                Reply::Failed(text) => {
                    self.failure = Some(text);
                    self.finish()
                },
                _ => self.poll(now),
            },
            SendPhase::PromptGrace => {
                self.phase = SendPhase::PromptExtra;
                Request::Read(256)
            },
            SendPhase::PromptExtra => match reply {
                Reply::Bytes(mut data) => {
                    self.buf.append(&mut data);
                    self.finish()
                },
                _ => self.finish(),
            },
            SendPhase::QuietGrace => {
                self.phase = SendPhase::QuietExtra;
                Request::Read(1024)
            },
            SendPhase::QuietExtra => match reply {
                Reply::Bytes(mut data) => {
                    if data.len() > 0 {
                        self.buf.append(&mut data);
                        self.poll(now)
                    } else {
                        self.finish()
                    }
                },
                _ => self.finish(),
            },
            SendPhase::Pausing => self.poll(now),
            SendPhase::Done => Request::Finish,
        }
    }

    /// Whether the send is over.
    pub fn is_finished(&self) -> (r: bool)
        ensures
            r == (self@.phase == SendPhase::Done),
    {
        match self.phase {
            SendPhase::Done => true,
            _ => false,
        }
    }

    /// Everything received, as text, or the failure that ended the send. It
    /// is the outcome of the whole send once the send is over.
    pub fn outcome(&self) -> (r: Result<String, Error>)
        ensures
            match r {
                Ok(text) => self@.outcome() == Ok::<Seq<char>, ErrorView>(text@),
                Err(e) => self@.outcome() == Err::<Seq<char>, ErrorView>(e@),
            },
    {
        match &self.failure {
            Some(text) => Err(Error::Transport(text.clone())),
            None => Ok(decode_lossy(self.buf.as_slice())),
        }
    }
}

/// With no timeout given, polling stops as soon as a prompt lies in what was
/// received: whatever the clock says and whatever the host replies from
/// then on, exactly a pause of 100 ms and one read of up to 256 bytes
/// follow, and then the send is over, with what that read gave added.
pub proof fn lemma_prompt_ends_polling(
    s: SendState,
    data: Seq<u8>,
    now: u64,
    r1: ReplyView,
    t1: u64,
    r2: ReplyView,
    t2: u64,
)
    requires
        s.phase == SendPhase::Polling,
        s.wait_for_prompt,
        data.len() > 0,
        prompt_seen(s.buf + data),
    ensures
        ({
            let (a, first) = s.next(ReplyView::Bytes(data), now);
            let (b, second) = a.next(r1, t1);
            let (c, third) = b.next(r2, t2);
            &&& first == RequestView::Sleep(100)
            &&& second == RequestView::Read(256)
            &&& third == RequestView::Finish
            &&& c.phase == SendPhase::Done
            &&& c.failure == s.failure
            &&& c.buf == s.buf + data + (match r2 {
                ReplyView::Bytes(more) => more,
                _ => Seq::empty(),
            })
        }),
{
    let (a, first) = s.next(ReplyView::Bytes(data), now);
    let (b, second) = a.next(r1, t1);
    let (c, third) = b.next(r2, t2);
    assert(c.buf =~= s.buf + data + (match r2 {
        ReplyView::Bytes(more) => more,
        _ => Seq::empty(),
    }));
}

/// Until a prompt lies in what was received, a send without a timeout goes
/// on reading for as long as fewer than `DEFAULT_TIMEOUT_S` seconds have
/// passed, and no longer.
pub proof fn lemma_polling_is_bounded(s: SendState, now: u64)
    ensures
        s.poll(now).1 == RequestView::Finish <==> elapsed_ms(s.started, now) / 1000
            >= s.timeout_s,
        s.poll(now).1 != RequestView::Finish ==> s.poll(now).1 == RequestView::Read(1024),
{
}

} // verus!
