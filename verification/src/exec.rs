//! Running a piece of code in the interpreter's raw mode: interrupt, enter
//! raw mode, send the code in small chunks, execute, wait for the framed
//! result, and leave raw mode again on every path.

use vstd::prelude::*;
use crate::error::{Error, ErrorView};
use crate::frame::{FrameReader, ReaderPhase, ReaderState};
use crate::link::{bytes1, bytes2, bytes_of, copy_bytes, Reply, ReplyView, Request, RequestView};
use crate::mode::DeviceMode;
use crate::search::{contains, find_chars, first_index, lemma_first_index, position, position_of_char};
use crate::text::{
    chars_of,
    copy_chars,
    decode_lossy,
    string_of,
    text_contains,
    trim,
    trimmed,
    utf8_lossy,
};
use vstd::string::StringSliceAdditionalSpecFns;

verus! {

/// The byte that interrupts a running program.
pub const INTERRUPT: u8 = 0x03;

/// The byte that enters raw mode.
pub const ENTER_RAW: u8 = 0x01;

/// The byte that leaves raw mode.
pub const EXIT_RAW: u8 = 0x02;

/// The byte that executes what was sent, and that ends each part of a result.
pub const EXECUTE: u8 = 0x04;

/// The most bytes of code written at once.
pub const CHUNK_LEN: usize = 256;

/// The interpreter's primary prompt, `>>>`.
pub open spec fn primary_prompt() -> Seq<u8> {
    ">>>".spec_bytes()
}

/// What ends a result: the execute byte, then `>`.
pub open spec fn result_terminator() -> Seq<u8> {
    "\u{4}>".spec_bytes()
}

/// The text shows the banner of raw mode.
pub open spec fn banner_seen(text: Seq<char>) -> bool {
    contains(text, "raw REPL"@) || contains(text, "CTRL-B"@)
}

/// Whether the text shows the banner of raw mode.
pub fn has_raw_banner(text: &str) -> (r: bool)
    ensures
        r == banner_seen(text@),
{
    let chars = chars_of(text);
    text_contains(chars.as_slice(), "raw REPL") || text_contains(chars.as_slice(), "CTRL-B")
}

/// The result inside a captured text: what stands between the first `OK`
/// and the first end-of-part byte after it, without the white space around
/// it. A text without `OK`, or without an end-of-part byte after it, is the
/// result as it stands.
pub open spec fn exec_output(text: Seq<char>) -> Seq<char> {
    match first_index(text, "OK"@) {
        Some(start) => {
            let rest = text.skip(start + "OK"@.len());
            let end = position(rest, '\u{4}');
            if end < rest.len() {
                trimmed(rest.take(end))
            } else {
                text
            }
        },
        None => text,
    }
}

/// The result inside a captured text.
pub fn parse_exec_output(text: &str) -> (r: String)
    ensures
        r@ == exec_output(text@),
{
    let chars = chars_of(text);
    let token = chars_of("OK");
    let total: usize = chars.len();
    let width: usize = token.len();
    let hit = find_chars(chars.as_slice(), token.as_slice());
    proof {
        lemma_first_index(chars@, token@);
        if let Some(start) = hit {
            assert(first_index(chars@, token@) == Some(start as int));
            assert(crate::search::occurs_at(chars@, token@, start as int));
            assert(start + width <= total);
        }
    }
    match hit {
        Some(start) => {
            let from: usize = start + width;
            let end: usize = position_of_char(chars.as_slice(), from, '\u{4}');
            if end < chars.len() {
                let inner = copy_chars(chars.as_slice(), from, end);
                proof {
                    assert(chars@.skip(from as int).take(end - from) =~= inner@);
                }
                let cut = trim(inner.as_slice());
                string_of(cut.as_slice())
            } else {
                string_of(chars.as_slice())
            }
        },
        None => string_of(chars.as_slice()),
    }
}

/// Where a command stands.
#[derive(Clone, Copy, Debug, PartialEq, Eq, Structural)]
pub enum ExecPhase {
    /// Not begun.
    Idle,
    /// Stale input is being read away.
    Flushing,
    /// The two interrupt bytes are being written.
    Interrupting,
    /// The pause after the interrupt.
    InterruptSettle,
    /// The byte that enters raw mode is being written.
    Entering,
    /// The pause after it.
    EnterSettle,
    /// The prompt is awaited, to look for the banner of raw mode.
    AwaitingConfirm,
    /// No banner was seen: the entry byte is being written once more.
    Reentering,
    /// The pause after it.
    ReenterSettle,
    /// A chunk of the code is being written.
    Sending,
    /// The pause after a chunk.
    ChunkPause,
    /// The execute byte is being written.
    Executing,
    /// The end of the result is awaited.
    AwaitingResult,
    /// The byte that leaves raw mode is being written.
    Exiting,
    /// The pause after it.
    ExitSettle,
    /// Over.
    Done,
}

impl ExecPhase {
    /// How far a command has come. The writing of a chunk and the pause
    /// after it share a stage, since they take turns until the code is out.
    pub open spec fn stage(self) -> nat {
        match self {
            ExecPhase::Idle => 0,
            ExecPhase::Flushing => 1,
            ExecPhase::Interrupting => 2,
            ExecPhase::InterruptSettle => 3,
            ExecPhase::Entering => 4,
            ExecPhase::EnterSettle => 5,
            ExecPhase::AwaitingConfirm => 6,
            ExecPhase::Reentering => 7,
            ExecPhase::ReenterSettle => 8,
            ExecPhase::Sending => 9,
            ExecPhase::ChunkPause => 9,
            ExecPhase::Executing => 10,
            ExecPhase::AwaitingResult => 11,
            ExecPhase::Exiting => 12,
            ExecPhase::ExitSettle => 13,
            ExecPhase::Done => 14,
        }
    }

    /// Entry into raw mode has been asked for and the exit has not yet.
    pub open spec fn in_raw(self) -> bool {
        match self {
            ExecPhase::Entering
            | ExecPhase::EnterSettle
            | ExecPhase::AwaitingConfirm
            | ExecPhase::Reentering
            | ExecPhase::ReenterSettle
            | ExecPhase::Sending
            | ExecPhase::ChunkPause
            | ExecPhase::Executing
            | ExecPhase::AwaitingResult => true,
            _ => false,
        }
    }
}

/// The mathematical state of an [`ExecCommand`].
pub struct ExecState {
    pub phase: ExecPhase,
    /// The bytes of the code.
    pub code: Seq<u8>,
    /// How many of them have been handed over for writing.
    pub sent: nat,
    /// The reader of the wait that is running, or of the last one that ran.
    pub reader: ReaderState,
    /// The transport's text for the first failure, if there was one.
    pub failure: Option<Seq<char>>,
}

impl ExecState {
    /// A command that has not begun.
    pub open spec fn fresh(code: Seq<u8>) -> ExecState {
        ExecState {
            phase: ExecPhase::Idle,
            code,
            sent: 0,
            reader: ReaderState::strict(primary_prompt(), 1000),
            failure: None,
        }
    }

    /// The beginning: one read to throw stale input away.
    pub open spec fn begin(self) -> (ExecState, RequestView) {
        (
            ExecState { phase: ExecPhase::Flushing, sent: 0, failure: None, ..self },
            RequestView::Read(1024),
        )
    }

    /// The first failure is kept. If entry into raw mode was already asked
    /// for, the exit byte goes out before the command is over.
    pub open spec fn fail(self, text: Seq<char>) -> (ExecState, RequestView) {
        let failure = if self.failure is None {
            Some(text)
        } else {
            self.failure
        };
        if self.phase.in_raw() {
            (
                ExecState { phase: ExecPhase::Exiting, failure, ..self },
                RequestView::Write(seq![EXIT_RAW]),
            )
        } else {
            (ExecState { phase: ExecPhase::Done, failure, ..self }, RequestView::Finish)
        }
    }

    /// The end of the next chunk: at most `CHUNK_LEN` bytes on.
    pub open spec fn chunk_end(self) -> nat {
        if self.code.len() - self.sent > CHUNK_LEN {
            self.sent + CHUNK_LEN as nat
        } else {
            self.code.len()
        }
    }

    /// The next chunk of code goes out, or, when all of it has, the execute
    /// byte.
    pub open spec fn send_next(self) -> (ExecState, RequestView) {
        if self.sent < self.code.len() {
            (
                ExecState { phase: ExecPhase::Sending, sent: self.chunk_end(), ..self },
                RequestView::Write(self.code.subrange(self.sent as int, self.chunk_end() as int)),
            )
        } else {
            (
                ExecState { phase: ExecPhase::Executing, ..self },
                RequestView::Write(seq![EXECUTE]),
            )
        }
    }

    /// A wait begins with a new reader.
    pub open spec fn await_with(self, phase: ExecPhase, reader: ReaderState, now: u64) -> (
        ExecState,
        RequestView,
    ) {
        (ExecState { phase, reader: reader.begin(now).0, ..self }, reader.begin(now).1)
    }

    /// One step: the state and the request that follow a reply.
    ///
    /// A failed write ends the command through `fail`; so does a reader that
    /// the transport failed. The reply to the first read and to every pause
    /// is not looked at.
    pub open spec fn next(self, reply: ReplyView, now: u64) -> (ExecState, RequestView) {
        match self.phase {
            ExecPhase::Idle => (self, RequestView::Finish),
            ExecPhase::Flushing => (
                ExecState { phase: ExecPhase::Interrupting, ..self },
                RequestView::Write(seq![INTERRUPT, INTERRUPT]),
            ),
            ExecPhase::Interrupting => match reply {
                ReplyView::Failed(text) => self.fail(text),
                _ => (
                    ExecState { phase: ExecPhase::InterruptSettle, ..self },
                    RequestView::Sleep(200),
                ),
            },
            ExecPhase::InterruptSettle => (
                ExecState { phase: ExecPhase::Entering, ..self },
                RequestView::Write(seq![ENTER_RAW]),
            ),
            ExecPhase::Entering => match reply {
                ReplyView::Failed(text) => self.fail(text),
                _ => (ExecState { phase: ExecPhase::EnterSettle, ..self }, RequestView::Sleep(200)),
            },
            ExecPhase::EnterSettle => self.await_with(
                ExecPhase::AwaitingConfirm,
                ReaderState::strict(primary_prompt(), 1000),
                now,
            ),
            ExecPhase::AwaitingConfirm => {
                let (reader, req) = self.reader.next(reply, now);
                let moved = ExecState { reader, ..self };
                if req != RequestView::Finish {
                    (moved, req)
                } else if reader.phase == ReaderPhase::Failed {
                    moved.fail(reader.failure)
                } else if reader.phase == ReaderPhase::Found && banner_seen(
                    utf8_lossy(reader.buf),
                ) {
                    moved.send_next()
                } else {
                    (
                        ExecState { phase: ExecPhase::Reentering, ..moved },
                        RequestView::Write(seq![ENTER_RAW]),
                    )
                }
            },
            ExecPhase::Reentering => match reply {
                ReplyView::Failed(text) => self.fail(text),
                _ => (
                    ExecState { phase: ExecPhase::ReenterSettle, ..self },
                    RequestView::Sleep(500),
                ),
            },
            ExecPhase::ReenterSettle => self.send_next(),
            ExecPhase::Sending => match reply {
                ReplyView::Failed(text) => self.fail(text),
                _ => (ExecState { phase: ExecPhase::ChunkPause, ..self }, RequestView::Sleep(50)),
            },
            ExecPhase::ChunkPause => self.send_next(),
            ExecPhase::Executing => match reply {
                ReplyView::Failed(text) => self.fail(text),
                _ => self.await_with(
                    ExecPhase::AwaitingResult,
                    ReaderState::strict(result_terminator(), 5000),
                    now,
                ),
            },
            ExecPhase::AwaitingResult => {
                let (reader, req) = self.reader.next(reply, now);
                let moved = ExecState { reader, ..self };
                if req != RequestView::Finish {
                    (moved, req)
                } else if reader.phase == ReaderPhase::Failed {
                    moved.fail(reader.failure)
                } else {
                    (
                        ExecState { phase: ExecPhase::Exiting, ..moved },
                        RequestView::Write(seq![EXIT_RAW]),
                    )
                }
            },
            ExecPhase::Exiting => match reply {
                ReplyView::Failed(text) => self.fail(text),
                _ => (ExecState { phase: ExecPhase::ExitSettle, ..self }, RequestView::Sleep(200)),
            },
            ExecPhase::ExitSettle => (
                ExecState { phase: ExecPhase::Done, ..self },
                RequestView::Finish,
            ),
            ExecPhase::Done => (self, RequestView::Finish),
        }
    }

    /// What the command has to say once it is over: the transport's failure
    /// if there was one, else the result inside what the last wait captured.
    pub open spec fn outcome(self) -> Result<Seq<char>, ErrorView> {
        match self.failure {
            Some(text) => Err(ErrorView::Transport(text)),
            None => Ok(exec_output(utf8_lossy(self.reader.buf))),
        }
    }
}

/// One run of a piece of code in the interpreter's raw mode.
pub struct ExecCommand {
    phase: ExecPhase,
    code: Vec<u8>,
    sent: usize,
    reader: FrameReader,
    failure: Option<String>,
}

impl View for ExecCommand {
    type V = ExecState;

    closed spec fn view(&self) -> ExecState {
        ExecState {
            phase: self.phase,
            code: self.code@,
            sent: self.sent as nat,
            reader: self.reader@,
            failure: match self.failure {
                Some(text) => Some(text@),
                None => None,
            },
        }
    }
}

impl ExecCommand {
    /// A command for a device in the given mode. Only an interpreter takes
    /// one: for any other mode this is `ModeMismatch`, before anything is
    /// sent.
    pub fn new(mode: DeviceMode, code: &str) -> (r: Result<ExecCommand, Error>)
        ensures
            match r {
                Ok(command) => mode == DeviceMode::MicroPythonRepl && command@ == ExecState::fresh(
                    code.spec_bytes(),
                ),
                Err(e) => mode != DeviceMode::MicroPythonRepl && e@ == (ErrorView::ModeMismatch {
                    required: DeviceMode::MicroPythonRepl,
                    actual: mode,
                }),
            },
    {
        if !mode.is_repl_compatible() {
            return Err(Error::ModeMismatch { required: DeviceMode::MicroPythonRepl, actual: mode });
        }
        Ok(
            ExecCommand {
                phase: ExecPhase::Idle,
                code: bytes_of(code),
                sent: 0,
                reader: FrameReader::read_until(bytes_of(">>>"), 1000),
                failure: None,
            },
        )
    }

    /// Begins the command.
    pub fn begin(&mut self) -> (req: Request)
        ensures
            final(self)@ == old(self)@.begin().0,
            req@ == old(self)@.begin().1,
    {
        self.phase = ExecPhase::Flushing;
        self.sent = 0;
        self.failure = None;
        Request::Read(1024)
    }

    fn fail(&mut self, text: String) -> (req: Request)
        ensures
            final(self)@ == old(self)@.fail(text@).0,
            req@ == old(self)@.fail(text@).1,
    {
        if self.failure.is_none() {
            self.failure = Some(text);
        }
        match self.phase {
            ExecPhase::Entering
            | ExecPhase::EnterSettle
            | ExecPhase::AwaitingConfirm
            | ExecPhase::Reentering
            | ExecPhase::ReenterSettle
            | ExecPhase::Sending
            | ExecPhase::ChunkPause
            | ExecPhase::Executing
            | ExecPhase::AwaitingResult => {
                self.phase = ExecPhase::Exiting;
                Request::Write(bytes1(EXIT_RAW))
            },
            _ => {
                self.phase = ExecPhase::Done;
                Request::Finish
            },
        }
    }

    fn send_next(&mut self) -> (req: Request)
        ensures
            final(self)@ == old(self)@.send_next().0,
            req@ == old(self)@.send_next().1,
    {
        let len: usize = self.code.len();
        if self.sent < len {
            let end: usize = if len - self.sent > CHUNK_LEN {
                self.sent + CHUNK_LEN
            } else {
                len
            };
            let chunk = copy_bytes(self.code.as_slice(), self.sent, end);
            self.sent = end;
            self.phase = ExecPhase::Sending;
            Request::Write(chunk)
        } else {
            self.phase = ExecPhase::Executing;
            Request::Write(bytes1(EXECUTE))
        }
    }

    fn await_with(&mut self, phase: ExecPhase, reader: FrameReader, now: u64) -> (req: Request)
        ensures
            final(self)@ == old(self)@.await_with(phase, reader@, now).0,
            req@ == old(self)@.await_with(phase, reader@, now).1,
    {
        self.reader = reader;
        self.phase = phase;
        self.reader.begin(now)
    }

    /// Takes the host's reply to the last request, at time `now`, and gives
    /// the next request.
    pub fn step(&mut self, reply: Reply, now: u64) -> (req: Request)
        ensures
            final(self)@ == old(self)@.next(reply@, now).0,
            req@ == old(self)@.next(reply@, now).1,
    {
        match self.phase {
            ExecPhase::Idle => Request::Finish,
            ExecPhase::Flushing => {
                self.phase = ExecPhase::Interrupting;
                Request::Write(bytes2(INTERRUPT, INTERRUPT))
            },
            ExecPhase::Interrupting => match reply {
                Reply::Failed(text) => self.fail(text),
                _ => {
                    self.phase = ExecPhase::InterruptSettle;
                    Request::Sleep(200)
                },
            },
            ExecPhase::InterruptSettle => {
                self.phase = ExecPhase::Entering;
                Request::Write(bytes1(ENTER_RAW))
            },
            ExecPhase::Entering => match reply {
                Reply::Failed(text) => self.fail(text),
                _ => {
                    self.phase = ExecPhase::EnterSettle;
                    Request::Sleep(200)
                },
            },
            ExecPhase::EnterSettle => {
                let reader = FrameReader::read_until(bytes_of(">>>"), 1000);
                self.await_with(ExecPhase::AwaitingConfirm, reader, now)
            },
            ExecPhase::AwaitingConfirm => {
                let req = self.reader.step(reply, now);
                match req {
                    Request::Finish => {
                        if self.reader.failed() {
                            let text = self.reader.failure_text();
                            self.fail(text)
                        } else if self.reader.found() && self.confirmed() {
                            self.send_next()
                        } else {
                            self.phase = ExecPhase::Reentering;
                            Request::Write(bytes1(ENTER_RAW))
                        }
                    },
                    other => other,
                }
            },
            ExecPhase::Reentering => match reply {
                Reply::Failed(text) => self.fail(text),
                _ => {
                    self.phase = ExecPhase::ReenterSettle;
                    Request::Sleep(500)
                },
            },
            ExecPhase::ReenterSettle => self.send_next(),
            ExecPhase::Sending => match reply {
                Reply::Failed(text) => self.fail(text),
                _ => {
                    self.phase = ExecPhase::ChunkPause;
                    Request::Sleep(50)
                },
            },
            ExecPhase::ChunkPause => self.send_next(),
            ExecPhase::Executing => match reply {
                Reply::Failed(text) => self.fail(text),
                _ => {
                    let reader = FrameReader::read_until(bytes_of("\u{4}>"), 5000);
                    self.await_with(ExecPhase::AwaitingResult, reader, now)
                },
            },
            ExecPhase::AwaitingResult => {
                let req = self.reader.step(reply, now);
                match req {
                    Request::Finish => {
                        if self.reader.failed() {
                            let text = self.reader.failure_text();
                            self.fail(text)
                        } else {
                            self.phase = ExecPhase::Exiting;
                            Request::Write(bytes1(EXIT_RAW))
                        }
                    },
                    other => other,
                }
            },
            ExecPhase::Exiting => match reply {
                Reply::Failed(text) => self.fail(text),
                _ => {
                    self.phase = ExecPhase::ExitSettle;
                    Request::Sleep(200)
                },
            },
            ExecPhase::ExitSettle => {
                self.phase = ExecPhase::Done;
                Request::Finish
            },
            ExecPhase::Done => Request::Finish,
        }
    }

    /// Whether what the reader captured shows the banner of raw mode.
    fn confirmed(&self) -> (r: bool)
        ensures
            r == banner_seen(utf8_lossy(self@.reader.buf)),
    {
        let captured = self.reader.captured();
        let text = decode_lossy(captured.as_slice());
        has_raw_banner(text.as_str())
    }

    /// Whether the command is over.
    pub fn is_finished(&self) -> (r: bool)
        ensures
            r == (self@.phase == ExecPhase::Done),
    {
        match self.phase {
            ExecPhase::Done => true,
            _ => false,
        }
    }

    /// The result of the command, or the failure that ended it. It is the
    /// outcome of the whole command once the command is over.
    pub fn outcome(&self) -> (r: Result<String, Error>)
        ensures
            match r {
                Ok(text) => self@.outcome() == Ok::<Seq<char>, ErrorView>(text@),
                Err(e) => self@.outcome() == Err::<Seq<char>, ErrorView>(e@),
            },
    {
        match &self.failure {
            Some(text) => Err(Error::Transport(text.clone())),
            None => {
                let captured = self.reader.captured();
                let text = decode_lossy(captured.as_slice());
                Ok(parse_exec_output(text.as_str()))
            },
        }
    }
}

/// Every entry into raw mode is paired with an exit. From the moment the
/// entry byte has been asked for, whatever the host replies, the command
/// either is still on its way or asks for the exit byte to be written; it
/// is never over before that.
pub proof fn lemma_raw_mode_is_left(s: ExecState, reply: ReplyView, now: u64)
    requires
        s.phase.in_raw(),
    ensures
        ({
            let (after, req) = s.next(reply, now);
            ||| after.phase.in_raw() && req != RequestView::Finish
            ||| after.phase == ExecPhase::Exiting && req == RequestView::Write(seq![EXIT_RAW])
        }),
{
    let (after, req) = s.next(reply, now);
    if s.phase == ExecPhase::EnterSettle || s.phase == ExecPhase::Executing {
        assert(req != RequestView::Finish);
    }
}

/// The command is over only after the exit byte, or before raw mode was ever
/// asked for: the one request that ends it comes from the pause after the
/// exit byte, from a failed write of the exit byte or of the interrupt, or
/// from a command that is over or has not begun.
pub proof fn lemma_finish_only_outside_raw(s: ExecState, reply: ReplyView, now: u64)
    requires
        s.next(reply, now).1 == RequestView::Finish,
    ensures
        !s.phase.in_raw(),
        s.phase != ExecPhase::Flushing,
        s.phase != ExecPhase::InterruptSettle,
{
    if s.phase.in_raw() {
        lemma_raw_mode_is_left(s, reply, now);
    }
}

/// A command only moves on. No step takes it back to an earlier stage, so
/// that nothing is tried again but the entry into raw mode, and that once:
/// the stage of entering and the stage of re-entering are each reached by a
/// step forward, with the entry byte as the request, and so at most once.
/// Only a wait stays where it is, while its reader goes on reading, and the
/// sending of the code, while chunks are left.
pub proof fn lemma_command_only_moves_on(s: ExecState, reply: ReplyView, now: u64)
    ensures
        s.next(reply, now).0.phase.stage() >= s.phase.stage(),
        s.next(reply, now).0.phase == ExecPhase::Entering || s.next(reply, now).0.phase
            == ExecPhase::Reentering ==> {
            &&& s.next(reply, now).0.phase.stage() > s.phase.stage()
            &&& s.next(reply, now).1 == RequestView::Write(seq![ENTER_RAW])
        },
        s.next(reply, now).0.phase.stage() == s.phase.stage() ==> {
            ||| s.phase == ExecPhase::Idle
            ||| s.phase == ExecPhase::Done
            ||| s.phase == ExecPhase::AwaitingConfirm
            ||| s.phase == ExecPhase::AwaitingResult
            ||| s.phase == ExecPhase::Sending
            ||| s.phase == ExecPhase::ChunkPause
        },
{
}

/// The code goes out whole and in order, in chunks of at most `CHUNK_LEN`
/// bytes: each chunk starts where the one before ended, is not empty, and
/// the execute byte goes out exactly when nothing is left.
pub proof fn lemma_chunks(s: ExecState)
    requires
        s.sent <= s.code.len(),
    ensures
        s.sent < s.code.len() ==> {
            let (after, req) = s.send_next();
            &&& req == RequestView::Write(s.code.subrange(s.sent as int, after.sent as int))
            &&& s.sent < after.sent <= s.code.len()
            &&& after.sent - s.sent <= CHUNK_LEN
            &&& after.phase == ExecPhase::Sending
        },
        s.sent == s.code.len() ==> s.send_next() == (
            ExecState { phase: ExecPhase::Executing, ..s },
            RequestView::Write(seq![EXECUTE]),
        ),
{
}

} // verus!
