//! Finding out, once per session, which dialect the device speaks: wake it
//! with a line terminator, listen for a prompt, and confirm a shell with a
//! probe command.

use vstd::prelude::*;
use crate::error::{Error, ErrorView};
use crate::link::{bytes_of, elapsed, elapsed_ms, Reply, ReplyView, Request, RequestView};
use crate::mode::DeviceMode;
use crate::search::{contains, ends_with};
use crate::text::{chars_of, decode_lossy, text_contains, text_ends_with, utf8_lossy};
use vstd::string::StringSliceAdditionalSpecFns;

verus! {

/// How long the device is listened to after the wake-up, in milliseconds.
pub const LISTEN_MS: u64 = 1000;

/// How long the device is listened to after the probe, in milliseconds.
pub const CONFIRM_MS: u64 = 500;

/// What the answer to the wake-up suggests.
#[derive(Clone, Copy, Debug, PartialEq, Eq, Structural)]
pub enum FirstLook {
    /// The interpreter's prompt was seen.
    Interpreter,
    /// Something like a shell prompt was seen; a probe has to confirm it.
    MaybeShell,
    /// No prompt was seen.
    Nothing,
}

/// The text shows a shell prompt: it holds `/ $:`, or it ends in `$:`.
pub open spec fn shell_prompt_seen(text: Seq<char>) -> bool {
    contains(text, "/ $:"@) || ends_with(text, "$:"@)
}

/// What a text received after the wake-up suggests: an interpreter if it
/// holds `>>>`; else maybe a shell if it shows a shell prompt; else nothing.
pub open spec fn first_look(text: Seq<char>) -> FirstLook {
    if contains(text, ">>>"@) {
        FirstLook::Interpreter
    } else if shell_prompt_seen(text) {
        FirstLook::MaybeShell
    } else {
        FirstLook::Nothing
    }
}

/// A text received after the probe confirms a shell: it holds `/bin/sh`,
/// the echoed `$SHELL`, or the prompt `/ $:`.
pub open spec fn shell_confirmed(text: Seq<char>) -> bool {
    contains(text, "/bin/sh"@) || contains(text, "$SHELL"@) || contains(text, "/ $:"@)
}

/// The mode that two transcripts give: the text received after the wake-up
/// and the text received after the probe. The second counts only where the
/// first suggests a shell.
pub open spec fn classify(first: Seq<char>, second: Seq<char>) -> DeviceMode {
    match first_look(first) {
        FirstLook::Interpreter => DeviceMode::MicroPythonRepl,
        FirstLook::MaybeShell => if shell_confirmed(second) {
            DeviceMode::UpyOS
        } else {
            DeviceMode::Unknown
        },
        FirstLook::Nothing => DeviceMode::Unknown,
    }
}

/// What a text received after the wake-up suggests.
pub fn look_at_first(text: &str) -> (r: FirstLook)
    ensures
        r == first_look(text@),
{
    let chars = chars_of(text);
    if text_contains(chars.as_slice(), ">>>") {
        FirstLook::Interpreter
    } else if text_contains(chars.as_slice(), "/ $:") || text_ends_with(chars.as_slice(), "$:") {
        FirstLook::MaybeShell
    } else {
        FirstLook::Nothing
    }
}

/// Whether a text received after the probe confirms a shell.
pub fn confirms_shell(text: &str) -> (r: bool)
    ensures
        r == shell_confirmed(text@),
{
    let chars = chars_of(text);
    text_contains(chars.as_slice(), "/bin/sh") || text_contains(chars.as_slice(), "$SHELL")
        || text_contains(chars.as_slice(), "/ $:")
}

/// The mode that two transcripts give.
pub fn classify_transcripts(first: &str, second: &str) -> (mode: DeviceMode)
    ensures
        mode == classify(first@, second@),
{
    match look_at_first(first) {
        FirstLook::Interpreter => DeviceMode::MicroPythonRepl,
        FirstLook::MaybeShell => {
            if confirms_shell(second) {
                DeviceMode::UpyOS
            } else {
                DeviceMode::Unknown
            }
        },
        FirstLook::Nothing => DeviceMode::Unknown,
    }
}

/// A transcript that holds `>>>` gives an interpreter, whatever else it
/// holds and whatever came after the probe.
pub proof fn lemma_prompt_gives_interpreter(first: Seq<char>, second: Seq<char>)
    requires
        contains(first, ">>>"@),
    ensures
        classify(first, second) == DeviceMode::MicroPythonRepl,
{
}

/// A transcript that shows a shell prompt and holds no `>>>`, followed by a
/// confirming answer to the probe, gives a shell.
pub proof fn lemma_confirmed_prompt_gives_shell(first: Seq<char>, second: Seq<char>)
    requires
        shell_prompt_seen(first),
        !contains(first, ">>>"@),
        shell_confirmed(second),
    ensures
        classify(first, second) == DeviceMode::UpyOS,
{
}

/// An empty transcript gives an unknown mode, and so does every transcript
/// that holds no `>>>` and shows no shell prompt, whatever comes after it; a
/// shell prompt that the probe does not confirm gives an unknown mode as
/// well.
pub proof fn lemma_unrecognized_gives_unknown(first: Seq<char>, second: Seq<char>)
    requires
        first.len() == 0 || (!contains(first, ">>>"@) && !shell_prompt_seen(first)) || (!contains(
            first,
            ">>>"@,
        ) && !shell_confirmed(second)),
    ensures
        classify(first, second) == DeviceMode::Unknown,
{
    reveal_strlit(">>>");
    reveal_strlit("/ $:");
    reveal_strlit("$:");
}

/// Where a detection stands.
#[derive(Clone, Copy, Debug, PartialEq, Eq, Structural)]
pub enum DetectPhase {
    /// Not begun.
    Idle,
    /// Stale input is being read away.
    Flushing,
    /// The line terminator is being written.
    Waking,
    /// The pause after it.
    WakeSettle,
    /// A read of the first window is out.
    Listening,
    /// The pause between two reads of the first window.
    ListenPause,
    /// The probe command is being written.
    Probing,
    /// The pause after it.
    ProbeSettle,
    /// A read of the second window is out.
    Confirming,
    /// The pause between two reads of the second window.
    ConfirmPause,
    /// Over.
    Done,
}

/// The mathematical state of a [`DetectMode`].
pub struct DetectState {
    pub phase: DetectPhase,
    /// When the running window began.
    pub started: u64,
    /// What was received after the wake-up.
    pub first: Seq<u8>,
    /// What was received after the probe.
    pub second: Seq<u8>,
    /// The transport's text for the failure that ended the detection.
    pub failure: Option<Seq<char>>,
}

impl DetectState {
    /// A detection that has not begun.
    pub open spec fn fresh() -> DetectState {
        DetectState {
            phase: DetectPhase::Idle,
            started: 0,
            first: Seq::empty(),
            second: Seq::empty(),
            failure: None,
        }
    }

    /// The beginning: one read to throw stale input away.
    pub open spec fn begin(self) -> (DetectState, RequestView) {
        (DetectState { phase: DetectPhase::Flushing, ..DetectState::fresh() }, RequestView::Read(1024))
    }

    /// The detection is over.
    pub open spec fn finish(self) -> (DetectState, RequestView) {
        (DetectState { phase: DetectPhase::Done, ..self }, RequestView::Finish)
    }

    /// The end of the first window: over, unless a shell has to be confirmed.
    pub open spec fn after_listening(self) -> (DetectState, RequestView) {
        if first_look(utf8_lossy(self.first)) == FirstLook::MaybeShell {
            (
                DetectState { phase: DetectPhase::Probing, ..self },
                RequestView::Write("echo $SHELL\r".spec_bytes()),
            )
        } else {
            self.finish()
        }
    }

    /// The start of another round of the first window: one more read while
    /// fewer than `LISTEN_MS` milliseconds have passed.
    pub open spec fn listen(self, now: u64) -> (DetectState, RequestView) {
        if elapsed_ms(self.started, now) < LISTEN_MS {
            (DetectState { phase: DetectPhase::Listening, ..self }, RequestView::Read(1024))
        } else {
            self.after_listening()
        }
    }

    /// The start of another round of the second window: one more read while
    /// fewer than `CONFIRM_MS` milliseconds have passed.
    pub open spec fn confirm(self, now: u64) -> (DetectState, RequestView) {
        if elapsed_ms(self.started, now) < CONFIRM_MS {
            (DetectState { phase: DetectPhase::Confirming, ..self }, RequestView::Read(1024))
        } else {
            self.finish()
        }
    }

    /// One step: the state and the request that follow a reply.
    ///
    /// Within a window, bytes that a read gave are kept and a pause of 10 ms
    /// follows every read; a timeout counts as a read that gave nothing. A
    /// failed write, and a read that failed otherwise than by timeout, end
    /// the detection.
    pub open spec fn next(self, reply: ReplyView, now: u64) -> (DetectState, RequestView) {
        match self.phase {
            DetectPhase::Idle => (self, RequestView::Finish),
            DetectPhase::Flushing => (
                DetectState { phase: DetectPhase::Waking, ..self },
                RequestView::Write("\r".spec_bytes()),
            ),
            DetectPhase::Waking => match reply {
                ReplyView::Failed(text) => DetectState { failure: Some(text), ..self }.finish(),
                _ => (
                    DetectState { phase: DetectPhase::WakeSettle, ..self },
                    RequestView::Sleep(200),
                ),
            },
            DetectPhase::WakeSettle => DetectState { started: now, ..self }.listen(now),
            DetectPhase::Listening => match reply {
                ReplyView::Bytes(data) => (
                    DetectState { phase: DetectPhase::ListenPause, first: self.first + data, ..self },
                    RequestView::Sleep(10),
                ),
                ReplyView::Failed(text) => DetectState { failure: Some(text), ..self }.finish(),
                _ => (
                    DetectState { phase: DetectPhase::ListenPause, ..self },
                    RequestView::Sleep(10),
                ),
            },
            DetectPhase::ListenPause => self.listen(now),
            DetectPhase::Probing => match reply {
                ReplyView::Failed(text) => DetectState { failure: Some(text), ..self }.finish(),
                _ => (
                    DetectState { phase: DetectPhase::ProbeSettle, ..self },
                    RequestView::Sleep(200),
                ),
            },
            DetectPhase::ProbeSettle => DetectState { started: now, ..self }.confirm(now),
            DetectPhase::Confirming => match reply {
                ReplyView::Bytes(data) => (
                    DetectState {
                        phase: DetectPhase::ConfirmPause,
                        second: self.second + data,
                        ..self
                    },
                    RequestView::Sleep(10),
                ),
                ReplyView::Failed(text) => DetectState { failure: Some(text), ..self }.finish(),
                _ => (
                    DetectState { phase: DetectPhase::ConfirmPause, ..self },
                    RequestView::Sleep(10),
                ),
            },
            DetectPhase::ConfirmPause => self.confirm(now),
            DetectPhase::Done => (self, RequestView::Finish),
        }
    }

    /// What the detection has to say once it is over: the failure of a
    /// write or of a read, or the mode that the two transcripts give.
    pub open spec fn outcome(self) -> Result<DeviceMode, ErrorView> {
        match self.failure {
            Some(text) => Err(ErrorView::Transport(text)),
            None => Ok(classify(utf8_lossy(self.first), utf8_lossy(self.second))),
        }
    }
}

/// One detection of the device's mode.
pub struct DetectMode {
    phase: DetectPhase,
    started: u64,
    first: Vec<u8>,
    second: Vec<u8>,
    failure: Option<String>,
}

impl View for DetectMode {
    type V = DetectState;

    closed spec fn view(&self) -> DetectState {
        DetectState {
            phase: self.phase,
            started: self.started,
            first: self.first@,
            second: self.second@,
            failure: match self.failure {
                Some(text) => Some(text@),
                None => None,
            },
        }
    }
}

impl DetectMode {
    /// A detection that has not begun.
    pub fn new() -> (r: DetectMode)
        ensures
            r@ == DetectState::fresh(),
    {
        DetectMode {
            phase: DetectPhase::Idle,
            started: 0,
            first: Vec::new(),
            second: Vec::new(),
            failure: None,
        }
    }

    /// Begins the detection.
    pub fn begin(&mut self) -> (req: Request)
        ensures
            final(self)@ == old(self)@.begin().0,
            req@ == old(self)@.begin().1,
    {
        self.phase = DetectPhase::Flushing;
        self.started = 0;
        self.first = Vec::new();
        self.second = Vec::new();
        self.failure = None;
        Request::Read(1024)
    }

    fn finish(&mut self) -> (req: Request)
        ensures
            final(self)@ == old(self)@.finish().0,
            req@ == old(self)@.finish().1,
    {
        self.phase = DetectPhase::Done;
        Request::Finish
    }

    fn after_listening(&mut self) -> (req: Request)
        ensures
            final(self)@ == old(self)@.after_listening().0,
            req@ == old(self)@.after_listening().1,
    {
        let text = decode_lossy(self.first.as_slice());
        match look_at_first(text.as_str()) {
            FirstLook::MaybeShell => {
                self.phase = DetectPhase::Probing;
                Request::Write(bytes_of("echo $SHELL\r"))
            },
            _ => self.finish(),
        }
    }

    fn listen(&mut self, now: u64) -> (req: Request)
        ensures
            final(self)@ == old(self)@.listen(now).0,
            req@ == old(self)@.listen(now).1,
    {
        if elapsed(self.started, now) < LISTEN_MS {
            self.phase = DetectPhase::Listening;
            Request::Read(1024)
        } else {
            self.after_listening()
        }
    }

    fn confirm(&mut self, now: u64) -> (req: Request)
        ensures
            final(self)@ == old(self)@.confirm(now).0,
            req@ == old(self)@.confirm(now).1,
    {
        if elapsed(self.started, now) < CONFIRM_MS {
            self.phase = DetectPhase::Confirming;
            Request::Read(1024)
        } else {
            self.finish()
        }
    }

    /// Takes the host's reply to the last request, at time `now`, and gives
    /// the next request.
    pub fn step(&mut self, reply: Reply, now: u64) -> (req: Request)
        ensures
            final(self)@ == old(self)@.next(reply@, now).0,
            req@ == old(self)@.next(reply@, now).1,
    {
        match self.phase {
            DetectPhase::Idle => Request::Finish,
            DetectPhase::Flushing => {
                self.phase = DetectPhase::Waking;
                Request::Write(bytes_of("\r"))
            },
            DetectPhase::Waking => match reply {
                Reply::Failed(text) => {
                    self.failure = Some(text);
                    self.finish()
                },
                _ => {
                    self.phase = DetectPhase::WakeSettle;
                    Request::Sleep(200)
                },
            },
            DetectPhase::WakeSettle => {
                self.started = now;
                self.listen(now)
            },
            DetectPhase::Listening => match reply {
                Reply::Bytes(mut data) => {
                    self.first.append(&mut data);
                    self.phase = DetectPhase::ListenPause;
                    Request::Sleep(10)
                },
                Reply::Failed(text) => {
                    self.failure = Some(text);
                    self.finish()
                },
                _ => {
                    self.phase = DetectPhase::ListenPause;
                    Request::Sleep(10)
                },
            },
            DetectPhase::ListenPause => self.listen(now),
            DetectPhase::Probing => match reply {
                Reply::Failed(text) => {
                    self.failure = Some(text);
                    self.finish()
                },
                _ => {
                    self.phase = DetectPhase::ProbeSettle;
                    Request::Sleep(200)
                },
            },
            DetectPhase::ProbeSettle => {
                self.started = now;
                self.confirm(now)
            },
            DetectPhase::Confirming => match reply {
                Reply::Bytes(mut data) => {
                    self.second.append(&mut data);
                    self.phase = DetectPhase::ConfirmPause;
                    Request::Sleep(10)
                },
                Reply::Failed(text) => {
                    self.failure = Some(text);
                    self.finish()
                },
                _ => {
                    self.phase = DetectPhase::ConfirmPause;
                    Request::Sleep(10)
                },
            },
            DetectPhase::ConfirmPause => self.confirm(now),
            DetectPhase::Done => Request::Finish,
        }
    }

    /// Whether the detection is over.
    pub fn is_finished(&self) -> (r: bool)
        ensures
            r == (self@.phase == DetectPhase::Done),
    {
        match self.phase {
            DetectPhase::Done => true,
            _ => false,
        }
    }

    /// The mode that was detected, or the failure that ended the detection.
    /// It is the outcome of the whole detection once the detection is over.
    pub fn outcome(&self) -> (r: Result<DeviceMode, Error>)
        ensures
            match r {
                Ok(mode) => self@.outcome() == Ok::<DeviceMode, ErrorView>(mode),
                Err(e) => self@.outcome() == Err::<DeviceMode, ErrorView>(e@),
            },
    {
        match &self.failure {
            Some(text) => Err(Error::Transport(text.clone())),
            None => {
                let first = decode_lossy(self.first.as_slice());
                let second = decode_lossy(self.second.as_slice());
                Ok(classify_transcripts(first.as_str(), second.as_str()))
            },
        }
    }
}

} // verus!
