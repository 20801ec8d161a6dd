//! The live pass-through between the device and the local terminal: what
//! the device sends is shown at once, and what is typed goes to the device.
//! In script mode whole lines are forwarded and the terminal is left alone;
//! in interactive mode single keys are, with the terminal in raw input mode
//! for the length of the loop and restored on every way out of it.

use vstd::prelude::*;
use vstd::string::StringSliceAdditionalSpecFns;
use vstd::utf8::encode_utf8;
use crate::error::{Error, ErrorView};
use crate::exec::{EXIT_RAW, INTERRUPT};
use crate::keys::{is_exit, key_bytes, map_key, KeyAction, KeyPress};
use crate::link::{bytes1, bytes_of, Reply, ReplyView, Request, RequestView};

verus! {

/// How long a key press is waited for, in milliseconds.
pub const KEY_POLL_MS: u64 = 5;

/// Where a bridge stands.
#[derive(Clone, Copy, Debug, PartialEq, Eq, Structural)]
pub enum BridgePhase {
    /// Not begun.
    Idle,
    /// The interrupt byte is being written.
    Interrupting,
    /// The pause after it.
    InterruptSettle,
    /// The byte that leaves raw mode is being written.
    Normalizing,
    /// The pause after it.
    NormalizeSettle,
    /// Output that was pending is being read.
    Draining,
    /// That output is being shown.
    ShowingPending,
    /// The terminal is being switched into raw input mode.
    TakingTerminal,
    /// A read of the loop is out.
    Reading,
    /// What it gave is being shown.
    Showing,
    /// A key press is waited for.
    PollingKey,
    /// The bytes of a key are being written.
    Typing,
    /// A line of the local input is being read.
    ReadingLine,
    /// That line is being written.
    SendingLine,
    /// The carriage return after it is being written.
    EndingLine,
    /// The pause that ends a round in script mode.
    Pausing,
    /// The terminal is being switched back.
    Restoring,
    /// Over.
    Done,
}

/// The mathematical state of a [`Bridge`].
pub struct BridgeState {
    pub phase: BridgePhase,
    /// Whether single keys are forwarded, with the terminal in raw input
    /// mode; otherwise whole lines are.
    pub interactive: bool,
    /// The host's text for the failure that ended the bridge.
    pub failure: Option<Seq<char>>,
}

impl BridgeState {
    /// A bridge that has not begun.
    pub open spec fn fresh(interactive: bool) -> BridgeState {
        BridgeState { phase: BridgePhase::Idle, interactive, failure: None }
    }

    /// The bridge has asked for the terminal and has not yet asked to give
    /// it back.
    pub open spec fn holds_terminal(self) -> bool {
        self.interactive && match self.phase {
            BridgePhase::TakingTerminal
            | BridgePhase::Reading
            | BridgePhase::Showing
            | BridgePhase::PollingKey
            | BridgePhase::Typing => true,
            _ => false,
        }
    }

    /// The beginning: the interrupt byte goes out.
    pub open spec fn begin(self) -> (BridgeState, RequestView) {
        (
            BridgeState { phase: BridgePhase::Interrupting, failure: None, ..self },
            RequestView::Write(seq![INTERRUPT]),
        )
    }

    /// The bridge is over, with a failure from before the loop.
    pub open spec fn abort(self, text: Seq<char>) -> (BridgeState, RequestView) {
        (
            BridgeState { phase: BridgePhase::Done, failure: Some(text), ..self },
            RequestView::Finish,
        )
    }

    /// The way out of the loop: in interactive mode the terminal is
    /// switched back first.
    pub open spec fn leave(self, failure: Option<Seq<char>>) -> (BridgeState, RequestView) {
        if self.interactive {
            (
                BridgeState { phase: BridgePhase::Restoring, failure, ..self },
                RequestView::RawTerminal(false),
            )
        } else {
            (BridgeState { phase: BridgePhase::Done, failure, ..self }, RequestView::Finish)
        }
    }

    /// A read of the loop goes out.
    pub open spec fn read(self) -> (BridgeState, RequestView) {
        (BridgeState { phase: BridgePhase::Reading, ..self }, RequestView::Read(1024))
    }

    /// Pending output is dealt with: in interactive mode the terminal is
    /// taken, and then the loop begins.
    pub open spec fn after_drain(self) -> (BridgeState, RequestView) {
        if self.interactive {
            (
                BridgeState { phase: BridgePhase::TakingTerminal, ..self },
                RequestView::RawTerminal(true),
            )
        } else {
            self.read()
        }
    }

    /// The device is dealt with for this round: now the local input is
    /// looked at.
    pub open spec fn after_read(self) -> (BridgeState, RequestView) {
        if self.interactive {
            (
                BridgeState { phase: BridgePhase::PollingKey, ..self },
                RequestView::PollKey(KEY_POLL_MS),
            )
        } else {
            (BridgeState { phase: BridgePhase::ReadingLine, ..self }, RequestView::ReadLine)
        }
    }

    /// One step: the state and the request that follow a reply.
    ///
    /// Before the loop a failed write, or a failure to show pending output,
    /// ends the bridge. In the loop, bytes from the device are shown at
    /// once. A key is mapped by `key_bytes`; the exit key ends the loop. A
    /// line goes out as it was read, followed by a carriage return. A read
    /// that failed otherwise than by timeout, a failed write, a failure to
    /// show, and a failure to poll for a key end the loop with that
    /// failure.
    pub open spec fn next(self, reply: ReplyView) -> (BridgeState, RequestView) {
        match self.phase {
            BridgePhase::Idle => (self, RequestView::Finish),
            BridgePhase::Interrupting => match reply {
                ReplyView::Failed(text) => self.abort(text),
                _ => (
                    BridgeState { phase: BridgePhase::InterruptSettle, ..self },
                    RequestView::Sleep(100),
                ),
            },
            BridgePhase::InterruptSettle => if self.interactive {
                (
                    BridgeState { phase: BridgePhase::Normalizing, ..self },
                    RequestView::Write(seq![EXIT_RAW]),
                )
            } else {
                (BridgeState { phase: BridgePhase::Draining, ..self }, RequestView::Read(1024))
            },
            BridgePhase::Normalizing => match reply {
                ReplyView::Failed(text) => self.abort(text),
                _ => (
                    BridgeState { phase: BridgePhase::NormalizeSettle, ..self },
                    RequestView::Sleep(100),
                ),
            },
            BridgePhase::NormalizeSettle => (
                BridgeState { phase: BridgePhase::Draining, ..self },
                RequestView::Read(1024),
            ),
            BridgePhase::Draining => match reply {
                ReplyView::Bytes(data) => if data.len() > 0 {
                    (
                        BridgeState { phase: BridgePhase::ShowingPending, ..self },
                        RequestView::Show(data),
                    )
                } else {
                    self.after_drain()
                },
                _ => self.after_drain(),
            },
            BridgePhase::ShowingPending => match reply {
                ReplyView::Failed(text) => self.abort(text),
                _ => self.after_drain(),
            },
            BridgePhase::TakingTerminal => self.read(),
            BridgePhase::Reading => match reply {
                ReplyView::Bytes(data) => if data.len() > 0 {
                    (BridgeState { phase: BridgePhase::Showing, ..self }, RequestView::Show(data))
                } else {
                    self.after_read()
                },
                ReplyView::Failed(text) => self.leave(Some(text)),
                _ => self.after_read(),
            },
            BridgePhase::Showing => match reply {
                ReplyView::Failed(text) => self.leave(Some(text)),
                _ => self.after_read(),
            },
            BridgePhase::PollingKey => match reply {
                ReplyView::Key(press) => if is_exit(press) {
                    self.leave(None)
                } else {
                    match key_bytes(press) {
                        Some(bytes) => (
                            BridgeState { phase: BridgePhase::Typing, ..self },
                            RequestView::Write(bytes),
                        ),
                        None => self.read(),
                    }
                },
                ReplyView::Failed(text) => self.leave(Some(text)),
                _ => self.read(),
            },
            BridgePhase::Typing => match reply {
                ReplyView::Failed(text) => self.leave(Some(text)),
                _ => self.read(),
            },
            BridgePhase::ReadingLine => match reply {
                ReplyView::Line(text) => if text.len() > 0 {
                    (
                        BridgeState { phase: BridgePhase::SendingLine, ..self },
                        RequestView::Write(encode_utf8(text)),
                    )
                } else {
                    (BridgeState { phase: BridgePhase::Pausing, ..self }, RequestView::Sleep(10))
                },
                _ => (BridgeState { phase: BridgePhase::Pausing, ..self }, RequestView::Sleep(10)),
            },
            BridgePhase::SendingLine => match reply {
                ReplyView::Failed(text) => self.leave(Some(text)),
                _ => (
                    BridgeState { phase: BridgePhase::EndingLine, ..self },
                    RequestView::Write("\r".spec_bytes()),
                ),
            },
            BridgePhase::EndingLine => match reply {
                ReplyView::Failed(text) => self.leave(Some(text)),
                _ => (BridgeState { phase: BridgePhase::Pausing, ..self }, RequestView::Sleep(10)),
            },
            BridgePhase::Pausing => self.read(),
            BridgePhase::Restoring => (
                BridgeState { phase: BridgePhase::Done, ..self },
                RequestView::Finish,
            ),
            BridgePhase::Done => (self, RequestView::Finish),
        }
    }

    /// What the bridge has to say once it is over.
    pub open spec fn outcome(self) -> Result<(), ErrorView> {
        match self.failure {
            Some(text) => Err(ErrorView::Transport(text)),
            None => Ok(()),
        }
    }
}

/// One run of the pass-through.
pub struct Bridge {
    phase: BridgePhase,
    interactive: bool,
    failure: Option<String>,
}

impl View for Bridge {
    type V = BridgeState;

    closed spec fn view(&self) -> BridgeState {
        BridgeState {
            phase: self.phase,
            interactive: self.interactive,
            failure: match self.failure {
                Some(text) => Some(text@),
                None => None,
            },
        }
    }
}

impl Bridge {
    /// A bridge in interactive mode if the local input is a terminal, in
    /// script mode if it is not.
    pub fn new(input_is_terminal: bool) -> (r: Bridge)
        ensures
            r@ == BridgeState::fresh(input_is_terminal),
    {
        Bridge { phase: BridgePhase::Idle, interactive: input_is_terminal, failure: None }
    }

    /// Whether the bridge forwards single keys.
    pub fn is_interactive(&self) -> (r: bool)
        ensures
            r == self@.interactive,
    {
        self.interactive
    }

    /// Begins the bridge.
    pub fn begin(&mut self) -> (req: Request)
        ensures
            final(self)@ == old(self)@.begin().0,
            req@ == old(self)@.begin().1,
    {
        self.phase = BridgePhase::Interrupting;
        self.failure = None;
        Request::Write(bytes1(INTERRUPT))
    }

    fn abort(&mut self, text: String) -> (req: Request)
        ensures
            final(self)@ == old(self)@.abort(text@).0,
            req@ == old(self)@.abort(text@).1,
    {
        self.failure = Some(text);
        self.phase = BridgePhase::Done;
        Request::Finish
    }

    fn leave(&mut self, failure: Option<String>) -> (req: Request)
        ensures
            final(self)@ == old(self)@.leave(
                match failure {
                    Some(text) => Some(text@),
                    None => None,
                },
            ).0,
            req@ == old(self)@.leave(
                match failure {
                    Some(text) => Some(text@),
                    None => None,
                },
            ).1,
    {
        self.failure = failure;
        if self.interactive {
            self.phase = BridgePhase::Restoring;
            Request::RawTerminal(false)
        } else {
            self.phase = BridgePhase::Done;
            Request::Finish
        }
    }

    fn read(&mut self) -> (req: Request)
        ensures
            final(self)@ == old(self)@.read().0,
            req@ == old(self)@.read().1,
    {
        self.phase = BridgePhase::Reading;
        Request::Read(1024)
    }

    fn after_drain(&mut self) -> (req: Request)
        ensures
            final(self)@ == old(self)@.after_drain().0,
            req@ == old(self)@.after_drain().1,
    {
        if self.interactive {
            self.phase = BridgePhase::TakingTerminal;
            Request::RawTerminal(true)
        } else {
            self.read()
        }
    }

    fn after_read(&mut self) -> (req: Request)
        ensures
            final(self)@ == old(self)@.after_read().0,
            req@ == old(self)@.after_read().1,
    {
        if self.interactive {
            self.phase = BridgePhase::PollingKey;
            Request::PollKey(KEY_POLL_MS)
        } else {
            self.phase = BridgePhase::ReadingLine;
            Request::ReadLine
        }
    }

    fn pause(&mut self) -> (req: Request)
        ensures
            final(self)@ == (BridgeState { phase: BridgePhase::Pausing, ..old(self)@ }),
            req@ == RequestView::Sleep(10),
    {
        self.phase = BridgePhase::Pausing;
        Request::Sleep(10)
    }

    /// Takes the host's reply to the last request and gives the next
    /// request.
    pub fn step(&mut self, reply: Reply) -> (req: Request)
        ensures
            final(self)@ == old(self)@.next(reply@).0,
            req@ == old(self)@.next(reply@).1,
    {
        match self.phase {
            BridgePhase::Idle => Request::Finish,
            BridgePhase::Interrupting => match reply {
                Reply::Failed(text) => self.abort(text),
                _ => {
                    self.phase = BridgePhase::InterruptSettle;
                    Request::Sleep(100)
                },
            },
            BridgePhase::InterruptSettle => {
                if self.interactive {
                    self.phase = BridgePhase::Normalizing;
                    Request::Write(bytes1(EXIT_RAW))
                } else {
                    self.phase = BridgePhase::Draining;
                    Request::Read(1024)
                }
            },
            BridgePhase::Normalizing => match reply {
                Reply::Failed(text) => self.abort(text),
                _ => {
                    self.phase = BridgePhase::NormalizeSettle;
                    Request::Sleep(100)
                },
            },
            BridgePhase::NormalizeSettle => {
                self.phase = BridgePhase::Draining;
                Request::Read(1024)
            },
            BridgePhase::Draining => match reply {
                Reply::Bytes(data) => {
                    if data.len() > 0 {
                        self.phase = BridgePhase::ShowingPending;
                        Request::Show(data)
                    } else {
                        self.after_drain()
                    }
                },
                _ => self.after_drain(),
            },
            BridgePhase::ShowingPending => match reply {
                Reply::Failed(text) => self.abort(text),
                _ => self.after_drain(),
            },
            BridgePhase::TakingTerminal => self.read(),
            BridgePhase::Reading => match reply {
                Reply::Bytes(data) => {
                    if data.len() > 0 {
                        self.phase = BridgePhase::Showing;
                        Request::Show(data)
                    } else {
                        self.after_read()
                    }
                },
                Reply::Failed(text) => self.leave(Some(text)),
                _ => self.after_read(),
            },
            BridgePhase::Showing => match reply {
                Reply::Failed(text) => self.leave(Some(text)),
                _ => self.after_read(),
            },
            BridgePhase::PollingKey => match reply {
                Reply::Key(press) => match map_key(press) {
                    KeyAction::Exit => self.leave(None),
                    KeyAction::Send(bytes) => {
                        self.phase = BridgePhase::Typing;
                        Request::Write(bytes)
                    },
                    KeyAction::Ignore => self.read(),
                },
                Reply::Failed(text) => self.leave(Some(text)),
                _ => self.read(),
            },
            BridgePhase::Typing => match reply {
                Reply::Failed(text) => self.leave(Some(text)),
                _ => self.read(),
            },
            BridgePhase::ReadingLine => match reply {
                Reply::Line(text) => {
                    let bytes = bytes_of(text.as_str());
                    if text.as_str().is_empty() {
                        self.pause()
                    } else {
                        self.phase = BridgePhase::SendingLine;
                        Request::Write(bytes)
                    }
                },
                _ => self.pause(),
            },
            BridgePhase::SendingLine => match reply {
                Reply::Failed(text) => self.leave(Some(text)),
                _ => {
                    self.phase = BridgePhase::EndingLine;
                    Request::Write(bytes_of("\r"))
                },
            },
            BridgePhase::EndingLine => match reply {
                Reply::Failed(text) => self.leave(Some(text)),
                _ => self.pause(),
            },
            BridgePhase::Pausing => self.read(),
            BridgePhase::Restoring => {
                self.phase = BridgePhase::Done;
                Request::Finish
            },
            BridgePhase::Done => Request::Finish,
        }
    }

    /// Whether the bridge is over.
    pub fn is_finished(&self) -> (r: bool)
        ensures
            r == (self@.phase == BridgePhase::Done),
    {
        match self.phase {
            BridgePhase::Done => true,
            _ => false,
        }
    }

    /// Success, or the failure that ended the bridge. It is the outcome of
    /// the whole run once the bridge is over.
    pub fn outcome(&self) -> (r: Result<(), Error>)
        ensures
            match r {
                Ok(_) => self@.outcome() == Ok::<(), ErrorView>(()),
                Err(e) => self@.outcome() == Err::<(), ErrorView>(e@),
            },
    {
        match &self.failure {
            Some(text) => Err(Error::Transport(text.clone())),
            None => Ok(()),
        }
    }
}

/// The terminal is restored on every way out of the interactive loop. From
/// the moment the bridge has asked for the terminal, whatever the host
/// replies, the bridge either goes on holding it or asks for it to be
/// switched back; it is never over before that.
pub proof fn lemma_terminal_is_restored(s: BridgeState, reply: ReplyView)
    requires
        s.holds_terminal(),
    ensures
        ({
            let (after, req) = s.next(reply);
            ||| after.holds_terminal() && req != RequestView::Finish && req
                != RequestView::RawTerminal(false)
            ||| after.phase == BridgePhase::Restoring && req == RequestView::RawTerminal(false)
        }),
        s.next(reply).0.interactive,
{
}

/// After the request to switch the terminal back, the bridge is over, with
/// whatever failure led out of the loop.
pub proof fn lemma_restoring_ends(s: BridgeState, reply: ReplyView)
    requires
        s.phase == BridgePhase::Restoring,
    ensures
        s.next(reply) == (BridgeState { phase: BridgePhase::Done, ..s }, RequestView::Finish),
{
}

/// In script mode the terminal is left alone: no request ever asks for a
/// change of its mode, nor for a key.
pub proof fn lemma_script_mode_leaves_terminal(s: BridgeState, reply: ReplyView)
    requires
        !s.interactive,
    ensures
        !(s.next(reply).1 is RawTerminal),
        !(s.next(reply).1 is PollKey),
        !s.next(reply).0.interactive,
        !(s.begin().1 is RawTerminal),
{
}

/// In interactive mode a key press is mapped by the key table: what goes to
/// the device for a key is exactly `key_bytes` of it, and the exit key sends
/// nothing and leads out of the loop.
pub proof fn lemma_keys_go_out_mapped(s: BridgeState, press: KeyPress)
    requires
        s.phase == BridgePhase::PollingKey,
    ensures
        is_exit(press) ==> s.next(ReplyView::Key(press)) == s.leave(None),
        !is_exit(press) && key_bytes(press) is Some ==> s.next(ReplyView::Key(press)).1
            == RequestView::Write(key_bytes(press)->Some_0),
        !is_exit(press) && key_bytes(press) is None ==> s.next(ReplyView::Key(press)) == s.read(),
{
}

} // verus!
