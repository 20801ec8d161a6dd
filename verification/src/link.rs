//! The conversation between the engine and its host. The engine never
//! touches a port, a clock or a terminal: it hands the host one [`Request`]
//! at a time, and the host answers each with one [`Reply`] and the time.

use vstd::prelude::*;
use crate::keys::KeyPress;
use vstd::string::StringSliceAdditionalSpecFns;

verus! {

/// What the engine asks of its host.
#[derive(Debug, PartialEq, Eq)]
pub enum Request {
    /// Write all of these bytes to the device, then flush.
    Write(Vec<u8>),
    /// Read once from the device, at most this many bytes, for no longer
    /// than the port's own timeout.
    Read(usize),
    /// Pause for this many milliseconds.
    Sleep(u64),
    /// Put these bytes on the local display, then flush.
    Show(Vec<u8>),
    /// Wait up to this many milliseconds for a key press.
    PollKey(u64),
    /// Read one line from the local input.
    ReadLine,
    /// Switch the local terminal into raw input mode, or back out of it.
    RawTerminal(bool),
    /// Drive the data-terminal-ready line.
    SetDtr(bool),
    /// Drive the request-to-send line.
    SetRts(bool),
    /// Nothing more: the operation is over and its outcome can be read.
    Finish,
}

/// The mathematical content of a [`Request`].
pub enum RequestView {
    Write(Seq<u8>),
    Read(usize),
    Sleep(u64),
    Show(Seq<u8>),
    PollKey(u64),
    ReadLine,
    RawTerminal(bool),
    SetDtr(bool),
    SetRts(bool),
    Finish,
}

impl View for Request {
    type V = RequestView;

    open spec fn view(&self) -> RequestView {
        match self {
            Request::Write(bytes) => RequestView::Write(bytes@),
            Request::Read(most) => RequestView::Read(*most),
            Request::Sleep(ms) => RequestView::Sleep(*ms),
            Request::Show(bytes) => RequestView::Show(bytes@),
            Request::PollKey(ms) => RequestView::PollKey(*ms),
            Request::ReadLine => RequestView::ReadLine,
            Request::RawTerminal(on) => RequestView::RawTerminal(*on),
            Request::SetDtr(on) => RequestView::SetDtr(*on),
            Request::SetRts(on) => RequestView::SetRts(*on),
            Request::Finish => RequestView::Finish,
        }
    }
}

/// What the host reports back.
#[derive(Debug, PartialEq, Eq)]
pub enum Reply {
    /// The request was carried out and there is nothing to report: the bytes
    /// are written, the pause is over, no key was pressed, the input is at
    /// its end.
    Ack,
    /// A read gave these bytes; none at all when the device was silent.
    Bytes(Vec<u8>),
    /// A read ended with the transport's timeout error.
    TimedOut,
    /// The request failed for any other reason. The text is the host's.
    Failed(String),
    /// A key was pressed.
    Key(KeyPress),
    /// A line was read from the local input, its line ending included.
    Line(String),
}

/// The mathematical content of a [`Reply`].
pub enum ReplyView {
    Ack,
    Bytes(Seq<u8>),
    TimedOut,
    Failed(Seq<char>),
    Key(KeyPress),
    Line(Seq<char>),
}

impl View for Reply {
    type V = ReplyView;

    open spec fn view(&self) -> ReplyView {
        match self {
            Reply::Ack => ReplyView::Ack,
            Reply::Bytes(bytes) => ReplyView::Bytes(bytes@),
            Reply::TimedOut => ReplyView::TimedOut,
            Reply::Failed(text) => ReplyView::Failed(text@),
            Reply::Key(press) => ReplyView::Key(*press),
            Reply::Line(text) => ReplyView::Line(text@),
        }
    }
}

/// The milliseconds from `started` to `now`; none if the clock went back.
pub open spec fn elapsed_ms(started: u64, now: u64) -> u64 {
    if now >= started {
        (now - started) as u64
    } else {
        0
    }
}

/// The milliseconds from `started` to `now`; none if the clock went back.
pub fn elapsed(started: u64, now: u64) -> (ms: u64)
    ensures
        ms == elapsed_ms(started, now),
{
    if now >= started {
        now - started
    } else {
        0
    }
}

/// The one-byte sequence `a`.
pub fn bytes1(a: u8) -> (v: Vec<u8>)
    ensures
        v@ == seq![a],
{
    let mut v: Vec<u8> = Vec::new();
    v.push(a);
    proof {
        assert(v@ =~= seq![a]);
    }
    v
}

/// The two-byte sequence `a`, `b`.
pub fn bytes2(a: u8, b: u8) -> (v: Vec<u8>)
    ensures
        v@ == seq![a, b],
{
    let mut v: Vec<u8> = Vec::new();
    v.push(a);
    v.push(b);
    proof {
        assert(v@ =~= seq![a, b]);
    }
    v
}

/// The bytes of a text, in UTF-8.
pub fn bytes_of(text: &str) -> (v: Vec<u8>)
    ensures
        v@ == text.spec_bytes(),
{
    let bytes = text.as_bytes();
    let v = copy_bytes(bytes, 0, bytes.len());
    proof {
        assert(bytes@.subrange(0, bytes@.len() as int) =~= bytes@);
    }
    v
}

/// The bytes of `v` from index `from` up to, not including, `to`.
pub fn copy_bytes(v: &[u8], from: usize, to: usize) -> (r: Vec<u8>)
    requires
        from <= to <= v.len(),
    ensures
        r@ == v@.subrange(from as int, to as int),
{
    let mut r: Vec<u8> = Vec::new();
    let mut i: usize = from;
    while i < to
        invariant
            from <= i <= to <= v.len(),
            r@ == v@.subrange(from as int, i as int),
        decreases to - i,
    {
        r.push(v[i]);
        i += 1;
    }
    r
}

} // verus!
