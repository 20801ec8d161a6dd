//! Listings and file transfer through the upyOS shell: plain commands, the
//! prompt `$:` as the end of every answer, and a line-by-line upload.

use vstd::prelude::*;
use vstd::string::{StringExecFns, StringSliceAdditionalSpecFns};
use vstd::utf8::encode_utf8;
use crate::error::{Error, ErrorView};
use crate::exec::EXECUTE;
use crate::files::{select_lines, selected, LineRule};
use crate::frame::{Budget, FrameReader, ReaderPhase, ReaderState};
use crate::link::{bytes1, bytes_of, copy_bytes, Reply, ReplyView, Request, RequestView};
use crate::mode::DeviceMode;
use crate::search::{
    after_last,
    after_last_char,
    contains,
    lemma_after_last,
    lemma_position,
    position,
    position_of_char,
};
use crate::text::{
    chars_of,
    copy_chars,
    decode_lossy,
    join_rows,
    joined,
    lines,
    rows,
    split_lines,
    string_of,
    text_contains,
    texts,
    to_strings,
    utf8_lossy,
};

verus! {

/// The most bytes of content that a shell upload accepts.
pub const UPLOAD_LIMIT: usize = 20000;

/// How long the answer to a listing is awaited, in milliseconds.
pub const LISTING_WAIT_MS: u64 = 5000;

/// How long the content of a file is awaited, in milliseconds.
pub const CONTENT_WAIT_MS: u64 = 10000;

/// How long the start of an upload is awaited, in milliseconds.
pub const UPLOAD_START_WAIT_MS: u64 = 5000;

/// How long the prompt for each line of an upload is awaited, in
/// milliseconds.
pub const LINE_PROMPT_WAIT_MS: u64 = 500;

/// How long the shell prompt is awaited after an upload, in milliseconds.
pub const UPLOAD_END_WAIT_MS: u64 = 10000;

/// The shell command made of a verb, a blank, an argument and a carriage
/// return.
pub open spec fn shell_command(verb: Seq<char>, argument: Seq<char>) -> Seq<char> {
    verb + " "@ + argument + "\r"@
}

/// The shell command made of a verb and an argument.
pub fn build_command(verb: &str, argument: &str) -> (r: String)
    ensures
        r@ == shell_command(verb@, argument@),
{
    let mut r = verb.to_owned();
    r.append(" ");
    r.append(argument);
    r.append("\r");
    r
}

/// The reader that waits for one marker, or either of two, as the shell
/// operations do: while fewer than `limit_ms` milliseconds have passed.
pub open spec fn shell_wait(
    needle: Seq<u8>,
    alt: Option<Seq<u8>>,
    limit_ms: u64,
    pause_ms: u64,
    chunk: usize,
) -> ReaderState {
    ReaderState::fresh(needle, alt, Budget::Under(limit_ms), pause_ms, chunk)
}

/// The reader that waits for the shell prompt `$:`.
pub open spec fn prompt_wait(limit_ms: u64) -> ReaderState {
    shell_wait("$:".spec_bytes(), None, limit_ms, 10, 1024)
}

/// The names in the answer to a listing: its trimmed lines, without the
/// empty ones and without those that hold a prompt.
pub fn shell_listing_entries(answer: &str) -> (r: Vec<String>)
    ensures
        texts(r@) == selected(answer@, LineRule::ShellNames),
{
    let table = select_lines(answer, LineRule::ShellNames);
    to_strings(&table)
}

/// The length of an answer without the line feed that may end it: the part
/// in which every line feed stands between two lines.
pub open spec fn body_len(answer: Seq<char>) -> int {
    if answer.len() > 0 && answer.last() == '\n' {
        answer.len() - 1
    } else {
        answer.len() as int
    }
}

/// The content in the answer to a `cat`. The first line of the answer
/// echoes the command and the last is the prompt: the content is what
/// stands between them, from just behind the line feed of the first line up
/// to where the last line begins, as it came, line endings included. An
/// answer of those two lines alone has empty content. An answer of one line
/// or none is that line, without its line ending.
pub open spec fn shell_file_text(answer: Seq<char>) -> Seq<char> {
    let first_break = position(answer, '\n');
    if first_break < body_len(answer) {
        answer.subrange(first_break + 1, after_last(answer.take(body_len(answer)), '\n'))
    } else {
        joined(lines(answer), seq!['\n'])
    }
}

/// The content in the answer to a `cat`.
pub fn shell_file_content(answer: &str) -> (r: String)
    ensures
        r@ == shell_file_text(answer@),
{
    let chars = chars_of(answer);
    let n: usize = chars.len();
    let body: usize = if n > 0 && chars[n - 1] == '\n' {
        n - 1
    } else {
        n
    };
    let first_break: usize = position_of_char(chars.as_slice(), 0, '\n');
    proof {
        assert(chars@.skip(0) =~= chars@);
        lemma_position(chars@, '\n');
    }
    if first_break < body {
        let last_start: usize = after_last_char(chars.as_slice(), body, '\n');
        proof {
            let inner = chars@.take(body as int);
            lemma_after_last(inner, '\n');
            assert(inner[first_break as int] == '\n');
        }
        let text = copy_chars(chars.as_slice(), first_break + 1, last_start);
        string_of(text.as_slice())
    } else {
        let all = split_lines(chars.as_slice());
        let mut sep: Vec<char> = Vec::new();
        sep.push('\n');
        proof {
            assert(sep@ =~= seq!['\n']);
            assert(rows(all@).subrange(0, all@.len() as int) =~= rows(all@));
        }
        let text = join_rows(&all, 0, all.len(), sep.as_slice());
        string_of(text.as_slice())
    }
}

/// An answer that is just the echoed command and the prompt carries no
/// content, and whatever stands between the two comes out as it came: for
/// an echo and a prompt without line feeds in them, the content of the
/// answer `echo`, line feed, `middle`, `prompt` is `middle`, provided the
/// middle is empty or ends in a line feed.
pub proof fn lemma_content_is_verbatim(echo: Seq<char>, middle: Seq<char>, prompt: Seq<char>)
    requires
        forall|i: int| 0 <= i < echo.len() ==> echo[i] != '\n',
        forall|i: int| 0 <= i < prompt.len() ==> prompt[i] != '\n',
        prompt.len() > 0,
        middle.len() == 0 || middle.last() == '\n',
    ensures
        shell_file_text(echo + seq!['\n'] + middle + prompt) == middle,
{
    let answer = echo + seq!['\n'] + middle + prompt;
    let e = echo.len() as int;
    let m = middle.len() as int;
    lemma_position(answer, '\n');
    assert(answer[e] == '\n');
    assert forall|j: int| 0 <= j < e implies answer[j] != '\n' by {
        assert(answer[j] == echo[j]);
    }
    assert(position(answer, '\n') == e);
    assert(answer.last() == prompt.last());
    assert(body_len(answer) == answer.len());
    let inner = answer.take(body_len(answer));
    assert(inner =~= answer);
    lemma_after_last(inner, '\n');
    assert forall|j: int| e + 1 + m <= j < answer.len() implies answer[j] != '\n' by {
        assert(answer[j] == prompt[j - e - 1 - m]);
    }
    if m > 0 {
        assert(answer[e + m] == middle[m - 1]);
    }
    assert(after_last(inner, '\n') == e + 1 + m);
    assert(answer.subrange(e + 1, e + 1 + m) =~= middle);
}

/// Where a shell query stands.
#[derive(Clone, Copy, Debug, PartialEq, Eq, Structural)]
pub enum QueryPhase {
    /// Not begun.
    Idle,
    /// The command is being written.
    Writing,
    /// The prompt is awaited.
    Waiting,
    /// Over.
    Done,
}

/// The mathematical state of a [`ShellQuery`].
pub struct QueryState {
    pub phase: QueryPhase,
    /// The bytes of the command.
    pub command: Seq<u8>,
    /// How long the prompt is awaited, in milliseconds.
    pub limit_ms: u64,
    /// The reader of the wait.
    pub reader: ReaderState,
    /// The transport's text for the failed write that ended the query.
    pub failure: Option<Seq<char>>,
}

impl QueryState {
    /// A query that has not begun.
    pub open spec fn fresh(command: Seq<u8>, limit_ms: u64) -> QueryState {
        QueryState {
            phase: QueryPhase::Idle,
            command,
            limit_ms,
            reader: prompt_wait(limit_ms),
            failure: None,
        }
    }

    /// The beginning: the command goes out.
    pub open spec fn begin(self) -> (QueryState, RequestView) {
        (
            QueryState { phase: QueryPhase::Writing, failure: None, ..self },
            RequestView::Write(self.command),
        )
    }

    /// One step: the state and the request that follow a reply. A failed
    /// write ends the query, and so does a read of the wait that failed
    /// otherwise than by timeout; else the wait ends with the prompt or
    /// with the time.
    pub open spec fn next(self, reply: ReplyView, now: u64) -> (QueryState, RequestView) {
        match self.phase {
            QueryPhase::Writing => match reply {
                ReplyView::Failed(text) => (
                    QueryState { phase: QueryPhase::Done, failure: Some(text), ..self },
                    RequestView::Finish,
                ),
                _ => {
                    let (reader, req) = prompt_wait(self.limit_ms).begin(now);
                    if req == RequestView::Finish {
                        (QueryState { phase: QueryPhase::Done, reader, ..self }, req)
                    } else {
                        (QueryState { phase: QueryPhase::Waiting, reader, ..self }, req)
                    }
                },
            },
            QueryPhase::Waiting => {
                let (reader, req) = self.reader.next(reply, now);
                if req == RequestView::Finish {
                    (
                        QueryState {
                            phase: QueryPhase::Done,
                            reader,
                            failure: if reader.phase == ReaderPhase::Failed {
                                Some(reader.failure)
                            } else {
                                self.failure
                            },
                            ..self
                        },
                        req,
                    )
                } else {
                    (QueryState { reader, ..self }, req)
                }
            },
            _ => (self, RequestView::Finish),
        }
    }

    /// What the query has to say once it is over: the failure of the write
    /// or of a read, or everything received, as text.
    pub open spec fn outcome(self) -> Result<Seq<char>, ErrorView> {
        match self.failure {
            Some(text) => Err(ErrorView::Transport(text)),
            None => Ok(utf8_lossy(self.reader.buf)),
        }
    }
}

/// One shell command and the wait for the prompt after it.
pub struct ShellQuery {
    phase: QueryPhase,
    command: Vec<u8>,
    limit_ms: u64,
    reader: FrameReader,
    failure: Option<String>,
}

impl View for ShellQuery {
    type V = QueryState;

    closed spec fn view(&self) -> QueryState {
        QueryState {
            phase: self.phase,
            command: self.command@,
            limit_ms: self.limit_ms,
            reader: self.reader@,
            failure: match self.failure {
                Some(text) => Some(text@),
                None => None,
            },
        }
    }
}

/// The mode is the shell's, or else the mismatch to report.
fn require_shell(mode: DeviceMode) -> (r: Result<(), Error>)
    ensures
        match r {
            Ok(_) => mode == DeviceMode::UpyOS,
            Err(e) => mode != DeviceMode::UpyOS && e@ == (ErrorView::ModeMismatch {
                required: DeviceMode::UpyOS,
                actual: mode,
            }),
        },
{
    if mode.is_upyos_compatible() {
        Ok(())
    } else {
        Err(Error::ModeMismatch { required: DeviceMode::UpyOS, actual: mode })
    }
}

impl ShellQuery {
    fn make(command: &str, limit_ms: u64) -> (r: ShellQuery)
        ensures
            r@ == QueryState::fresh(command.spec_bytes(), limit_ms),
    {
        ShellQuery {
            phase: QueryPhase::Idle,
            command: bytes_of(command),
            limit_ms,
            reader: FrameReader::prompt_wait(bytes_of("$:"), None, limit_ms, 10, 1024),
            failure: None,
        }
    }

    /// The query `ls -1` for the directory `path`, for a device in the
    /// given mode. Only a shell takes it: for any other mode this is
    /// `ModeMismatch`, before anything is sent.
    pub fn list_files(mode: DeviceMode, path: &str) -> (r: Result<ShellQuery, Error>)
        ensures
            match r {
                Ok(query) => mode == DeviceMode::UpyOS && query@ == QueryState::fresh(
                    encode_utf8(shell_command("ls -1"@, path@)),
                    LISTING_WAIT_MS,
                ),
                Err(e) => mode != DeviceMode::UpyOS && e@ == (ErrorView::ModeMismatch {
                    required: DeviceMode::UpyOS,
                    actual: mode,
                }),
            },
    {
        match require_shell(mode) {
            Err(e) => Err(e),
            Ok(_) => {
                let command = build_command("ls -1", path);
                Ok(ShellQuery::make(command.as_str(), LISTING_WAIT_MS))
            },
        }
    }

    /// The query `cat` for the file `path`, for a device in the given mode.
    /// Only a shell takes it: for any other mode this is `ModeMismatch`,
    /// before anything is sent.
    pub fn get_file(mode: DeviceMode, path: &str) -> (r: Result<ShellQuery, Error>)
        ensures
            match r {
                Ok(query) => mode == DeviceMode::UpyOS && query@ == QueryState::fresh(
                    encode_utf8(shell_command("cat"@, path@)),
                    CONTENT_WAIT_MS,
                ),
                Err(e) => mode != DeviceMode::UpyOS && e@ == (ErrorView::ModeMismatch {
                    required: DeviceMode::UpyOS,
                    actual: mode,
                }),
            },
    {
        match require_shell(mode) {
            Err(e) => Err(e),
            Ok(_) => {
                let command = build_command("cat", path);
                Ok(ShellQuery::make(command.as_str(), CONTENT_WAIT_MS))
            },
        }
    }

    /// Begins the query.
    pub fn begin(&mut self) -> (req: Request)
        ensures
            final(self)@ == old(self)@.begin().0,
            req@ == old(self)@.begin().1,
    {
        self.phase = QueryPhase::Writing;
        self.failure = None;
        let command = copy_bytes(self.command.as_slice(), 0, self.command.len());
        proof {
            assert(self.command@.subrange(0, self.command@.len() as int) =~= self.command@);
        }
        Request::Write(command)
    }

    /// Takes the host's reply to the last request, at time `now`, and gives
    /// the next request.
    pub fn step(&mut self, reply: Reply, now: u64) -> (req: Request)
        ensures
            final(self)@ == old(self)@.next(reply@, now).0,
            req@ == old(self)@.next(reply@, now).1,
    {
        match self.phase {
            QueryPhase::Writing => match reply {
                Reply::Failed(text) => {
                    self.failure = Some(text);
                    self.phase = QueryPhase::Done;
                    Request::Finish
                },
                _ => {
                    self.reader = FrameReader::prompt_wait(
                        bytes_of("$:"),
                        None,
                        self.limit_ms,
                        10,
                        1024,
                    );
                    let req = self.reader.begin(now);
                    match req {
                        Request::Finish => {
                            self.phase = QueryPhase::Done;
                            Request::Finish
                        },
                        other => {
                            self.phase = QueryPhase::Waiting;
                            other
                        },
                    }
                },
            },
            QueryPhase::Waiting => {
                let req = self.reader.step(reply, now);
                match req {
                    Request::Finish => {
                        if self.reader.failed() {
                            self.failure = Some(self.reader.failure_text());
                        }
                        self.phase = QueryPhase::Done;
                        Request::Finish
                    },
                    other => other,
                }
            },
            _ => Request::Finish,
        }
    }

    /// Whether the query is over.
    pub fn is_finished(&self) -> (r: bool)
        ensures
            r == (self@.phase == QueryPhase::Done),
    {
        match self.phase {
            QueryPhase::Done => true,
            _ => false,
        }
    }

    /// Everything received, as text, or the failure that ended the query.
    /// It is the outcome of the whole query once the query is over.
    pub fn outcome(&self) -> (r: Result<String, Error>)
        ensures
            match r {
                Ok(text) => self@.outcome() == Ok::<Seq<char>, ErrorView>(text@),
                Err(e) => self@.outcome() == Err::<Seq<char>, ErrorView>(e@),
            },
    {
        match &self.failure {
            Some(text) => Err(Error::Transport(text.clone())),
            None => {
                let captured = self.reader.captured();
                Ok(decode_lossy(captured.as_slice()))
            },
        }
    }
}

/// The lines of a content, each as the bytes that go over the wire.
pub open spec fn upload_lines(content: Seq<char>) -> Seq<Seq<u8>> {
    lines(content).map_values(|line: Seq<char>| encode_utf8(line))
}

/// The rows of a table of bytes, each as a sequence.
pub open spec fn byte_rows(table: Seq<Vec<u8>>) -> Seq<Seq<u8>> {
    table.map_values(|row: Vec<u8>| row@)
}

/// The answer of the shell says that the file is protected.
pub open spec fn refused_as_protected(answer: Seq<char>) -> bool {
    contains(answer, "Can't overwrite system file"@)
}

/// What the last answer of the shell means for an upload: a refusal, with
/// the answer as its text, if the answer says that the file is protected;
/// else success.
pub open spec fn upload_verdict(answer: Seq<char>) -> Result<(), ErrorView> {
    if refused_as_protected(answer) {
        Err(ErrorView::ProtectedFile(answer))
    } else {
        Ok(())
    }
}

/// What the last answer of the shell means for an upload.
pub fn upload_result(answer: &str) -> (r: Result<(), Error>)
    ensures
        r is Err <==> refused_as_protected(answer@),
        match r {
            Ok(_) => upload_verdict(answer@) == Ok::<(), ErrorView>(()),
            Err(e) => upload_verdict(answer@) == Err::<(), ErrorView>(e@),
        },
{
    let chars = chars_of(answer);
    if text_contains(chars.as_slice(), "Can't overwrite system file") {
        Err(Error::ProtectedFile(string_of(chars.as_slice())))
    } else {
        Ok(())
    }
}

/// Where a shell upload stands.
#[derive(Clone, Copy, Debug, PartialEq, Eq, Structural)]
pub enum UploadPhase {
    /// Not begun.
    Idle,
    /// The upload command is being written.
    Announcing,
    /// The start of the upload is awaited.
    AwaitingStart,
    /// The prompt for the next line is awaited.
    AwaitingLinePrompt,
    /// A line is being written.
    WritingLine,
    /// The carriage return after a line is being written.
    EndingLine,
    /// The end-of-transmission byte is being written.
    Closing,
    /// The shell prompt is awaited.
    AwaitingShell,
    /// Over.
    Done,
}

/// The mathematical state of a [`ShellUpload`].
pub struct UploadState {
    pub phase: UploadPhase,
    /// The bytes of the upload command.
    pub command: Seq<u8>,
    /// The lines of the content.
    pub lines: Seq<Seq<u8>>,
    /// How many lines have gone out.
    pub index: nat,
    /// The reader of the wait that is running, or of the last one that ran.
    pub reader: ReaderState,
    /// The transport's text for the failed write that ended the upload.
    pub failure: Option<Seq<char>>,
}

impl UploadState {
    /// An upload that has not begun.
    pub open spec fn fresh(command: Seq<u8>, lines: Seq<Seq<u8>>) -> UploadState {
        UploadState {
            phase: UploadPhase::Idle,
            command,
            lines,
            index: 0,
            reader: prompt_wait(UPLOAD_END_WAIT_MS),
            failure: None,
        }
    }

    /// The beginning: the upload command goes out.
    pub open spec fn begin(self) -> (UploadState, RequestView) {
        (
            UploadState { phase: UploadPhase::Announcing, index: 0, failure: None, ..self },
            RequestView::Write(self.command),
        )
    }

    /// A failed write ends the upload.
    pub open spec fn fail(self, text: Seq<char>) -> (UploadState, RequestView) {
        (
            UploadState { phase: UploadPhase::Done, failure: Some(text), ..self },
            RequestView::Finish,
        )
    }

    /// The reader that waits for the start of the upload: for the device's
    /// notice or for a first `>`.
    pub open spec fn start_wait() -> ReaderState {
        shell_wait(
            "Send CTRL+D to end upload".spec_bytes(),
            Some(">".spec_bytes()),
            UPLOAD_START_WAIT_MS,
            10,
            1024,
        )
    }

    /// The reader that waits for the prompt `>` before a line.
    pub open spec fn line_wait() -> ReaderState {
        shell_wait(">".spec_bytes(), None, LINE_PROMPT_WAIT_MS, 5, 256)
    }

    /// A wait begins with a new reader.
    pub open spec fn await_with(self, phase: UploadPhase, reader: ReaderState, now: u64) -> (
        UploadState,
        RequestView,
    ) {
        (UploadState { phase, reader: reader.begin(now).0, ..self }, reader.begin(now).1)
    }

    /// The wait for the next line's prompt begins, or, when every line has
    /// gone out, the end-of-transmission byte does.
    pub open spec fn next_line(self, now: u64) -> (UploadState, RequestView) {
        if self.index < self.lines.len() {
            self.await_with(UploadPhase::AwaitingLinePrompt, UploadState::line_wait(), now)
        } else {
            (
                UploadState { phase: UploadPhase::Closing, ..self },
                RequestView::Write(seq![EXECUTE]),
            )
        }
    }

    /// One step: the state and the request that follow a reply.
    ///
    /// Every wait ends with its marker or with its time, and the upload
    /// goes on either way. Each line goes out after the wait for its
    /// prompt, followed by a carriage return. A failed write ends the
    /// upload, and so does a read that failed otherwise than by timeout.
    pub open spec fn next(self, reply: ReplyView, now: u64) -> (UploadState, RequestView) {
        match self.phase {
            UploadPhase::Idle => (self, RequestView::Finish),
            UploadPhase::Announcing => match reply {
                ReplyView::Failed(text) => self.fail(text),
                _ => self.await_with(UploadPhase::AwaitingStart, UploadState::start_wait(), now),
            },
            UploadPhase::AwaitingStart => {
                let (reader, req) = self.reader.next(reply, now);
                let moved = UploadState { reader, ..self };
                if req == RequestView::Finish {
                    if reader.phase == ReaderPhase::Failed {
                        moved.fail(reader.failure)
                    } else {
                        moved.next_line(now)
                    }
                } else {
                    (moved, req)
                }
            },
            UploadPhase::AwaitingLinePrompt => {
                let (reader, req) = self.reader.next(reply, now);
                let moved = UploadState { reader, ..self };
                if req == RequestView::Finish {
                    if reader.phase == ReaderPhase::Failed {
                        moved.fail(reader.failure)
                    } else if self.index < self.lines.len() {
                        (
                            UploadState { phase: UploadPhase::WritingLine, ..moved },
                            RequestView::Write(self.lines[self.index as int]),
                        )
                    } else {
                        moved.next_line(now)
                    }
                } else {
                    (moved, req)
                }
            },
            UploadPhase::WritingLine => match reply {
                ReplyView::Failed(text) => self.fail(text),
                _ => (
                    UploadState { phase: UploadPhase::EndingLine, ..self },
                    RequestView::Write("\r".spec_bytes()),
                ),
            },
            UploadPhase::EndingLine => match reply {
                ReplyView::Failed(text) => self.fail(text),
                _ => UploadState {
                    index: if self.index < self.lines.len() {
                        self.index + 1
                    } else {
                        self.index
                    },
                    ..self
                }.next_line(now),
            },
            UploadPhase::Closing => match reply {
                ReplyView::Failed(text) => self.fail(text),
                _ => self.await_with(
                    UploadPhase::AwaitingShell,
                    prompt_wait(UPLOAD_END_WAIT_MS),
                    now,
                ),
            },
            UploadPhase::AwaitingShell => {
                let (reader, req) = self.reader.next(reply, now);
                let moved = UploadState { reader, ..self };
                if req == RequestView::Finish {
                    if reader.phase == ReaderPhase::Failed {
                        moved.fail(reader.failure)
                    } else {
                        (UploadState { phase: UploadPhase::Done, ..moved }, RequestView::Finish)
                    }
                } else {
                    (moved, req)
                }
            },
            UploadPhase::Done => (self, RequestView::Finish),
        }
    }

    /// What the upload has to say once it is over: the failure of a write
    /// or of a read; else what the last answer of the shell means.
    pub open spec fn outcome(self) -> Result<(), ErrorView> {
        match self.failure {
            Some(text) => Err(ErrorView::Transport(text)),
            None => upload_verdict(utf8_lossy(self.reader.buf)),
        }
    }
}

/// One upload of a text file through the shell, line by line.
pub struct ShellUpload {
    phase: UploadPhase,
    command: Vec<u8>,
    lines: Vec<Vec<u8>>,
    index: usize,
    reader: FrameReader,
    failure: Option<String>,
}

impl View for ShellUpload {
    type V = UploadState;

    closed spec fn view(&self) -> UploadState {
        UploadState {
            phase: self.phase,
            command: self.command@,
            lines: byte_rows(self.lines@),
            index: self.index as nat,
            reader: self.reader@,
            failure: match self.failure {
                Some(text) => Some(text@),
                None => None,
            },
        }
    }
}

/// The lines of a content, each as the bytes that go over the wire.
fn lines_as_bytes(content: &str) -> (r: Vec<Vec<u8>>)
    ensures
        byte_rows(r@) == upload_lines(content@),
{
    let chars = chars_of(content);
    let table = split_lines(chars.as_slice());
    let mut r: Vec<Vec<u8>> = Vec::new();
    let mut i: usize = 0;
    while i < table.len()
        invariant
            i <= table.len(),
            rows(table@) == lines(content@),
            byte_rows(r@) == upload_lines(content@).take(i as int),
        decreases table.len() - i,
    {
        let ghost before = byte_rows(r@);
        let line = string_of(table[i].as_slice());
        let bytes = bytes_of(line.as_str());
        proof {
            assert(rows(table@)[i as int] == table@[i as int]@);
            assert(upload_lines(content@)[i as int] == bytes@);
        }
        r.push(bytes);
        proof {
            assert(byte_rows(r@) =~= before.push(bytes@));
            assert(upload_lines(content@).take(i + 1) =~= upload_lines(content@).take(
                i as int,
            ).push(bytes@));
        }
        i += 1;
    }
    proof {
        assert(upload_lines(content@).take(table@.len() as int) =~= upload_lines(content@));
    }
    r
}

impl ShellUpload {
    /// An upload of `content` to the file `path`, for a device in the given
    /// mode. Only a shell takes it: for any other mode this is
    /// `ModeMismatch`. Content of more than `UPLOAD_LIMIT` bytes is
    /// `TooLarge`. Either is found before anything is sent.
    pub fn new(mode: DeviceMode, content: &str, path: &str) -> (r: Result<ShellUpload, Error>)
        ensures
            match r {
                Ok(upload) => {
                    &&& mode == DeviceMode::UpyOS
                    &&& content.spec_bytes().len() <= UPLOAD_LIMIT
                    &&& upload@ == UploadState::fresh(
                        encode_utf8(shell_command("fileup"@, path@)),
                        upload_lines(content@),
                    )
                },
                Err(e) => if mode != DeviceMode::UpyOS {
                    e@ == (ErrorView::ModeMismatch { required: DeviceMode::UpyOS, actual: mode })
                } else {
                    &&& content.spec_bytes().len() > UPLOAD_LIMIT
                    &&& e@ == (ErrorView::TooLarge {
                        size: content.spec_bytes().len() as usize,
                        limit: UPLOAD_LIMIT,
                    })
                },
            },
    {
        match require_shell(mode) {
            Err(e) => Err(e),
            Ok(_) => {
                let size: usize = content.as_bytes().len();
                if size > UPLOAD_LIMIT {
                    return Err(Error::TooLarge { size, limit: UPLOAD_LIMIT });
                }
                let command = build_command("fileup", path);
                Ok(
                    ShellUpload {
                        phase: UploadPhase::Idle,
                        command: bytes_of(command.as_str()),
                        lines: lines_as_bytes(content),
                        index: 0,
                        reader: FrameReader::prompt_wait(
                            bytes_of("$:"),
                            None,
                            UPLOAD_END_WAIT_MS,
                            10,
                            1024,
                        ),
                        failure: None,
                    },
                )
            },
        }
    }

    /// Begins the upload.
    pub fn begin(&mut self) -> (req: Request)
        ensures
            final(self)@ == old(self)@.begin().0,
            req@ == old(self)@.begin().1,
    {
        self.phase = UploadPhase::Announcing;
        self.index = 0;
        self.failure = None;
        let command = copy_bytes(self.command.as_slice(), 0, self.command.len());
        proof {
            assert(self.command@.subrange(0, self.command@.len() as int) =~= self.command@);
        }
        Request::Write(command)
    }

    fn fail(&mut self, text: String) -> (req: Request)
        ensures
            final(self)@ == old(self)@.fail(text@).0,
            req@ == old(self)@.fail(text@).1,
    {
        self.failure = Some(text);
        self.phase = UploadPhase::Done;
        Request::Finish
    }

    fn await_with(&mut self, phase: UploadPhase, reader: FrameReader, now: u64) -> (req: Request)
        ensures
            final(self)@ == old(self)@.await_with(phase, reader@, now).0,
            req@ == old(self)@.await_with(phase, reader@, now).1,
    {
        self.reader = reader;
        self.phase = phase;
        self.reader.begin(now)
    }

    fn next_line(&mut self, now: u64) -> (req: Request)
        ensures
            final(self)@ == old(self)@.next_line(now).0,
            req@ == old(self)@.next_line(now).1,
    {
        if self.index < self.lines.len() {
            let reader = FrameReader::prompt_wait(bytes_of(">"), None, LINE_PROMPT_WAIT_MS, 5, 256);
            self.await_with(UploadPhase::AwaitingLinePrompt, reader, now)
        } else {
            self.phase = UploadPhase::Closing;
            Request::Write(bytes1(EXECUTE))
        }
    }

    /// Takes the host's reply to the last request, at time `now`, and gives
    /// the next request.
    pub fn step(&mut self, reply: Reply, now: u64) -> (req: Request)
        ensures
            final(self)@ == old(self)@.next(reply@, now).0,
            req@ == old(self)@.next(reply@, now).1,
    {
        match self.phase {
            UploadPhase::Idle => Request::Finish,
            UploadPhase::Announcing => match reply {
                Reply::Failed(text) => self.fail(text),
                _ => {
                    let reader = FrameReader::prompt_wait(
                        bytes_of("Send CTRL+D to end upload"),
                        Some(bytes_of(">")),
                        UPLOAD_START_WAIT_MS,
                        10,
                        1024,
                    );
                    self.await_with(UploadPhase::AwaitingStart, reader, now)
                },
            },
            UploadPhase::AwaitingStart => {
                let req = self.reader.step(reply, now);
                match req {
                    Request::Finish => {
                        if self.reader.failed() {
                            let text = self.reader.failure_text();
                            self.fail(text)
                        } else {
                            self.next_line(now)
                        }
                    },
                    other => other,
                }
            },
            UploadPhase::AwaitingLinePrompt => {
                let req = self.reader.step(reply, now);
                match req {
                    Request::Finish => {
                        if self.reader.failed() {
                            let text = self.reader.failure_text();
                            self.fail(text)
                        } else if self.index < self.lines.len() {
                            let row = &self.lines[self.index];
                            let line = copy_bytes(row.as_slice(), 0, row.len());
                            proof {
                                assert(row@.subrange(0, row@.len() as int) =~= row@);
                                assert(byte_rows(self.lines@)[self.index as int] == row@);
                            }
                            self.phase = UploadPhase::WritingLine;
                            Request::Write(line)
                        } else {
                            self.next_line(now)
                        }
                    },
                    other => other,
                }
            },
            UploadPhase::WritingLine => match reply {
                Reply::Failed(text) => self.fail(text),
                _ => {
                    self.phase = UploadPhase::EndingLine;
                    Request::Write(bytes_of("\r"))
                },
            },
            UploadPhase::EndingLine => match reply {
                Reply::Failed(text) => self.fail(text),
                _ => {
                    if self.index < self.lines.len() {
                        self.index = self.index + 1;
                    }
                    self.next_line(now)
                },
            },
            UploadPhase::Closing => match reply {
                Reply::Failed(text) => self.fail(text),
                _ => {
                    let reader = FrameReader::prompt_wait(
                        bytes_of("$:"),
                        None,
                        UPLOAD_END_WAIT_MS,
                        10,
                        1024,
                    );
                    self.await_with(UploadPhase::AwaitingShell, reader, now)
                },
            },
            UploadPhase::AwaitingShell => {
                let req = self.reader.step(reply, now);
                match req {
                    Request::Finish => {
                        if self.reader.failed() {
                            let text = self.reader.failure_text();
                            self.fail(text)
                        } else {
                            self.phase = UploadPhase::Done;
                            Request::Finish
                        }
                    },
                    other => other,
                }
            },
            UploadPhase::Done => Request::Finish,
        }
    }

    /// Whether the upload is over.
    pub fn is_finished(&self) -> (r: bool)
        ensures
            r == (self@.phase == UploadPhase::Done),
    {
        match self.phase {
            UploadPhase::Done => true,
            _ => false,
        }
    }

    /// Success, the refusal of the shell, or the failure that ended the
    /// upload. It is the outcome of the whole upload once the upload is
    /// over.
    pub fn outcome(&self) -> (r: Result<(), Error>)
        ensures
            match r {
                Ok(_) => self@.outcome() == Ok::<(), ErrorView>(()),
                Err(e) => self@.outcome() == Err::<(), ErrorView>(e@),
            },
    {
        match &self.failure {
            Some(text) => Err(Error::Transport(text.clone())),
            None => {
                let captured = self.reader.captured();
                let answer = decode_lossy(captured.as_slice());
                upload_result(answer.as_str())
            },
        }
    }
}

/// Every wait of a shell operation begins with a read: none of them is over
/// before the device was listened to once.
pub proof fn lemma_waits_begin_with_a_read(now: u64)
    ensures
        prompt_wait(LISTING_WAIT_MS).begin(now).1 == RequestView::Read(1024),
        prompt_wait(CONTENT_WAIT_MS).begin(now).1 == RequestView::Read(1024),
        prompt_wait(UPLOAD_END_WAIT_MS).begin(now).1 == RequestView::Read(1024),
        UploadState::start_wait().begin(now).1 == RequestView::Read(1024),
        UploadState::line_wait().begin(now).1 == RequestView::Read(256),
{
}

/// An upload sends its lines whole and in order: the line that goes out
/// after the wait for a prompt is the next one not yet sent, each line that
/// went out counts once, and the end-of-transmission byte goes out exactly
/// when none is left.
pub proof fn lemma_upload_order(s: UploadState, reply: ReplyView, now: u64)
    requires
        s.index <= s.lines.len(),
    ensures
        s.next(reply, now).0.index <= s.lines.len(),
        s.next(reply, now).0.lines == s.lines,
        s.phase == UploadPhase::AwaitingLinePrompt && s.index < s.lines.len() && s.reader.next(
            reply,
            now,
        ).1 == RequestView::Finish && s.reader.next(reply, now).0.phase != ReaderPhase::Failed
            ==> s.next(reply, now).1 == RequestView::Write(s.lines[s.index as int]),
        s.phase == UploadPhase::EndingLine && s.index < s.lines.len() && !(reply is Failed)
            ==> s.next(reply, now).0.index == s.index + 1,
        s.phase != UploadPhase::EndingLine ==> s.next(reply, now).0.index == s.index,
        s.phase != UploadPhase::Closing && s.next(reply, now).0.phase == UploadPhase::Closing
            ==> s.next(reply, now).0.index == s.lines.len() && s.next(reply, now).1
            == RequestView::Write(seq![EXECUTE]),
{
}

} // verus!
