use std::collections::VecDeque;
use upyremote::error::Error;
use upyremote::frame::FrameReader;
use upyremote::link::{Reply, Request};

/// A scripted host: reads are answered from a queue, and the clock moves
/// with every pause and every timeout.
struct Sim {
    reads: VecDeque<Reply>,
    now: u64,
    asked: Vec<Request>,
}

impl Sim {
    fn new(reads: Vec<Reply>) -> Sim {
        Sim { reads: reads.into_iter().collect(), now: 0, asked: Vec::new() }
    }

    fn serve(&mut self, req: Request) -> Option<Reply> {
        let reply = match &req {
            Request::Finish => None,
            Request::Read(_) => Some(match self.reads.pop_front() {
                Some(r) => r,
                None => {
                    self.now += 100;
                    Reply::TimedOut
                }
            }),
            Request::Sleep(ms) => {
                self.now += *ms;
                Some(Reply::Ack)
            }
            _ => Some(Reply::Ack),
        };
        self.asked.push(req);
        reply
    }

    fn run(&mut self, reader: &mut FrameReader) {
        let mut req = reader.begin(self.now);
        let mut rounds = 0;
        while let Some(reply) = self.serve(req) {
            req = reader.step(reply, self.now);
            rounds += 1;
            assert!(rounds < 100_000);
        }
    }
}

fn bytes(s: &[u8]) -> Reply {
    Reply::Bytes(s.to_vec())
}

#[test]
fn needle_split_across_two_reads_is_found() {
    let mut sim = Sim::new(vec![bytes(b"O"), bytes(b"K")]);
    let mut reader = FrameReader::read_until(b"OK".to_vec(), 1000);
    sim.run(&mut reader);
    assert!(reader.found());
    assert_eq!(reader.result(), Ok(true));
    assert_eq!(reader.captured(), b"OK".to_vec());
    assert_eq!(sim.asked, vec![Request::Read(1024), Request::Read(1024), Request::Finish]);
    assert_eq!(sim.now, 0);
}

#[test]
fn needle_split_across_three_reads_with_noise_is_found() {
    let mut sim = Sim::new(vec![bytes(b"..ra"), bytes(b"w RE"), Reply::TimedOut, bytes(b"PL..")]);
    let mut reader = FrameReader::read_until(b"raw REPL".to_vec(), 1000);
    sim.run(&mut reader);
    assert_eq!(reader.result(), Ok(true));
    assert_eq!(reader.captured(), b"..raw REPL..".to_vec());
}

#[test]
fn found_stops_reading_at_once() {
    let mut sim = Sim::new(vec![bytes(b"x>>>"), bytes(b"more")]);
    let mut reader = FrameReader::read_until(b">>>".to_vec(), 1000);
    sim.run(&mut reader);
    assert!(reader.found());
    assert_eq!(reader.captured(), b"x>>>".to_vec());
    assert_eq!(sim.reads.len(), 1);
}

#[test]
fn silence_ends_with_not_found_after_the_budget() {
    let mut sim = Sim::new(vec![]);
    let mut reader = FrameReader::read_until(b"OK".to_vec(), 1000);
    sim.run(&mut reader);
    assert!(reader.is_finished());
    assert!(!reader.found());
    assert_eq!(reader.result(), Ok(false));
    assert!(sim.now > 1000 && sim.now <= 1110);
    assert!(sim.asked.contains(&Request::Sleep(10)));
}

#[test]
fn the_budget_is_inclusive_for_read_until() {
    let mut reader = FrameReader::read_until(b"OK".to_vec(), 1000);
    assert_eq!(reader.begin(0), Request::Read(1024));
    assert_eq!(reader.step(Reply::Bytes(vec![]), 1000), Request::Read(1024));
    assert_eq!(reader.step(Reply::Bytes(vec![]), 1001), Request::Finish);
    assert_eq!(reader.result(), Ok(false));
}

#[test]
fn the_limit_is_exclusive_for_a_prompt_wait() {
    let mut reader = FrameReader::prompt_wait(b"$:".to_vec(), None, 500, 5, 256);
    assert_eq!(reader.begin(7), Request::Read(256));
    assert_eq!(reader.step(Reply::TimedOut, 100), Request::Sleep(5));
    assert_eq!(reader.step(Reply::Ack, 506), Request::Read(256));
    assert_eq!(reader.step(Reply::Bytes(vec![]), 507), Request::Finish);
    assert_eq!(reader.result(), Ok(false));
}

#[test]
fn a_found_needle_beats_an_expired_clock() {
    let mut reader = FrameReader::read_until(b"OK".to_vec(), 10);
    assert_eq!(reader.begin(0), Request::Read(1024));
    assert_eq!(reader.step(bytes(b"O"), 5), Request::Read(1024));
    assert_eq!(reader.step(bytes(b"K"), 5000), Request::Finish);
    assert_eq!(reader.result(), Ok(true));
}

#[test]
fn a_strict_reader_ends_on_a_failure() {
    let mut sim = Sim::new(vec![bytes(b"ab"), Reply::Failed("unplugged".to_string())]);
    let mut reader = FrameReader::read_until(b"OK".to_vec(), 1000);
    sim.run(&mut reader);
    assert!(reader.failed());
    assert_eq!(reader.failure_text(), "unplugged");
    assert_eq!(reader.result(), Err(Error::Transport("unplugged".to_string())));
    assert_eq!(reader.captured(), b"ab".to_vec());
}

#[test]
fn a_prompt_wait_ends_on_a_failure_too() {
    let mut sim = Sim::new(vec![Reply::Failed("glitch".to_string()), bytes(b"/ $: ")]);
    let mut reader = FrameReader::prompt_wait(b"$:".to_vec(), None, 5000, 10, 1024);
    sim.run(&mut reader);
    assert_eq!(reader.result(), Err(Error::Transport("glitch".to_string())));
    assert_eq!(sim.asked, vec![Request::Read(1024), Request::Finish]);
    assert_eq!(sim.reads.len(), 1);
}

#[test]
fn a_prompt_wait_waits_a_timeout_out() {
    let mut sim = Sim::new(vec![Reply::TimedOut, bytes(b"/ $: ")]);
    let mut reader = FrameReader::prompt_wait(b"$:".to_vec(), None, 5000, 10, 1024);
    sim.run(&mut reader);
    assert_eq!(reader.result(), Ok(true));
    assert_eq!(
        sim.asked,
        vec![Request::Read(1024), Request::Sleep(10), Request::Read(1024), Request::Finish]
    );
}

#[test]
fn either_of_two_needles_ends_the_wait() {
    let mut sim = Sim::new(vec![bytes(b"ready >")]);
    let mut reader = FrameReader::prompt_wait(
        b"Send CTRL+D to end upload".to_vec(),
        Some(b">".to_vec()),
        5000,
        10,
        1024,
    );
    sim.run(&mut reader);
    assert!(reader.found());

    let mut sim = Sim::new(vec![bytes(b"Send CTRL+D to"), bytes(b" end upload")]);
    let mut reader = FrameReader::prompt_wait(
        b"Send CTRL+D to end upload".to_vec(),
        Some(b">".to_vec()),
        5000,
        10,
        1024,
    );
    sim.run(&mut reader);
    assert!(reader.found());
}

#[test]
fn a_reader_that_is_over_stays_over() {
    let mut reader = FrameReader::read_until(b"OK".to_vec(), 1000);
    reader.begin(0);
    assert_eq!(reader.step(bytes(b"OK"), 1), Request::Finish);
    assert_eq!(reader.step(bytes(b"later"), 2), Request::Finish);
    assert_eq!(reader.captured(), b"OK".to_vec());
    assert!(reader.found());
}

#[test]
fn a_reader_that_has_not_begun_asks_for_nothing() {
    let mut reader = FrameReader::read_until(b"OK".to_vec(), 1000);
    assert!(!reader.is_finished());
    assert_eq!(reader.step(bytes(b"OK"), 1), Request::Finish);
    assert!(!reader.found());
}

#[test]
fn begin_clears_what_was_read_before() {
    let mut reader = FrameReader::read_until(b"OK".to_vec(), 1000);
    reader.begin(0);
    reader.step(bytes(b"O"), 1);
    reader.begin(10);
    assert_eq!(reader.step(bytes(b"K"), 11), Request::Read(1024));
    assert_eq!(reader.captured(), b"K".to_vec());
}

#[test]
fn a_clock_that_goes_back_counts_as_no_time() {
    let mut reader = FrameReader::read_until(b"OK".to_vec(), 0);
    assert_eq!(reader.begin(500), Request::Read(1024));
    assert_eq!(reader.step(Reply::Bytes(vec![]), 100), Request::Read(1024));
    assert_eq!(reader.step(Reply::Bytes(vec![]), 501), Request::Finish);
}
