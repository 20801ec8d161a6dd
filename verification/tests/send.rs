use std::collections::VecDeque;
use upyremote::device::MpDevice;
use upyremote::error::Error;
use upyremote::link::{Reply, Request};
use upyremote::mode::DeviceMode;
use upyremote::send::{shows_prompt, SendString};

struct Sim {
    reads: VecDeque<Reply>,
    fail_write: Option<usize>,
    now: u64,
    writes: Vec<Vec<u8>>,
    asked: Vec<Request>,
}

impl Sim {
    fn new(reads: Vec<Reply>) -> Sim {
        Sim {
            reads: reads.into_iter().collect(),
            fail_write: None,
            now: 0,
            writes: Vec::new(),
            asked: Vec::new(),
        }
    }

    fn serve(&mut self, req: Request) -> Option<Reply> {
        let reply = match &req {
            Request::Finish => None,
            Request::Write(b) => {
                self.writes.push(b.clone());
                if self.fail_write == Some(self.writes.len()) {
                    Some(Reply::Failed("broken pipe".to_string()))
                } else {
                    Some(Reply::Ack)
                }
            }
            Request::Read(_) => Some(match self.reads.pop_front() {
                Some(r) => r,
                None => {
                    self.now += 100;
                    Reply::TimedOut
                }
            }),
            Request::Sleep(ms) => {
                self.now += *ms;
                Some(Reply::Ack)
            }
            _ => Some(Reply::Ack),
        };
        self.asked.push(req);
        reply
    }

    fn run(&mut self, send: &mut SendString) {
        let mut req = send.begin();
        let mut rounds = 0;
        while let Some(reply) = self.serve(req) {
            req = send.step(reply, self.now);
            rounds += 1;
            assert!(rounds < 1_000_000);
        }
    }
}

fn bytes(s: &[u8]) -> Reply {
    Reply::Bytes(s.to_vec())
}

#[test]
fn send_stops_soon_after_the_prompt() {
    let mut sim = Sim::new(vec![
        Reply::TimedOut,
        Reply::TimedOut,
        bytes(b"ls\r\nboot.py\r\n"),
        Reply::TimedOut,
        bytes(b">>"),
        bytes(b"> "),
        bytes(b"tail"),
        bytes(b"never read"),
    ]);
    let mut send = MpDevice::new(DeviceMode::Unknown).send_string("ls", None);
    sim.run(&mut send);
    assert!(send.is_finished());
    assert_eq!(send.outcome(), Ok("ls\r\nboot.py\r\n>>> tail".to_string()));
    assert_eq!(sim.writes, vec![b"ls".to_vec(), b"\r".to_vec()]);
    assert_eq!(sim.reads.len(), 1);
    // far from the thirty seconds of the default timeout
    assert!(sim.now < 1000);
    let n = sim.asked.len();
    assert_eq!(&sim.asked[n - 3..], &[Request::Sleep(100), Request::Read(256), Request::Finish]);
}

#[test]
fn send_stops_at_the_shell_prompt_too() {
    let mut sim = Sim::new(vec![Reply::TimedOut, bytes(b"ok\r\n/ $: ")]);
    let mut send = SendString::new("pwd\r", None);
    sim.run(&mut send);
    assert_eq!(send.outcome(), Ok("ok\r\n/ $: ".to_string()));
    assert_eq!(sim.writes, vec![b"pwd\r".to_vec()]);
    assert!(sim.now < 1000);
}

#[test]
fn send_stops_at_a_shell_prompt_with_nothing_behind_the_colon() {
    let mut sim = Sim::new(vec![Reply::TimedOut, bytes(b"a.py\r\n/ $:")]);
    let mut send = SendString::new("ls", None);
    sim.run(&mut send);
    assert_eq!(send.outcome(), Ok("a.py\r\n/ $:".to_string()));
    assert!(sim.now < 1000);
    let n = sim.asked.len();
    assert_eq!(&sim.asked[n - 3..], &[Request::Sleep(100), Request::Read(256), Request::Finish]);
}

#[test]
fn send_stops_at_a_trailing_prompt_sign() {
    let mut sim = Sim::new(vec![Reply::TimedOut, bytes(b"user"), bytes(b"@box $:"), bytes(b" ")]);
    let mut send = SendString::new("ls", None);
    sim.run(&mut send);
    assert_eq!(send.outcome(), Ok("user@box $: ".to_string()));
    assert!(sim.now < 1000);
}

#[test]
fn a_prompt_sign_inside_the_text_does_not_stop_the_send() {
    let mut sim = Sim::new(vec![Reply::TimedOut, bytes(b"$: x"), bytes(b">>")]);
    let mut send = SendString::new("x\n", None);
    sim.run(&mut send);
    assert_eq!(send.outcome(), Ok("$: x>>".to_string()));
    assert!(sim.now >= 30_000 && sim.now < 30_200);
}

#[test]
fn a_prompt_shows_in_three_ways() {
    assert!(shows_prompt(b"x>>>y"));
    assert!(shows_prompt(b"x/ $:y"));
    assert!(shows_prompt(b"/ $:"));
    assert!(shows_prompt(b"x$:"));
    assert!(shows_prompt(b"$:"));
    assert!(!shows_prompt(b"$: "));
    assert!(!shows_prompt(b" $: "));
    assert!(!shows_prompt(b"/$:x"));
    assert!(!shows_prompt(b">>"));
    assert!(!shows_prompt(b""));
    assert!(!shows_prompt(b":"));
}

#[test]
fn without_a_prompt_the_default_timeout_ends_the_send() {
    let mut sim = Sim::new(vec![]);
    let mut send = SendString::new("x", None);
    sim.run(&mut send);
    assert_eq!(send.outcome(), Ok(String::new()));
    assert!(sim.now >= 30_000 && sim.now < 30_200);
}

#[test]
fn a_terminator_is_added_only_where_it_is_missing() {
    for (text, writes) in [
        ("ls", vec![b"ls".to_vec(), b"\r".to_vec()]),
        ("ls\n", vec![b"ls\n".to_vec()]),
        ("ls\r", vec![b"ls\r".to_vec()]),
        ("", vec![b"".to_vec(), b"\r".to_vec()]),
        ("a\nb", vec![b"a\nb".to_vec(), b"\r".to_vec()]),
    ] {
        let mut sim = Sim::new(vec![Reply::TimedOut, bytes(b">>>")]);
        let mut send = SendString::new(text, None);
        sim.run(&mut send);
        assert_eq!(sim.writes, writes);
    }
}

#[test]
fn with_a_timeout_quiet_after_data_ends_the_send() {
    let mut sim = Sim::new(vec![Reply::TimedOut, bytes(b">>> one"), Reply::TimedOut, bytes(b" two")]);
    let mut send = SendString::new("go", Some(10));
    sim.run(&mut send);
    assert_eq!(send.outcome(), Ok(">>> one two".to_string()));
    assert!(sim.now < 1000);
    assert!(sim.asked.contains(&Request::Sleep(100)));
    assert!(!sim.asked.contains(&Request::Read(256)));
}

#[test]
fn with_a_timeout_a_silent_device_is_waited_for() {
    let mut sim = Sim::new(vec![]);
    let mut send = SendString::new("go", Some(2));
    sim.run(&mut send);
    assert_eq!(send.outcome(), Ok(String::new()));
    assert!(sim.now >= 2000 && sim.now < 2200);
}

#[test]
fn a_timeout_of_zero_reads_nothing_after_the_flush() {
    let mut sim = Sim::new(vec![bytes(b"stale"), bytes(b"fresh")]);
    let mut send = SendString::new("go", Some(0));
    sim.run(&mut send);
    assert_eq!(send.outcome(), Ok(String::new()));
    assert_eq!(sim.reads.len(), 1);
}

#[test]
fn the_clock_starts_after_the_writes() {
    let mut send = SendString::new("go\n", Some(1));
    assert_eq!(send.begin(), Request::Read(1024));
    assert_eq!(send.step(Reply::TimedOut, 50_000), Request::Write(b"go\n".to_vec()));
    assert_eq!(send.step(Reply::Ack, 60_000), Request::Read(1024));
    assert_eq!(send.step(Reply::Bytes(vec![]), 60_999), Request::Read(1024));
    assert_eq!(send.step(Reply::Bytes(vec![]), 61_000), Request::Finish);
}

#[test]
fn a_failed_write_is_a_transport_error() {
    for failing in [1, 2] {
        let mut sim = Sim::new(vec![]);
        sim.fail_write = Some(failing);
        let mut send = SendString::new("go", None);
        sim.run(&mut send);
        assert_eq!(send.outcome(), Err(Error::Transport("broken pipe".to_string())));
        assert_eq!(sim.writes.len(), failing);
    }
}

#[test]
fn a_failed_read_is_a_transport_error() {
    let mut sim = Sim::new(vec![Reply::TimedOut, bytes(b"a"), Reply::Failed("parity".to_string())]);
    let mut send = SendString::new("go", None);
    sim.run(&mut send);
    assert_eq!(send.outcome(), Err(Error::Transport("parity".to_string())));
}

#[test]
fn what_comes_back_is_decoded_leniently() {
    let mut sim = Sim::new(vec![Reply::TimedOut, bytes(b"\xc3\xa9\xff>>>")]);
    let mut send = SendString::new("go", None);
    sim.run(&mut send);
    assert_eq!(send.outcome(), Ok("\u{e9}\u{fffd}>>>".to_string()));
}
