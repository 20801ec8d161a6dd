use std::collections::VecDeque;
use upyremote::base64::base64_encode;
use upyremote::device::MpDevice;
use upyremote::error::Error;
use upyremote::exec::{has_raw_banner, parse_exec_output, ExecCommand};
use upyremote::files::{is_large_upload, put_file_program};
use upyremote::link::{Reply, Request};
use upyremote::mode::DeviceMode;

/// A scripted device: what it has to say becomes readable when a given
/// write arrives.
struct Sim {
    pending: VecDeque<Reply>,
    on_write: Vec<(Vec<u8>, Vec<Reply>)>,
    fail_write: Option<usize>,
    now: u64,
    writes: Vec<Vec<u8>>,
    asked: Vec<Request>,
}

impl Sim {
    fn new() -> Sim {
        Sim {
            pending: VecDeque::new(),
            on_write: Vec::new(),
            fail_write: None,
            now: 0,
            writes: Vec::new(),
            asked: Vec::new(),
        }
    }

    fn when(mut self, write: &[u8], replies: Vec<Reply>) -> Sim {
        self.on_write.push((write.to_vec(), replies));
        self
    }

    fn serve(&mut self, req: Request) -> Option<Reply> {
        let reply = match &req {
            Request::Finish => None,
            Request::Write(b) => {
                self.writes.push(b.clone());
                if self.fail_write == Some(self.writes.len()) {
                    Some(Reply::Failed("port gone".to_string()))
                } else {
                    if let Some(i) = self.on_write.iter().position(|(w, _)| w == b) {
                        let (_, replies) = self.on_write.remove(i);
                        self.pending.extend(replies);
                    }
                    Some(Reply::Ack)
                }
            }
            Request::Read(_) => Some(match self.pending.pop_front() {
                Some(r) => r,
                None => {
                    self.now += 100;
                    Reply::TimedOut
                }
            }),
            Request::Sleep(ms) => {
                self.now += *ms;
                Some(Reply::Ack)
            }
            _ => Some(Reply::Ack),
        };
        self.asked.push(req);
        reply
    }

    fn run(&mut self, command: &mut ExecCommand) {
        let mut req = command.begin();
        let mut rounds = 0;
        while let Some(reply) = self.serve(req) {
            req = command.step(reply, self.now);
            rounds += 1;
            assert!(rounds < 100_000);
        }
    }
}

fn bytes(s: &[u8]) -> Reply {
    Reply::Bytes(s.to_vec())
}

fn repl() -> MpDevice {
    MpDevice::new(DeviceMode::MicroPythonRepl)
}

#[test]
fn execute_gives_the_trimmed_text_between_the_markers() {
    let mut sim = Sim::new().when(&[0x04], vec![bytes(b"OKhello\x04\x04>")]);
    let mut command = repl().exec_command("print('OK')").unwrap();
    sim.run(&mut command);
    assert!(command.is_finished());
    assert_eq!(command.outcome(), Ok("hello".to_string()));
}

#[test]
fn execute_finds_a_result_that_arrives_in_pieces() {
    let mut sim = Sim::new().when(
        &[0x04],
        vec![bytes(b"O"), bytes(b"K  hel"), Reply::TimedOut, bytes(b"lo \r\n\x04"), bytes(b"\x04"), bytes(b">")],
    );
    let mut command = repl().exec_command("print('hello')").unwrap();
    sim.run(&mut command);
    assert_eq!(command.outcome(), Ok("hello".to_string()));
}

#[test]
fn the_wire_sequence_with_a_banner() {
    let mut sim = Sim::new()
        .when(&[0x01], vec![bytes(b"raw REPL; CTRL-B to exit\r\n>>>")])
        .when(&[0x04], vec![bytes(b"OK4\r\n\x04\x04>")]);
    let mut command = repl().exec_command("print(2+2)").unwrap();
    sim.run(&mut command);
    assert_eq!(command.outcome(), Ok("4".to_string()));
    assert_eq!(
        sim.asked,
        vec![
            Request::Read(1024),
            Request::Write(vec![0x03, 0x03]),
            Request::Sleep(200),
            Request::Write(vec![0x01]),
            Request::Sleep(200),
            Request::Read(1024),
            Request::Write(b"print(2+2)".to_vec()),
            Request::Sleep(50),
            Request::Write(vec![0x04]),
            Request::Read(1024),
            Request::Write(vec![0x02]),
            Request::Sleep(200),
            Request::Finish,
        ]
    );
}

#[test]
fn without_a_banner_the_entry_byte_goes_out_once_more() {
    let mut sim = Sim::new()
        .when(&[0x01], vec![bytes(b"\r\n>>> ")])
        .when(&[0x04], vec![bytes(b"OK\x04\x04>")]);
    let mut command = repl().exec_command("pass").unwrap();
    sim.run(&mut command);
    assert_eq!(command.outcome(), Ok("".to_string()));
    assert_eq!(
        sim.writes,
        vec![vec![0x03, 0x03], vec![0x01], vec![0x01], b"pass".to_vec(), vec![0x04], vec![0x02]]
    );
    assert!(sim.asked.contains(&Request::Sleep(500)));
}

#[test]
fn without_any_prompt_the_entry_is_trusted_after_a_second() {
    let mut sim = Sim::new().when(&[0x04], vec![bytes(b"OKx\x04\x04>")]);
    let mut command = repl().exec_command("x").unwrap();
    sim.run(&mut command);
    assert_eq!(command.outcome(), Ok("x".to_string()));
    assert_eq!(sim.writes.iter().filter(|w| **w == vec![0x01]).count(), 2);
    // flush 100, settle 200 + 200, the wait of more than 1000, settle 500,
    // one chunk pause 50, exit 200
    assert!(sim.now >= 100 + 400 + 1000 + 500 + 50 + 200);
    assert!(sim.now <= 100 + 400 + 1200 + 500 + 50 + 200);
}

#[test]
fn code_goes_out_in_chunks_of_256_bytes() {
    let code: String = (0..600).map(|i| char::from(b'a' + (i % 26) as u8)).collect();
    let mut sim = Sim::new()
        .when(&[0x01], vec![bytes(b"raw REPL\r\n>>>")])
        .when(&[0x04], vec![bytes(b"OK\x04\x04>")]);
    let mut command = repl().exec_command(&code).unwrap();
    sim.run(&mut command);
    let chunks: Vec<&Vec<u8>> = sim.writes[2..sim.writes.len() - 2].iter().collect();
    assert_eq!(chunks.iter().map(|c| c.len()).collect::<Vec<_>>(), vec![256, 256, 88]);
    let sent: Vec<u8> = chunks.into_iter().flatten().copied().collect();
    assert_eq!(sent, code.as_bytes());
    assert_eq!(sim.asked.iter().filter(|r| **r == Request::Sleep(50)).count(), 3);
    assert_eq!(sim.writes[sim.writes.len() - 2], vec![0x04]);
    assert_eq!(sim.writes[sim.writes.len() - 1], vec![0x02]);
}

#[test]
fn code_of_exactly_one_chunk_and_empty_code() {
    let code = "x".repeat(256);
    let mut sim = Sim::new().when(&[0x01], vec![bytes(b"CTRL-B >>>")]);
    let mut command = repl().exec_command(&code).unwrap();
    sim.run(&mut command);
    assert_eq!(sim.writes[2].len(), 256);
    assert_eq!(sim.writes[3], vec![0x04]);

    let mut sim = Sim::new().when(&[0x01], vec![bytes(b"CTRL-B >>>")]);
    let mut command = repl().exec_command("").unwrap();
    sim.run(&mut command);
    assert_eq!(sim.writes, vec![vec![0x03, 0x03], vec![0x01], vec![0x04], vec![0x02]]);
}

#[test]
fn code_goes_out_as_utf8() {
    let mut sim = Sim::new().when(&[0x01], vec![bytes(b"CTRL-B >>>")]);
    let mut command = repl().exec_command("print('\u{e9}')").unwrap();
    sim.run(&mut command);
    assert_eq!(sim.writes[2], "print('\u{e9}')".as_bytes().to_vec());
}

#[test]
fn a_large_upload_is_one_command_with_one_payload() {
    let content: Vec<u8> = (0..12_000u32).map(|i| (i * 7 + 3) as u8).collect();
    assert!(is_large_upload(content.len()));
    assert!(!is_large_upload(10_000));
    let program = put_file_program(&content, "big.bin");
    let mut sim = Sim::new()
        .when(&[0x01], vec![bytes(b"raw REPL; CTRL-B to exit\r\n>>>")])
        .when(&[0x04], vec![bytes(b"OKOK\r\n\x04\x04>")]);
    let mut command = repl().put_file_repl(&content, "big.bin").unwrap();
    sim.run(&mut command);
    assert_eq!(command.outcome(), Ok("OK".to_string()));
    // one entry, one execute byte, one exit: a single command
    assert_eq!(sim.writes.iter().filter(|w| **w == vec![0x01]).count(), 1);
    assert_eq!(sim.writes.iter().filter(|w| **w == vec![0x04]).count(), 1);
    assert_eq!(sim.writes.iter().filter(|w| **w == vec![0x02]).count(), 1);
    let n = sim.writes.len();
    let sent: Vec<u8> = sim.writes[2..n - 2].iter().flatten().copied().collect();
    assert_eq!(sent, program.as_bytes());
    let encoded = base64_encode(&content);
    assert_eq!(encoded.len(), 16_000);
    assert_eq!(
        program,
        format!(
            "import ubinascii\ndata = ubinascii.a2b_base64('{}')\nwith open('{}', 'wb') as f:\n    f.write(data)\nprint('OK')",
            encoded, "big.bin"
        )
    );
}

#[test]
fn output_without_the_success_token_is_returned_whole() {
    let mut sim = Sim::new().when(&[0x04], vec![bytes(b"Traceback\r\n\x04>")]);
    let mut command = repl().exec_command("boom").unwrap();
    sim.run(&mut command);
    assert_eq!(command.outcome(), Ok("Traceback\r\n\u{4}>".to_string()));
}

#[test]
fn exception_text_stays_out_of_the_result() {
    let mut sim = Sim::new().when(&[0x04], vec![bytes(b"OKpart\x04Traceback: oops\x04>")]);
    let mut command = repl().exec_command("boom").unwrap();
    sim.run(&mut command);
    assert_eq!(command.outcome(), Ok("part".to_string()));
}

#[test]
fn a_result_that_never_ends_is_given_up_after_five_seconds() {
    let mut sim = Sim::new()
        .when(&[0x01], vec![bytes(b"raw REPL >>>")])
        .when(&[0x04], vec![bytes(b"OKstill running")]);
    let mut command = repl().exec_command("while True: pass").unwrap();
    sim.run(&mut command);
    assert_eq!(command.outcome(), Ok("OKstill running".to_string()));
    assert_eq!(sim.writes.last(), Some(&vec![0x02]));
    assert!(sim.now > 5000 && sim.now < 5000 + 400 + 50 + 200 + 400);
}

#[test]
fn invalid_bytes_become_replacement_characters() {
    let mut sim = Sim::new().when(&[0x04], vec![bytes(b"OK\xffab\xc3\x04\x04>")]);
    let mut command = repl().exec_command("x").unwrap();
    sim.run(&mut command);
    assert_eq!(command.outcome(), Ok("\u{fffd}ab\u{fffd}".to_string()));
}

#[test]
fn only_an_interpreter_takes_a_command() {
    for mode in [DeviceMode::UpyOS, DeviceMode::Unknown] {
        let device = MpDevice::new(mode);
        let wanted = Error::ModeMismatch { required: DeviceMode::MicroPythonRepl, actual: mode };
        assert_eq!(device.exec_command("1").err(), Some(Error::ModeMismatch {
            required: DeviceMode::MicroPythonRepl,
            actual: mode,
        }));
        assert_eq!(ExecCommand::new(mode, "1").err(), Some(wanted));
        assert!(device.list_files_repl("/").is_err());
        assert!(device.put_file_repl(b"x", "f").is_err());
        assert!(device.get_file_repl("f").is_err());
    }
    assert!(ExecCommand::new(DeviceMode::MicroPythonRepl, "1").is_ok());
}

#[test]
fn a_failed_interrupt_ends_the_command_outside_raw_mode() {
    let mut sim = Sim::new();
    sim.fail_write = Some(1);
    let mut command = repl().exec_command("x").unwrap();
    sim.run(&mut command);
    assert_eq!(command.outcome(), Err(Error::Transport("port gone".to_string())));
    assert_eq!(sim.writes, vec![vec![0x03, 0x03]]);
}

#[test]
fn a_failure_inside_raw_mode_still_sends_the_exit_byte() {
    for failing in 2..=5 {
        let mut sim = Sim::new().when(&[0x01], vec![bytes(b"raw REPL >>>")]);
        sim.fail_write = Some(failing);
        let mut command = repl().exec_command(&"y".repeat(300)).unwrap();
        sim.run(&mut command);
        assert_eq!(command.outcome(), Err(Error::Transport("port gone".to_string())));
        assert_eq!(sim.writes.len(), failing + 1);
        assert_eq!(sim.writes.last(), Some(&vec![0x02]));
        assert_eq!(sim.asked[sim.asked.len() - 2], Request::Sleep(200));
    }
}

#[test]
fn a_failed_read_inside_raw_mode_still_sends_the_exit_byte() {
    let mut sim = Sim::new().when(&[0x04], vec![bytes(b"OK"), Reply::Failed("framing".to_string())]);
    let mut command = repl().exec_command("x").unwrap();
    sim.run(&mut command);
    assert_eq!(command.outcome(), Err(Error::Transport("framing".to_string())));
    assert_eq!(sim.writes.last(), Some(&vec![0x02]));

    let mut sim = Sim::new().when(&[0x01], vec![Reply::Failed("early".to_string())]);
    let mut command = repl().exec_command("x").unwrap();
    sim.run(&mut command);
    assert_eq!(command.outcome(), Err(Error::Transport("early".to_string())));
    assert_eq!(sim.writes, vec![vec![0x03, 0x03], vec![0x01], vec![0x02]]);
}

#[test]
fn a_failed_exit_keeps_the_first_failure() {
    let mut sim = Sim::new().when(&[0x04], vec![bytes(b"OKv\x04\x04>")]);
    // writes: interrupt, enter, enter again, code, execute, exit
    sim.fail_write = Some(6);
    let mut command = repl().exec_command("v").unwrap();
    sim.run(&mut command);
    assert_eq!(command.outcome(), Err(Error::Transport("port gone".to_string())));
    assert_eq!(sim.asked.last(), Some(&Request::Finish));
    assert_ne!(sim.asked[sim.asked.len() - 2], Request::Sleep(200));
}

#[test]
fn a_failed_flush_read_is_ignored() {
    let mut sim = Sim::new().when(&[0x04], vec![bytes(b"OKfine\x04\x04>")]);
    sim.pending.push_back(Reply::Failed("stale".to_string()));
    let mut command = repl().exec_command("x").unwrap();
    sim.run(&mut command);
    assert_eq!(command.outcome(), Ok("fine".to_string()));
}

#[test]
fn parse_takes_the_first_token_and_the_first_end_byte() {
    assert_eq!(parse_exec_output("OKhello\u{4}\u{4}>"), "hello");
    assert_eq!(parse_exec_output("junk OK  a b \r\n\u{4}err\u{4}>"), "a b");
    assert_eq!(parse_exec_output("OKOK\u{4}"), "OK");
    assert_eq!(parse_exec_output("\u{4}OK"), "\u{4}OK");
    assert_eq!(parse_exec_output("OK\u{4}"), "");
    assert_eq!(parse_exec_output("no token\u{4}>"), "no token\u{4}>");
    assert_eq!(parse_exec_output(""), "");
    assert_eq!(parse_exec_output("OK\u{a0}x\u{2003}\u{4}"), "x");
}

#[test]
fn the_banner_is_either_of_two_texts() {
    assert!(has_raw_banner("raw REPL; CTRL-B to exit\r\n>"));
    assert!(has_raw_banner("x raw REPL"));
    assert!(has_raw_banner("CTRL-B"));
    assert!(!has_raw_banner("raw repl ctrl-b"));
    assert!(!has_raw_banner(">>>"));
}

#[test]
fn a_command_that_has_not_begun_asks_for_nothing() {
    let mut command = repl().exec_command("x").unwrap();
    assert!(!command.is_finished());
    assert_eq!(command.step(Reply::Ack, 0), Request::Finish);
    assert!(!command.is_finished());
}
