use std::collections::VecDeque;
use upyremote::device::MpDevice;
use upyremote::error::Error;
use upyremote::link::{Reply, Request};
use upyremote::mode::DeviceMode;
use upyremote::shell::{
    build_command, shell_file_content, shell_listing_entries, upload_result, ShellQuery,
    ShellUpload,
};

struct Sim {
    pending: VecDeque<Reply>,
    prompt_after_every_write: bool,
    fail_write: Option<usize>,
    now: u64,
    writes: Vec<Vec<u8>>,
    asked: Vec<Request>,
}

impl Sim {
    fn new(reads: Vec<Reply>) -> Sim {
        Sim {
            pending: reads.into_iter().collect(),
            prompt_after_every_write: false,
            fail_write: None,
            now: 0,
            writes: Vec::new(),
            asked: Vec::new(),
        }
    }

    fn serve(&mut self, req: Request) -> Option<Reply> {
        let reply = match &req {
            Request::Finish => None,
            Request::Write(b) => {
                self.writes.push(b.clone());
                if self.fail_write == Some(self.writes.len()) {
                    Some(Reply::Failed("port closed".to_string()))
                } else {
                    if self.prompt_after_every_write {
                        if b == &vec![0x04] {
                            self.pending.push_back(Reply::Bytes(b"\r\nsaved\r\n/ $: ".to_vec()));
                        } else if b != &b"\r".to_vec() || self.writes.len() > 1 {
                            if b == &b"\r".to_vec() || b.starts_with(b"fileup") {
                                self.pending.push_back(Reply::Bytes(b"> ".to_vec()));
                            }
                        }
                    }
                    Some(Reply::Ack)
                }
            }
            Request::Read(_) => Some(match self.pending.pop_front() {
                Some(r) => r,
                None => {
                    self.now += 100;
                    Reply::TimedOut
                }
            }),
            Request::Sleep(ms) => {
                self.now += *ms;
                Some(Reply::Ack)
            }
            _ => Some(Reply::Ack),
        };
        self.asked.push(req);
        reply
    }

    fn run_query(&mut self, query: &mut ShellQuery) {
        let mut req = query.begin();
        let mut rounds = 0;
        while let Some(reply) = self.serve(req) {
            req = query.step(reply, self.now);
            rounds += 1;
            assert!(rounds < 1_000_000);
        }
    }

    fn run_upload(&mut self, upload: &mut ShellUpload) {
        let mut req = upload.begin();
        let mut rounds = 0;
        while let Some(reply) = self.serve(req) {
            req = upload.step(reply, self.now);
            rounds += 1;
            assert!(rounds < 1_000_000);
        }
    }
}

fn bytes(s: &[u8]) -> Reply {
    Reply::Bytes(s.to_vec())
}

fn shell() -> MpDevice {
    MpDevice::new(DeviceMode::UpyOS)
}

#[test]
fn commands_are_a_verb_an_argument_and_a_carriage_return() {
    assert_eq!(build_command("ls -1", "/lib"), "ls -1 /lib\r");
    assert_eq!(build_command("cat", "a b"), "cat a b\r");
    assert_eq!(build_command("fileup", ""), "fileup \r");
}

#[test]
fn a_listing_asks_and_waits_for_the_prompt() {
    let mut sim = Sim::new(vec![bytes(b"ls -1 /\r\nboot.py\r\n"), Reply::TimedOut, bytes(b"main.py\r\n/ $"), bytes(b": ")]);
    let mut query = shell().list_files_upyos("/").unwrap();
    sim.run_query(&mut query);
    assert!(query.is_finished());
    let answer = query.outcome().unwrap();
    assert_eq!(answer, "ls -1 /\r\nboot.py\r\nmain.py\r\n/ $: ");
    assert_eq!(shell_listing_entries(&answer), vec!["ls -1 /", "boot.py", "main.py"]);
    assert_eq!(sim.writes, vec![b"ls -1 /\r".to_vec()]);
    assert_eq!(sim.asked[0], Request::Write(b"ls -1 /\r".to_vec()));
    assert!(sim.now < 1000);
}

#[test]
fn a_listing_gives_up_after_five_seconds() {
    let mut sim = Sim::new(vec![bytes(b"boot.py\r\n")]);
    let mut query = shell().list_files_upyos("/").unwrap();
    sim.run_query(&mut query);
    assert_eq!(shell_listing_entries(&query.outcome().unwrap()), vec!["boot.py"]);
    assert!(sim.now >= 5000 && sim.now < 5200);
}

#[test]
fn a_file_query_gives_up_after_ten_seconds() {
    let mut sim = Sim::new(vec![]);
    let mut query = shell().get_file_upyos("f").unwrap();
    sim.run_query(&mut query);
    assert_eq!(query.outcome(), Ok(String::new()));
    assert!(sim.now >= 10_000 && sim.now < 10_200);
    assert_eq!(sim.writes, vec![b"cat f\r".to_vec()]);
}

#[test]
fn a_query_with_a_failed_read_is_a_transport_error() {
    let mut sim = Sim::new(vec![bytes(b"x"), Reply::Failed("noise".to_string()), bytes(b"x\r\n$:")]);
    let mut query = ShellQuery::list_files(DeviceMode::UpyOS, "/").unwrap();
    sim.run_query(&mut query);
    assert_eq!(query.outcome(), Err(Error::Transport("noise".to_string())));
    assert_eq!(sim.pending.len(), 1);
}

#[test]
fn a_query_waits_timeouts_out() {
    let mut sim = Sim::new(vec![Reply::TimedOut, bytes(b"x\r\n"), Reply::TimedOut, bytes(b"$:")]);
    let mut query = ShellQuery::list_files(DeviceMode::UpyOS, "/").unwrap();
    sim.run_query(&mut query);
    assert_eq!(query.outcome(), Ok("x\r\n$:".to_string()));
}

#[test]
fn an_upload_with_a_failed_read_is_a_transport_error() {
    for failing in 0..3 {
        let mut reads = vec![bytes(b">"), bytes(b">"), bytes(b"/ $: ")];
        reads[failing] = Reply::Failed("framing".to_string());
        let mut sim = Sim::new(reads);
        let mut upload = shell().put_file_upyos("a", "f").unwrap();
        sim.run_upload(&mut upload);
        assert_eq!(upload.outcome(), Err(Error::Transport("framing".to_string())));
        assert_eq!(sim.asked.last(), Some(&Request::Finish));
        assert_eq!(sim.writes.len(), [1, 1, 4][failing]);
    }
}

#[test]
fn a_query_with_a_failed_write_is_a_transport_error() {
    let mut sim = Sim::new(vec![bytes(b"$:")]);
    sim.fail_write = Some(1);
    let mut query = shell().get_file_upyos("f").unwrap();
    sim.run_query(&mut query);
    assert_eq!(query.outcome(), Err(Error::Transport("port closed".to_string())));
    assert_eq!(sim.asked.len(), 2);
}

#[test]
fn only_a_shell_takes_shell_operations() {
    for mode in [DeviceMode::MicroPythonRepl, DeviceMode::Unknown] {
        let device = MpDevice::new(mode);
        let wanted = || Error::ModeMismatch { required: DeviceMode::UpyOS, actual: mode };
        assert_eq!(device.list_files_upyos("/").err(), Some(wanted()));
        assert_eq!(device.get_file_upyos("f").err(), Some(wanted()));
        assert_eq!(device.put_file_upyos("x", "f").err(), Some(wanted()));
        assert_eq!(device.put_file_upyos(&"x".repeat(30_000), "f").err(), Some(wanted()));
        assert_eq!(device.ensure_upyos_mode(), Err(wanted()));
    }
    assert_eq!(shell().ensure_upyos_mode(), Ok(()));
}

#[test]
fn listing_entries_drop_empty_lines_and_prompts() {
    assert_eq!(
        shell_listing_entries("ls -1 /\r\n\r\n  boot.py  \r\n/ $: \r\nlib\r\n$:"),
        vec!["ls -1 /", "boot.py", "lib"]
    );
    assert_eq!(shell_listing_entries("/ $: "), Vec::<String>::new());
}

#[test]
fn file_content_is_what_stands_between_the_echo_and_the_prompt() {
    assert_eq!(
        shell_file_content("cat f\r\nline 1\r\n\r\nline 3\r\n/ $: "),
        "line 1\r\n\r\nline 3\r\n"
    );
    assert_eq!(shell_file_content("cat f\r\nonly\r\n/ $: "), "only\r\n");
    assert_eq!(shell_file_content("cat f\n  kept as is \n$:"), "  kept as is \n");
    assert_eq!(shell_file_content("E\nX\r\nP"), "X\r\n");
    assert_eq!(shell_file_content("E\na\rb\n\nP"), "a\rb\n\n");
}

#[test]
fn file_content_ends_where_the_last_line_begins() {
    assert_eq!(shell_file_content("E\nX\nP\n"), "X\n");
    assert_eq!(shell_file_content("E\nX\nP\r\n"), "X\n");
    assert_eq!(shell_file_content("E\nX\n\n"), "X\n");
    assert_eq!(shell_file_content("E\nX"), "");
}

#[test]
fn file_content_of_the_echo_and_the_prompt_alone_is_empty() {
    assert_eq!(shell_file_content("E\nP"), "");
    assert_eq!(shell_file_content("cat f\r\n/ $: "), "");
    assert_eq!(shell_file_content("cat f\n/ $: \n"), "");
}

#[test]
fn file_content_of_one_line_or_none_is_that_line() {
    assert_eq!(shell_file_content("one"), "one");
    assert_eq!(shell_file_content("one\r\n"), "one");
    assert_eq!(shell_file_content("one\n"), "one");
    assert_eq!(shell_file_content("\n"), "");
    assert_eq!(shell_file_content(""), "");
}

#[test]
fn the_answer_to_an_upload_is_a_refusal_or_success() {
    assert_eq!(upload_result("saved\r\n/ $: "), Ok(()));
    assert_eq!(upload_result(""), Ok(()));
    assert_eq!(
        upload_result("x Can't overwrite system file y"),
        Err(Error::ProtectedFile("x Can't overwrite system file y".to_string()))
    );
    assert_eq!(upload_result("can't overwrite system file"), Ok(()));
}

#[test]
fn an_upload_sends_every_line_and_then_the_end_byte() {
    let mut sim = Sim::new(vec![]);
    sim.prompt_after_every_write = true;
    let mut upload = shell().put_file_upyos("import os\r\n\nprint('h\u{e9}')\n", "main.py").unwrap();
    sim.run_upload(&mut upload);
    assert!(upload.is_finished());
    assert_eq!(upload.outcome(), Ok(()));
    assert_eq!(
        sim.writes,
        vec![
            b"fileup main.py\r".to_vec(),
            b"import os".to_vec(),
            b"\r".to_vec(),
            b"".to_vec(),
            b"\r".to_vec(),
            "print('h\u{e9}')".as_bytes().to_vec(),
            b"\r".to_vec(),
            vec![0x04],
        ]
    );
    assert!(sim.asked.contains(&Request::Read(256)));
    assert!(sim.now < 2000);
}

#[test]
fn an_upload_goes_on_when_no_prompt_comes() {
    let mut sim = Sim::new(vec![]);
    let mut upload = shell().put_file_upyos("a\nb", "f").unwrap();
    sim.run_upload(&mut upload);
    assert_eq!(upload.outcome(), Ok(()));
    assert_eq!(
        sim.writes,
        vec![b"fileup f\r".to_vec(), b"a".to_vec(), b"\r".to_vec(), b"b".to_vec(), b"\r".to_vec(), vec![0x04]]
    );
    // five seconds for the start, half a second for each line, ten for the end
    assert!(sim.now >= 5000 + 2 * 500 + 10_000);
    assert!(sim.now < 5000 + 2 * 500 + 10_000 + 500);
}

#[test]
fn an_empty_upload_sends_only_the_end_byte() {
    let mut sim = Sim::new(vec![bytes(b"Send CTRL+D to end upload\r\n"), bytes(b"/ $: ")]);
    let mut upload = shell().put_file_upyos("", "f").unwrap();
    sim.run_upload(&mut upload);
    assert_eq!(upload.outcome(), Ok(()));
    assert_eq!(sim.writes, vec![b"fileup f\r".to_vec(), vec![0x04]]);
}

#[test]
fn a_protected_file_is_its_own_error() {
    let mut sim = Sim::new(vec![
        bytes(b">"),
        bytes(b">"),
        bytes(b"Can't overwrite "),
        bytes(b"system file\r\n/ $: "),
    ]);
    let mut upload = shell().put_file_upyos("x", "/etc/init.sh").unwrap();
    sim.run_upload(&mut upload);
    assert_eq!(
        upload.outcome(),
        Err(Error::ProtectedFile("Can't overwrite system file\r\n/ $: ".to_string()))
    );
}

#[test]
fn an_upload_above_the_ceiling_is_refused_before_anything_is_sent() {
    let content = "x".repeat(20_001);
    assert_eq!(
        shell().put_file_upyos(&content, "f").err(),
        Some(Error::TooLarge { size: 20_001, limit: 20_000 })
    );
    assert!(shell().put_file_upyos(&"x".repeat(20_000), "f").is_ok());
    // the ceiling counts bytes, not characters
    let wide = "\u{e9}".repeat(10_001);
    assert_eq!(
        ShellUpload::new(DeviceMode::UpyOS, &wide, "f").err(),
        Some(Error::TooLarge { size: 20_002, limit: 20_000 })
    );
}

#[test]
fn an_upload_with_a_failed_write_is_a_transport_error() {
    for failing in 1..=4 {
        let mut sim = Sim::new(vec![]);
        sim.prompt_after_every_write = true;
        sim.fail_write = Some(failing);
        let mut upload = shell().put_file_upyos("a", "f").unwrap();
        sim.run_upload(&mut upload);
        assert_eq!(upload.outcome(), Err(Error::Transport("port closed".to_string())));
        assert_eq!(sim.writes.len(), failing);
        assert_eq!(sim.asked.last(), Some(&Request::Finish));
    }
}
