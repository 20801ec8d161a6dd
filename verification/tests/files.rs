use upyremote::base64::base64_encode;
use upyremote::error::Error;
use upyremote::files::{
    get_file_content, get_file_program, is_large_upload, list_files_entries, list_files_program,
    put_file_program, put_file_result, select_lines, LineRule,
};

fn picked(text: &str, rule: LineRule) -> Vec<String> {
    select_lines(text, rule).into_iter().map(|l| l.into_iter().collect()).collect()
}

#[test]
fn the_listing_program_names_the_directory() {
    assert_eq!(
        list_files_program("/lib"),
        "import os\ntry:\n    files = os.listdir(\"/lib\")\n    for f in files:\n        print(f)\nexcept OSError as e:\n    print(\"Error:\", e)"
    );
}

#[test]
fn the_upload_program_holds_the_encoded_content() {
    assert_eq!(
        put_file_program(b"Ma", "main.py"),
        "import ubinascii\ndata = ubinascii.a2b_base64('TWE=')\nwith open('main.py', 'wb') as f:\n    f.write(data)\nprint('OK')"
    );
}

#[test]
fn the_upload_program_is_whole_at_every_size() {
    for size in [0usize, 1, 9_999, 10_000, 10_001, 30_000] {
        let content: Vec<u8> = (0..size).map(|i| (i % 251) as u8).collect();
        let program = put_file_program(&content, "f");
        let encoded = base64_encode(&content);
        assert_eq!(encoded.len(), 4 * ((size + 2) / 3));
        assert!(program.contains(&format!("a2b_base64('{}')", encoded)));
        assert_eq!(program.matches("a2b_base64").count(), 1);
    }
}

#[test]
fn the_large_notice_starts_above_ten_thousand_bytes() {
    assert!(!is_large_upload(0));
    assert!(!is_large_upload(10_000));
    assert!(is_large_upload(10_001));
}

#[test]
fn the_download_program_names_the_file() {
    assert_eq!(
        get_file_program("boot.py"),
        "import ubinascii\ntry:\n    with open('boot.py', 'rb') as f:\n        data = f.read()\n        print(ubinascii.b2a_base64(data).decode().strip())\nexcept OSError as e:\n    print('Error:', e)"
    );
}

#[test]
fn listing_entries_are_the_trimmed_lines_without_errors() {
    assert_eq!(list_files_entries("boot.py\r\n  main.py \r\n\r\nlib"), vec!["boot.py", "main.py", "lib"]);
    assert_eq!(list_files_entries("Error: [Errno 2] ENOENT"), Vec::<String>::new());
    assert_eq!(list_files_entries("a\n  Error: x\nthe Error: y"), vec!["a", "the Error: y"]);
    assert_eq!(list_files_entries(""), Vec::<String>::new());
}

#[test]
fn an_upload_is_accepted_on_the_token_alone() {
    assert_eq!(put_file_result("OK"), Ok(()));
    assert_eq!(put_file_result(""), Err(Error::Remote(String::new())));
    assert_eq!(put_file_result("x\r\nall OK here"), Ok(()));
    assert_eq!(
        put_file_result("Traceback: ENOSPC"),
        Err(Error::Remote("Traceback: ENOSPC".to_string()))
    );
    assert_eq!(put_file_result(" "), Err(Error::Remote(" ".to_string())));
    assert_eq!(put_file_result("ok"), Err(Error::Remote("ok".to_string())));
}

#[test]
fn a_download_decodes_the_payload_lines() {
    assert_eq!(get_file_content("TWFu"), Ok(b"Man".to_vec()));
    assert_eq!(get_file_content("  TWFu\r\nTQ==\r\n"), Ok(b"ManM".to_vec()));
    assert_eq!(get_file_content("TWE=\r\n"), Ok(b"Ma".to_vec()));
}

#[test]
fn a_download_decodes_whatever_the_alphabet_spells() {
    assert_eq!(base64_encode(&[0x38, 0xa0, 0x00]), "OKAA");
    assert_eq!(get_file_content("OKAA"), Ok(vec![0x38, 0xa0, 0x00]));
    assert_eq!(get_file_content("TWFu\r\nOKAA\r\n"), Ok(vec![b'M', b'a', b'n', 0x38, 0xa0, 0x00]));
    assert_eq!(get_file_content("AAOK"), Ok(vec![0x00, 0x03, 0x8a]));
    assert_eq!(get_file_content("Error"), Ok(vec![0x12, 0xba, 0xe8]));
}

#[test]
fn a_download_with_a_device_error_is_remote() {
    assert_eq!(
        get_file_content("Error: [Errno 2] ENOENT"),
        Err(Error::Remote("Error: [Errno 2] ENOENT".to_string()))
    );
    assert_eq!(
        get_file_content("TWFu\r\nError: late"),
        Err(Error::Remote("TWFu\r\nError: late".to_string()))
    );
}

#[test]
fn a_download_without_payload_is_no_content() {
    assert_eq!(get_file_content(""), Err(Error::NoContent));
    assert_eq!(get_file_content(" \r\n\r\n\t "), Err(Error::NoContent));
}

#[test]
fn a_download_of_padding_alone_is_empty_content() {
    assert_eq!(get_file_content("=="), Ok(Vec::new()));
}

#[test]
fn what_is_uploaded_is_what_a_download_decodes() {
    for size in [1usize, 2, 3, 100, 10_001] {
        let content: Vec<u8> = (0..size).map(|i| (i * 31 % 256) as u8).collect();
        let spelled: Vec<u8> = (0..size).flat_map(|_| [0x38u8, 0xa0, 0x00]).collect();
        assert_eq!(get_file_content(&base64_encode(&spelled)), Ok(spelled));
        let printed = format!("{}\r\n", base64_encode(&content));
        assert_eq!(get_file_content(&printed), Ok(content));
    }
}

#[test]
fn each_rule_keeps_its_own_lines() {
    let text = " a \n\nError: x\n/ $: \n>>> b\nOK\nc$:d";
    assert_eq!(picked(text, LineRule::Names), vec!["a", "/ $:", ">>> b", "OK", "c$:d"]);
    assert_eq!(picked(text, LineRule::ShellNames), vec!["a", "Error: x", ">>> b", "OK"]);
}
