use upyremote::keys::{map_key, Key, KeyAction, KeyPress};

fn plain(key: Key) -> KeyAction {
    map_key(KeyPress { key, ctrl: false })
}

fn ctrl(key: Key) -> KeyAction {
    map_key(KeyPress { key, ctrl: true })
}

#[test]
fn ctrl_left_is_the_six_byte_sequence() {
    assert_eq!(ctrl(Key::Left), KeyAction::Send(vec![0x1b, 0x5b, 0x31, 0x3b, 0x35, 0x44]));
}

#[test]
fn ctrl_a_is_byte_one() {
    assert_eq!(ctrl(Key::Char('a')), KeyAction::Send(vec![0x01]));
    assert_eq!(ctrl(Key::Char('A')), KeyAction::Send(vec![0x01]));
}

#[test]
fn ctrl_x_leaves_the_loop() {
    assert_eq!(ctrl(Key::Char('x')), KeyAction::Exit);
    assert_eq!(ctrl(Key::Char('X')), KeyAction::Exit);
    assert_eq!(plain(Key::Char('x')), KeyAction::Send(vec![b'x']));
}

#[test]
fn control_letters_map_to_control_bytes() {
    assert_eq!(ctrl(Key::Char('c')), KeyAction::Send(vec![0x03]));
    assert_eq!(ctrl(Key::Char('D')), KeyAction::Send(vec![0x04]));
    assert_eq!(ctrl(Key::Char('e')), KeyAction::Send(vec![0x05]));
    assert_eq!(ctrl(Key::Char('k')), KeyAction::Send(vec![0x0b]));
    assert_eq!(ctrl(Key::Char('u')), KeyAction::Send(vec![0x15]));
    assert_eq!(ctrl(Key::Char('W')), KeyAction::Send(vec![0x17]));
    assert_eq!(ctrl(Key::Char('z')), KeyAction::Send(vec![0x1a]));
    assert_eq!(ctrl(Key::Char('[')), KeyAction::Send(vec![0x1b]));
}

#[test]
fn plain_characters_pass_through() {
    assert_eq!(plain(Key::Char('a')), KeyAction::Send(vec![b'a']));
    assert_eq!(plain(Key::Char(' ')), KeyAction::Send(vec![0x20]));
    assert_eq!(plain(Key::Char('~')), KeyAction::Send(vec![0x7e]));
}

#[test]
fn a_wide_character_goes_as_its_low_byte() {
    assert_eq!(plain(Key::Char('\u{e9}')), KeyAction::Send(vec![0xe9]));
    assert_eq!(plain(Key::Char('\u{20ac}')), KeyAction::Send(vec![0xac]));
    assert_eq!(ctrl(Key::Char('\u{20ac}')), KeyAction::Send(vec![0x0c]));
}

#[test]
fn editing_keys() {
    assert_eq!(plain(Key::Enter), KeyAction::Send(vec![b'\r']));
    assert_eq!(plain(Key::Backspace), KeyAction::Send(vec![0x7f]));
    assert_eq!(plain(Key::Tab), KeyAction::Send(vec![b'\t']));
    assert_eq!(plain(Key::Esc), KeyAction::Send(vec![0x1b]));
    assert_eq!(plain(Key::Delete), KeyAction::Send(vec![0x1b, 0x5b, 0x33, 0x7e]));
    assert_eq!(ctrl(Key::Enter), KeyAction::Send(vec![b'\r']));
}

#[test]
fn navigation_keys() {
    assert_eq!(plain(Key::Up), KeyAction::Send(vec![0x1b, 0x5b, 0x41]));
    assert_eq!(plain(Key::Down), KeyAction::Send(vec![0x1b, 0x5b, 0x42]));
    assert_eq!(plain(Key::Right), KeyAction::Send(vec![0x1b, 0x5b, 0x43]));
    assert_eq!(plain(Key::Left), KeyAction::Send(vec![0x1b, 0x5b, 0x44]));
    assert_eq!(plain(Key::Home), KeyAction::Send(vec![0x1b, 0x5b, 0x48]));
    assert_eq!(plain(Key::End), KeyAction::Send(vec![0x1b, 0x5b, 0x46]));
    assert_eq!(ctrl(Key::Right), KeyAction::Send(vec![0x1b, 0x5b, 0x31, 0x3b, 0x35, 0x43]));
    assert_eq!(ctrl(Key::Up), KeyAction::Send(vec![0x1b, 0x5b, 0x41]));
}

#[test]
fn other_keys_send_nothing() {
    assert_eq!(plain(Key::Other), KeyAction::Ignore);
    assert_eq!(ctrl(Key::Other), KeyAction::Ignore);
}
