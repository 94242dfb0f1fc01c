use focus_tabs::history::{MAX_BUFFER, MIN_BUFFER};
use focus_tabs::keys::KeyCode;
use focus_tabs::tab::TabData;

type Tab = TabData<u32, u8>;

fn typed(text: &str) -> Tab {
    let mut tab = Tab::new();
    for c in text.chars() {
        tab.insert_key(KeyCode::Char(c));
    }
    tab
}

#[test]
fn insert_key_appends() {
    let mut tab = Tab::new();
    tab.insert_key(KeyCode::Char('a'));
    tab.insert_key(KeyCode::Enter);
    assert_eq!(tab.key_history, vec![KeyCode::Char('a'), KeyCode::Enter]);
}

#[test]
fn history_grows_to_one_past_the_high_water_mark() {
    let mut tab = Tab::new();
    for i in 0..31u8 {
        tab.insert_key(KeyCode::F(i));
    }
    assert_eq!(tab.key_history.len(), 31);
    assert_eq!(tab.key_history[0], KeyCode::F(0));
    assert_eq!(tab.key_history[30], KeyCode::F(30));
}

#[test]
fn history_is_trimmed_by_twenty_keys() {
    assert_eq!(MAX_BUFFER, 30);
    assert_eq!(MIN_BUFFER, 10);
    let mut tab = Tab::new();
    for i in 0..32u8 {
        tab.insert_key(KeyCode::F(i));
    }
    assert_eq!(tab.key_history.len(), 12);
    let expected: Vec<KeyCode> = (20..32u8).map(KeyCode::F).collect();
    assert_eq!(tab.key_history, expected);
}

#[test]
fn history_never_exceeds_thirty_one_keys() {
    let mut tab = Tab::new();
    for i in 0..200u8 {
        tab.insert_key(KeyCode::F(i));
        assert!(tab.key_history.len() <= MAX_BUFFER + 1);
        assert_eq!(*tab.key_history.last().unwrap(), KeyCode::F(i));
    }
}

#[test]
fn overlong_history_is_trimmed_too() {
    let mut tab = Tab::new();
    tab.key_history = (0..50u8).map(KeyCode::F).collect();
    tab.insert_key(KeyCode::Enter);
    assert_eq!(tab.key_history.len(), 31);
    assert_eq!(tab.key_history[0], KeyCode::F(20));
    assert_eq!(tab.key_history[30], KeyCode::Enter);
}

#[test]
fn key_match_on_the_last_keys() {
    let tab = typed("hello");
    assert!(tab.key_match(vec![KeyCode::Char('l'), KeyCode::Char('o')]));
    assert!(tab.key_match(vec![KeyCode::Char('o')]));
    assert!(!tab.key_match(vec![KeyCode::Char('l')]));
    assert!(!tab.key_match(vec![KeyCode::Char('h'), KeyCode::Char('e')]));
}

#[test]
fn key_match_of_no_keys() {
    assert!(typed("abc").key_match(vec![]));
    assert!(Tab::new().key_match(vec![]));
}

#[test]
fn key_match_of_more_keys_than_recorded() {
    let tab = typed("ab");
    assert!(!tab.key_match(vec![KeyCode::Char('x'), KeyCode::Char('a'), KeyCode::Char('b')]));
    assert!(tab.key_match(vec![KeyCode::Char('a'), KeyCode::Char('b')]));
    assert!(!Tab::new().key_match(vec![KeyCode::Enter]));
}

#[test]
fn key_match_tells_keys_apart() {
    let mut tab = Tab::new();
    tab.insert_key(KeyCode::F(1));
    tab.insert_key(KeyCode::Backspace);
    assert!(tab.key_match(vec![KeyCode::F(1), KeyCode::Backspace]));
    assert!(!tab.key_match(vec![KeyCode::F(2), KeyCode::Backspace]));
    assert!(!tab.key_match(vec![KeyCode::F(1), KeyCode::Delete]));
}

#[test]
fn char_match_on_the_last_characters() {
    let tab = typed("say gg");
    assert!(tab.char_match("gg"));
    assert!(tab.char_match(" gg"));
    assert!(tab.char_match("say gg"));
    assert!(tab.char_match(""));
    assert!(!tab.char_match("g "));
    assert!(!tab.char_match("xsay gg"));
    assert!(!tab.char_match("GG"));
}

#[test]
fn char_match_with_characters_of_several_bytes() {
    let tab = typed("blå bær");
    assert!(tab.char_match("bær"));
    assert!(tab.char_match("å bær"));
    assert!(!tab.char_match("bar"));
}

#[test]
fn char_match_sees_only_character_keys() {
    let mut tab = typed("d");
    tab.insert_key(KeyCode::Enter);
    assert!(!tab.char_match("d"));
    tab.insert_key(KeyCode::Char('d'));
    assert!(tab.char_match("d"));
    assert!(!tab.char_match("dd"));
}
