use prompt_toolkit::key_press::KeyPress;
use prompt_toolkit::keys::Keys;
use prompt_toolkit::parser::{Parser, PrefixMatchCache};

#[test]
fn test_prefix_match_cache() {
    let mut cache = PrefixMatchCache::new();
    assert!(cache.get("\x1b["));
    assert!(cache.get("\x1b[1"));
    assert!(!cache.get("\x1b[2;1R]"));
    assert!(!cache.get("a"));
    assert!(cache.get("\x1b[<"));
    assert!(cache.get("\x1b[M"));
}

#[test]
fn test_parser() {
    let mut parser = Parser::new();
    let results = parser.feed("hello");
    assert_eq!(results.len(), 5);
    assert_eq!(results[0], KeyPress::new(Keys::Character('h'), "h".to_string()));
    assert_eq!(results[1], KeyPress::new(Keys::Character('e'), "e".to_string()));
    assert_eq!(results[2], KeyPress::new(Keys::Character('l'), "l".to_string()));
    assert_eq!(results[3], KeyPress::new(Keys::Character('l'), "l".to_string()));
    assert_eq!(results[4], KeyPress::new(Keys::Character('o'), "o".to_string()));

    let results = parser.feed("\x1b[A");
    assert_eq!(results.len(), 1);
    assert_eq!(results[0], KeyPress::new(Keys::Up, "\x1b[A".to_string()));

    let results = parser.feed("\x1b[200~clipboard\x1b[201~");
    assert_eq!(results.len(), 1);
    assert_eq!(results[0], KeyPress::new(Keys::BracketedPaste, "clipboard".to_string()));
}

#[test]
fn test_single_char() {
    let mut parser = Parser::new();
    let keys = parser.feed("x");
    assert_eq!(keys.len(), 1);
    assert_eq!(keys[0], KeyPress::new(Keys::Character('x'), "x".to_string()));
}

#[test]
fn test_escape_seq() {
    let mut parser = Parser::new();
    let keys = parser.feed("\x1b[A");
    assert_eq!(keys, vec![KeyPress::new(Keys::Up, "\x1B[A".to_string())]);
}

#[test]
fn test_invalid_seq() {
    let mut parser = Parser::new();
    let keys = parser.feed("\x1b[");
    assert_eq!(keys, vec![]);
}

#[test]
fn test_flush_decomposes_held_csi() {
    let mut parser = Parser::new();
    let keys = parser.feed("\x1b[");
    assert_eq!(keys, vec![]);
    let keys = parser.flush();
    assert_eq!(keys.len(), 2);
    assert_eq!(keys[0], KeyPress::new(Keys::Escape, "\x1b".to_string()));
    assert_eq!(keys[1], KeyPress::new(Keys::Character('['), "[".to_string()));
}

#[test]
fn test_lone_escape_needs_flush() {
    let mut parser = Parser::new();
    let keys = parser.feed("\x1b");
    assert_eq!(keys, vec![]);
    let keys = parser.flush();
    assert_eq!(keys, vec![KeyPress::new(Keys::Escape, "\x1b".to_string())]);
}

#[test]
fn test_control_delete() {
    let mut parser = Parser::new();
    let keys = parser.feed("\x1b[3;5~");
    assert_eq!(keys.len(), 1);
    assert_eq!(keys[0].key(), Keys::ControlDelete);
    assert_eq!(keys[0].text(), "\x1b[3;5~");
}

#[test]
fn test_meta_arrow_splits_in_two() {
    let mut parser = Parser::new();
    let keys = parser.feed("\x1b[1;3A");
    assert_eq!(keys.len(), 2);
    assert_eq!(keys[0], KeyPress::new(Keys::Escape, "\x1b[1;3A".to_string()));
    assert_eq!(keys[1], KeyPress::new(Keys::Up, String::new()));
}

#[test]
fn test_cpr_response() {
    let mut parser = Parser::new();
    let keys = parser.feed("\x1b[12;24R");
    assert_eq!(keys.len(), 1);
    assert_eq!(keys[0].key(), Keys::CPRResponse);
    assert_eq!(keys[0].text(), "\x1b[12;24R");
}

#[test]
fn test_mouse_event() {
    let mut parser = Parser::new();
    let keys = parser.feed("\x1b[<0;12;24M");
    assert_eq!(keys.len(), 1);
    assert_eq!(keys[0].key(), Keys::Vt100MouseEvent);
}

#[test]
fn test_paste_straddles_feed_boundary() {
    let mut parser = Parser::new();
    let mut all: Vec<KeyPress> = Vec::new();
    all.extend(parser.feed("\x1b[20"));
    all.extend(parser.feed("0~split "));
    all.extend(parser.feed("paste\x1b[2"));
    all.extend(parser.feed("01~"));
    all.extend(parser.flush());
    assert_eq!(all.len(), 1);
    assert_eq!(all[0], KeyPress::new(Keys::BracketedPaste, "split paste".to_string()));
}

#[test]
fn test_chunked_feed_equals_whole_feed() {
    let input = "hi\x1b[A\x1b[200~abc\x1b[201~x\x1b[1;3A\x1b";
    let mut whole = Parser::new();
    let mut expected: Vec<KeyPress> = whole.feed(input);
    expected.extend(whole.flush());

    for split in 1..input.len() {
        if !input.is_char_boundary(split) {
            continue;
        }
        let mut parser = Parser::new();
        let mut got: Vec<KeyPress> = parser.feed(&input[..split]);
        got.extend(parser.feed(&input[split..]));
        got.extend(parser.flush());
        assert_eq!(got, expected);
    }
}

#[test]
fn test_text_round_trip_without_paste() {
    let input = "abc\x1b[Ad\x1b[3;5~e";
    let mut parser = Parser::new();
    let mut keys = parser.feed(input);
    keys.extend(parser.flush());
    let mut rebuilt = String::new();
    for k in &keys {
        rebuilt.push_str(k.text());
    }
    assert_eq!(rebuilt, input);
}

#[test]
fn test_backspace_maps_to_control_h() {
    let mut parser = Parser::new();
    let keys = parser.feed("\x7f");
    assert_eq!(keys.len(), 1);
    assert_eq!(keys[0].key(), Keys::ControlH);
}

#[test]
fn test_keys_as_str_names() {
    assert_eq!(Keys::ControlShiftLeft.as_str(), "c-s-left");
    assert_eq!(Keys::BackTab.as_str(), "s-tab");
    assert_eq!(Keys::F24.as_str(), "f24");
    assert_eq!(Keys::BracketedPaste.as_str(), "<bracketed-paste>");
    assert_eq!(Keys::Character('x').as_str(), "");
}
