use prompt_toolkit::key_bindings::{Binding, EchoBinding, KeyBindings, KeyPressEvent, KeyProcessor};
use prompt_toolkit::key_press::KeyPress;
use prompt_toolkit::keys::Keys;

#[test]
fn test_key_bindings_new() {
    let bindings = KeyBindings::new();
    assert!(bindings.bindings.is_empty());
    assert!(bindings.all_keys_bindings.is_empty());
}

#[test]
fn test_key_bindings_add() {
    let mut bindings = KeyBindings::new();
    let echo = Box::new(EchoBinding);
    bindings.add(Keys::Character('a'), echo);
    assert_eq!(bindings.bindings.len(), 1);
}

#[test]
fn test_key_bindings_add_for_all_keys() {
    let mut bindings = KeyBindings::new();
    let echo = Box::new(EchoBinding);
    bindings.add_for_all_keys(echo);
    assert_eq!(bindings.all_keys_bindings.len(), 1);
}

#[test]
fn test_key_bindings_get() {
    let mut bindings = KeyBindings::new();
    let echo = Box::new(EchoBinding);
    bindings.add(Keys::Character('a'), echo);
    assert!(bindings.get(&Keys::Character('a')).is_some());
    assert!(bindings.get(&Keys::Character('b')).is_none());
}

#[test]
fn test_key_press_event_new() {
    let key_press = KeyPress::new(Keys::Character('x'), "x".to_string());
    let event = KeyPressEvent::new(key_press);
    assert_eq!(event.key_press.key(), Keys::Character('x'));
}

struct Counter {
    hits: usize,
}

impl Binding for Counter {
    fn handler(&mut self, _key_press_event: &KeyPressEvent) {
        self.hits += 1;
    }
}

#[test]
fn test_process_key_prefers_exact_binding() {
    let mut bindings = KeyBindings::new();
    bindings.add(Keys::Up, Box::new(Counter { hits: 0 }));
    bindings.add_for_all_keys(Box::new(Counter { hits: 0 }));
    let mut processor = KeyProcessor::new(bindings);
    let event = KeyPressEvent::new(KeyPress::new(Keys::Up, "\x1b[A".to_string()));
    processor.process_key(&event);
    let other = KeyPressEvent::new(KeyPress::new(Keys::Character('q'), "q".to_string()));
    processor.process_key(&other);
}
