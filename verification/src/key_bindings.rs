use vstd::prelude::*;

use crate::key_press::KeyPress;
use crate::keys::Keys;

verus! {

/// One keypress on its way to a binding.
#[derive(Debug)]
pub struct KeyPressEvent {
    pub key_press: KeyPress,
}

impl KeyPressEvent {
    pub fn new(key_press: KeyPress) -> (r: Self)
        ensures
            r.key_press@ == key_press@,
    {
        KeyPressEvent { key_press }
    }
}

/// A handler invoked when its key arrives.
pub trait Binding {
    fn handler(&mut self, key_press_event: &KeyPressEvent);
}

/// Whether a binding list holds an entry for a key.
pub open spec fn has_binding(entries: Seq<(Keys, Box<dyn Binding>)>, key: Keys) -> bool {
    exists|j: int| 0 <= j < entries.len() && (#[trigger] entries[j]).0 == key
}

/// A table of bindings keyed by symbol, with fallbacks for any key.
pub struct KeyBindings {
    pub bindings: Vec<(Keys, Box<dyn Binding>)>,
    pub all_keys_bindings: Vec<Box<dyn Binding>>,
}

impl KeyBindings {
    pub fn new() -> (r: KeyBindings)
        ensures
            r.bindings@.len() == 0,
            r.all_keys_bindings@.len() == 0,
    {
        KeyBindings { bindings: Vec::new(), all_keys_bindings: Vec::new() }
    }

    /// The binding of a key, if one was added.
    pub fn get(&self, keys: &Keys) -> (r: Option<&Box<dyn Binding>>)
        ensures
            r is Some <==> has_binding(self.bindings@, *keys),
    {
        let mut i: usize = 0;
        while i < self.bindings.len()
            invariant
                i <= self.bindings@.len(),
                forall|j: int| 0 <= j < i ==> (#[trigger] self.bindings@[j]).0 != *keys,
            decreases self.bindings@.len() - i,
        {
            if self.bindings[i].0 == *keys {
                return Some(&self.bindings[i].1);
            }
            i = i + 1;
        }
        proof {
            assert(forall|j: int|
                0 <= j < self.bindings@.len() ==> (#[trigger] self.bindings@[j]).0 != *keys);
        }
        None
    }

    /// The binding of a key, mutably, if one was added.
    pub fn get_mut(&mut self, keys: &Keys) -> (r: Option<&mut Box<dyn Binding>>)
        ensures
            r is Some <==> has_binding(old(self).bindings@, *keys),
    {
        let mut i: usize = 0;
        let n = self.bindings.len();
        while i < n
            invariant
                n == self.bindings@.len(),
                *self == *old(self),
                i <= n,
                forall|j: int| 0 <= j < i ==> (#[trigger] self.bindings@[j]).0 != *keys,
            decreases n - i,
        {
            if self.bindings[i].0 == *keys {
                proof {
                    assert(has_binding(self.bindings@, *keys)) by {
                        assert((self.bindings@[i as int]).0 == *keys);
                    }
                }
                return Some(&mut self.bindings[i].1);
            }
            i = i + 1;
        }
        proof {
            assert(forall|j: int|
                0 <= j < self.bindings@.len() ==> (#[trigger] self.bindings@[j]).0 != *keys);
        }
        None
    }

    /// Adds (or shadows) the binding of a key: the new entry stands in
    /// front, so it wins the first-match lookup over earlier ones.
    pub fn add(&mut self, keys: Keys, binding: Box<dyn Binding>)
        ensures
            final(self).bindings@ == old(self).bindings@.insert(0, (keys, binding)),
            final(self).all_keys_bindings == old(self).all_keys_bindings,
    {
        self.bindings.insert(0, (keys, binding));
    }

    /// Adds a fallback binding consulted for every key, after those
    /// already there.
    pub fn add_for_all_keys(&mut self, binding: Box<dyn Binding>)
        ensures
            final(self).all_keys_bindings@ == old(self).all_keys_bindings@.push(binding),
            final(self).bindings == old(self).bindings,
    {
        self.all_keys_bindings.push(binding);
    }

    pub fn get_all_keys_bindings(&self) -> (r: &Vec<Box<dyn Binding>>)
        ensures
            r == &self.all_keys_bindings,
    {
        &self.all_keys_bindings
    }

    pub fn get_all_keys_bindings_mut(&mut self) -> (r: &mut Vec<Box<dyn Binding>>)
    {
        &mut self.all_keys_bindings
    }
}

/// Dispatches keypresses to their bindings, or to the fallbacks.
pub struct KeyProcessor {
    pub bindings: KeyBindings,
}

impl KeyProcessor {
    pub fn new(bindings: KeyBindings) -> (r: Box<KeyProcessor>)
        ensures
            r.bindings.bindings == bindings.bindings,
            r.bindings.all_keys_bindings == bindings.all_keys_bindings,
    {
        Box::new(KeyProcessor { bindings })
    }

    /// Routes one keypress: its own binding if present, else every
    /// fallback in order.
    pub fn process_key(&mut self, key_press: &KeyPressEvent) {
        let key = key_press.key_press.key();
        match self.bindings.get_mut(&key) {
            Some(binding) => binding.handler(key_press),
            None => {
                let n = self.bindings.all_keys_bindings.len();
                let mut i: usize = 0;
                while i < n
                    invariant
                        n == self.bindings.all_keys_bindings@.len(),
                    decreases n - i,
                {
                    self.bindings.all_keys_bindings[i].handler(key_press);
                    i = i + 1;
                }
            },
        }
    }
}

/// A binding that accepts a keypress and does nothing more.
pub struct EchoBinding;

impl Binding for EchoBinding {
    fn handler(&mut self, key_press_event: &KeyPressEvent) {
    }
}

} // verus!
