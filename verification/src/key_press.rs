use vstd::prelude::*;

use crate::keys::Keys;

verus! {

/// One decoded keypress: the key symbol together with the literal
/// characters that produced it (kept for re-emission, e.g. paste).
#[derive(Debug)]
pub struct KeyPress {
    key: Keys,
    text: String,
}

/// The mathematical view of a keypress: the symbol and the text characters.
pub struct KeyPressView {
    pub key: Keys,
    pub text: Seq<char>,
}

impl View for KeyPress {
    type V = KeyPressView;

    closed spec fn view(&self) -> KeyPressView {
        KeyPressView { key: self.key, text: self.text@ }
    }
}

impl KeyPress {
    pub fn new(key: Keys, text: String) -> (r: Self)
        ensures
            r@.key == key,
            r@.text == text@,
    {
        Self { key, text }
    }

    pub fn text(&self) -> (r: &str)
        ensures
            r@ == self@.text,
    {
        self.text.as_str()
    }

    pub fn key(&self) -> (r: Keys)
        ensures
            r == self@.key,
    {
        self.key
    }
}

impl PartialEq for KeyPress {
    fn eq(&self, other: &Self) -> (r: bool) {
        self.key == other.key && self.text == other.text
    }
}

impl vstd::std_specs::cmp::PartialEqSpecImpl for KeyPress {
    open spec fn obeys_eq_spec() -> bool {
        true
    }

    open spec fn eq_spec(&self, other: &Self) -> bool {
        self@.key == other@.key && self@.text == other@.text
    }
}

} // verus!
