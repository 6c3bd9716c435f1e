use vstd::prelude::*;

use crate::key_press::{KeyPress, KeyPressView};
use crate::key_table::{
    entry_views, full_match, full_match_exec, is_prefix_match, is_prefix_match_exec, key_table,
    key_table_entries,
};
use crate::keys::Keys;
use crate::util::{chars_to_string, ends_with, ends_with_chars, str_chars};

verus! {

/// The bytes that end a bracketed paste.
pub open spec fn end_marker() -> Seq<char> {
    "\u{1b}[201~"@
}

/// The abstract state of the input parser: the ambiguous prefix held back,
/// the paste buffer, and whether a paste is open.
pub struct ParserState {
    pub prefix: Seq<char>,
    pub paste: Seq<char>,
    pub in_paste: bool,
}

/// Whether a key list opens a bracketed paste.
pub open spec fn enters_paste(keys: Seq<Keys>) -> bool {
    keys.contains(Keys::BracketedPaste)
}

/// The keypresses a matched key list emits: the first position carries the
/// matched text, later ones are empty, and the paste marker emits nothing.
pub open spec fn emit_from(keys: Seq<Keys>, text: Seq<char>, i: int) -> Seq<KeyPressView>
    decreases keys.len() - i,
{
    if i < 0 || i >= keys.len() {
        seq![]
    } else if keys[i] == Keys::BracketedPaste {
        emit_from(keys, text, i + 1)
    } else {
        seq![
            KeyPressView {
                key: keys[i],
                text: if i == 0 {
                    text
                } else {
                    Seq::empty()
                },
            },
        ] + emit_from(keys, text, i + 1)
    }
}

/// All keypresses a matched key list emits.
pub open spec fn emit_out(keys: Seq<Keys>, text: Seq<char>) -> Seq<KeyPressView> {
    emit_from(keys, text, 0)
}

/// The parser state after a key list was handled: the prefix is replaced,
/// and the paste marker opens paste mode with an empty buffer.
pub open spec fn emit_state(st: ParserState, keys: Seq<Keys>, new_prefix: Seq<char>) -> ParserState {
    ParserState {
        prefix: new_prefix,
        paste: if enters_paste(keys) {
            Seq::empty()
        } else {
            st.paste
        },
        in_paste: st.in_paste || enters_paste(keys),
    }
}

/// The largest length up to `hi` whose prefix of the held sequence has a
/// full match, or zero when none has.
#[verifier::opaque]
pub open spec fn longest_fm_below(s: Seq<char>, hi: int) -> int
    decreases hi,
{
    if hi <= 0 {
        0
    } else if full_match(s.take(hi)) is Some {
        hi
    } else {
        longest_fm_below(s, hi - 1)
    }
}

/// The resolution loop of the parser: with the flush flag or without a
/// possible longer match, the held prefix is consumed - as a whole on a
/// full match, else by its longest fully-matching proper prefix, else one
/// character at a time; a retry clears the flush flag.
pub open spec fn resolve(st: ParserState, fl: bool) -> (ParserState, Seq<KeyPressView>)
    decreases st.prefix.len(),
{
    if st.prefix.len() == 0 {
        (st, seq![])
    } else if !fl && is_prefix_match(st.prefix) {
        (st, seq![])
    } else {
        match full_match(st.prefix) {
            Some(keys) => (emit_state(st, keys, Seq::empty()), emit_out(keys, st.prefix)),
            None => {
                let i = longest_fm_below(st.prefix, st.prefix.len() - 1);
                if 1 <= i && i < st.prefix.len() {
                    let keys = match full_match(st.prefix.take(i)) {
                        Some(k) => k,
                        None => seq![],
                    };
                    let st1 = emit_state(st, keys, st.prefix.skip(i));
                    let (st2, out2) = resolve(st1, false);
                    (st2, emit_out(keys, st.prefix.take(i)) + out2)
                } else {
                    let c = st.prefix[0];
                    let st1 = ParserState { prefix: st.prefix.skip(1), ..st };
                    let (st2, out2) = resolve(st1, false);
                    (st2, seq![KeyPressView { key: Keys::Character(c), text: seq![c] }] + out2)
                }
            },
        }
    }
}

/// One input character fed to the parser: in paste mode it accumulates
/// until the end marker completes, otherwise it joins the prefix and the
/// resolution loop runs.
pub open spec fn step_spec(st: ParserState, c: char) -> (ParserState, Seq<KeyPressView>) {
    if st.in_paste {
        let p2 = st.paste.push(c);
        if ends_with(p2, end_marker()) {
            (
                ParserState { prefix: st.prefix, paste: Seq::empty(), in_paste: false },
                seq![
                    KeyPressView {
                        key: Keys::BracketedPaste,
                        text: p2.take(p2.len() - end_marker().len()),
                    },
                ],
            )
        } else {
            (ParserState { paste: p2, ..st }, seq![])
        }
    } else {
        resolve(ParserState { prefix: st.prefix.push(c), ..st }, false)
    }
}

/// A whole input string fed to the parser, character by character.
pub open spec fn feed_spec(st: ParserState, input: Seq<char>) -> (ParserState, Seq<KeyPressView>)
    decreases input.len(),
{
    if input.len() == 0 {
        (st, seq![])
    } else {
        let (s1, o1) = step_spec(st, input[0]);
        let (s2, o2) = feed_spec(s1, input.drop_first());
        (s2, o1 + o2)
    }
}

/// A flush: the resolution loop with the flush flag raised.
pub open spec fn flush_spec(st: ParserState) -> (ParserState, Seq<KeyPressView>) {
    resolve(st, true)
}

/// The views of a list of keypresses.
pub open spec fn kp_views(s: Seq<KeyPress>) -> Seq<KeyPressView> {
    s.map_values(|k: KeyPress| k@)
}

/// A memo of which byte sequences could still grow into a match.
pub struct PrefixMatchCache {
    table: Vec<(&'static str, Vec<Keys>)>,
    cache: Vec<(String, bool)>,
}

impl PrefixMatchCache {
    /// The memo only ever holds correct answers over the real key table.
    pub closed spec fn wf(&self) -> bool {
        &&& entry_views(self.table@) == key_table()
        &&& forall|j: int|
            0 <= j < self.cache@.len() ==> #[trigger] self.cache@[j].1 == is_prefix_match(
                self.cache@[j].0@,
            )
    }

    pub fn new() -> (r: Self)
        ensures
            r.wf(),
    {
        PrefixMatchCache { table: key_table_entries(), cache: Vec::new() }
    }

    /// Whether more input could still turn the sequence into a match.
    pub fn get(&mut self, prefix: &str) -> (r: bool)
        requires
            old(self).wf(),
        ensures
            final(self).wf(),
            r == is_prefix_match(prefix@),
    {
        let mut i: usize = 0;
        while i < self.cache.len()
            invariant
                old(self).wf(),
                *self == *old(self),
                i <= self.cache@.len(),
            decreases self.cache@.len() - i,
        {
            if crate::util::str_eq(self.cache[i].0.as_str(), prefix) {
                return self.cache[i].1;
            }
            i = i + 1;
        }
        let cv = str_chars(prefix);
        let result = is_prefix_match_exec(&self.table, &cv);
        self.cache.push((prefix.to_owned(), result));
        result
    }
}

/// The incremental VT100 input parser: feed it characters, get keypresses.
pub struct Parser {
    prefix: Vec<char>,
    paste_buffer: Vec<char>,
    prefix_match_cache: PrefixMatchCache,
    in_bracketed_paste: bool,
    table: Vec<(&'static str, Vec<Keys>)>,
}

impl View for Parser {
    type V = ParserState;

    closed spec fn view(&self) -> ParserState {
        ParserState {
            prefix: self.prefix@,
            paste: self.paste_buffer@,
            in_paste: self.in_bracketed_paste,
        }
    }
}

/// The first `n` characters, copied.
fn take_chars(v: &Vec<char>, n: usize) -> (r: Vec<char>)
    requires
        n <= v@.len(),
    ensures
        r@ == v@.take(n as int),
{
    let mut out: Vec<char> = Vec::new();
    let mut i: usize = 0;
    while i < n
        invariant
            i <= n <= v@.len(),
            out@ == v@.take(i as int),
        decreases n - i,
    {
        out.push(v[i]);
        proof {
            assert(v@.take(i + 1) =~= v@.take(i as int).push(v@[i as int]));
        }
        i = i + 1;
    }
    out
}

/// The characters from position `n` on, copied.
fn skip_chars(v: &Vec<char>, n: usize) -> (r: Vec<char>)
    requires
        n <= v@.len(),
    ensures
        r@ == v@.skip(n as int),
{
    let mut out: Vec<char> = Vec::new();
    let mut i: usize = n;
    proof {
        assert(v@.subrange(n as int, n as int) =~= Seq::<char>::empty());
    }
    while i < v.len()
        invariant
            n <= i <= v@.len(),
            out@ == v@.subrange(n as int, i as int),
        decreases v@.len() - i,
    {
        out.push(v[i]);
        proof {
            assert(v@.subrange(n as int, i + 1) =~= v@.subrange(n as int, i as int).push(
                v@[i as int],
            ));
        }
        i = i + 1;
    }
    proof {
        assert(v@.subrange(n as int, v@.len() as int) =~= v@.skip(n as int));
    }
    out
}

impl Parser {
    /// The parser always carries the real key table.
    pub closed spec fn wf(&self) -> bool {
        &&& entry_views(self.table@) == key_table()
        &&& self.prefix_match_cache.wf()
    }

    pub fn new() -> (r: Self)
        ensures
            r.wf(),
            r@.prefix.len() == 0,
            r@.paste.len() == 0,
            !r@.in_paste,
    {
        Parser {
            prefix: Vec::new(),
            paste_buffer: Vec::new(),
            prefix_match_cache: PrefixMatchCache::new(),
            in_bracketed_paste: false,
            table: key_table_entries(),
        }
    }

    /// Emits the keypresses of one matched key list and applies its paste
    /// side effects; the prefix is left to the caller.
    #[verifier::rlimit(100)]
    #[verifier::spinoff_prover]
    fn emit_keys_into(&mut self, ks: &Vec<Keys>, text: &Vec<char>, results: &mut Vec<KeyPress>)
        requires
            old(self).wf(),
        ensures
            final(self).wf(),
            kp_views(final(results)@) == kp_views(old(results)@) + emit_out(ks@, text@),
            final(self)@.prefix == old(self)@.prefix,
            final(self)@.in_paste == (old(self)@.in_paste || enters_paste(ks@)),
            final(self)@.paste == if enters_paste(ks@) {
                Seq::<char>::empty()
            } else {
                old(self)@.paste
            },
    {
        let ghost out0 = kp_views(results@);
        let mut i: usize = 0;
        while i < ks.len()
            invariant
                old(self).wf(),
                self.wf(),
                i <= ks@.len(),
                self.prefix@ == old(self)@.prefix,
                kp_views(results@) + emit_from(ks@, text@, i as int) == out0 + emit_out(ks@, text@),
                self.in_bracketed_paste == (old(self)@.in_paste || ks@.take(i as int).contains(
                    Keys::BracketedPaste,
                )),
                self.paste_buffer@ == if ks@.take(i as int).contains(Keys::BracketedPaste) {
                    Seq::<char>::empty()
                } else {
                    old(self)@.paste
                },
            decreases ks@.len() - i,
        {
            let k = ks[i];
            proof {
                assert(ks@.take(i + 1) =~= ks@.take(i as int).push(ks@[i as int]));
                if ks@.take(i as int).contains(Keys::BracketedPaste) {
                    let w = choose|w: int|
                        0 <= w < i && #[trigger] ks@.take(i as int)[w] == Keys::BracketedPaste;
                    assert(ks@.take(i + 1)[w] == Keys::BracketedPaste);
                }
            }
            if k == Keys::BracketedPaste {
                self.in_bracketed_paste = true;
                self.paste_buffer = Vec::new();
                proof {
                    assert(ks@.take(i + 1)[i as int] == Keys::BracketedPaste);
                    assert(self.paste_buffer@ =~= Seq::<char>::empty());
                }
            } else {
                let t = if i == 0 {
                    chars_to_string(text)
                } else {
                    String::new()
                };
                let ghost prev_out = kp_views(results@);
                results.push(KeyPress::new(k, t));
                proof {
                    reveal_strlit("");
                    let kpv = KeyPressView {
                        key: ks@[i as int],
                        text: if i == 0 {
                            text@
                        } else {
                            Seq::<char>::empty()
                        },
                    };
                    assert(kp_views(results@) =~= prev_out.push(kpv));
                    assert(emit_from(ks@, text@, i as int) == seq![kpv] + emit_from(
                        ks@,
                        text@,
                        i + 1,
                    ));
                    assert(prev_out.push(kpv) + emit_from(ks@, text@, i + 1) =~= prev_out + (
                    seq![kpv] + emit_from(ks@, text@, i + 1)));
                    if ks@.take(i + 1).contains(Keys::BracketedPaste) {
                        let w = choose|w: int|
                            0 <= w < i + 1 && #[trigger] ks@.take(i + 1)[w]
                                == Keys::BracketedPaste;
                        assert(ks@.take(i as int)[w] == Keys::BracketedPaste);
                    }
                }
            }
            i = i + 1;
        }
        proof {
            assert(ks@.take(ks@.len() as int) =~= ks@);
            assert(emit_from(ks@, text@, ks@.len() as int) =~= Seq::<KeyPressView>::empty());
            assert(kp_views(results@) + Seq::<KeyPressView>::empty() =~= kp_views(results@));
            assert(enters_paste(ks@) == ks@.contains(Keys::BracketedPaste));
        }
    }

    /// Runs the resolution loop over the held prefix.
    #[verifier::rlimit(100)]
    #[verifier::spinoff_prover]
    fn resolve_into(&mut self, fl: bool, results: &mut Vec<KeyPress>)
        requires
            old(self).wf(),
        ensures
            final(self).wf(),
            ({
                let (st2, out) = resolve(old(self)@, fl);
                &&& final(self)@ == st2
                &&& kp_views(final(results)@) == kp_views(old(results)@) + out
            }),
    {
        let mut flx = fl;
        loop
            invariant
                self.wf(),
                resolve(old(self)@, fl).0 == resolve(self@, flx).0,
                kp_views(old(results)@) + resolve(old(self)@, fl).1 == kp_views(results@)
                    + resolve(self@, flx).1,
            ensures
                self.wf(),
                self@ == resolve(old(self)@, fl).0,
                kp_views(results@) == kp_views(old(results)@) + resolve(old(self)@, fl).1,
            decreases self.prefix@.len(),
        {
            if self.prefix.len() == 0 {
                proof {
                    assert(resolve(self@, flx) == (self@, Seq::<KeyPressView>::empty()));
                    assert(kp_views(results@) + Seq::<KeyPressView>::empty() =~= kp_views(
                        results@,
                    ));
                }
                break ;
            }
            let ipm = is_prefix_match_exec(&self.table, &self.prefix);
            if !flx && ipm {
                proof {
                    assert(resolve(self@, flx) == (self@, Seq::<KeyPressView>::empty()));
                    assert(kp_views(results@) + Seq::<KeyPressView>::empty() =~= kp_views(
                        results@,
                    ));
                }
                break ;
            }
            let fm = full_match_exec(&self.table, &self.prefix);
            match fm {
                Some(ks) => {
                    let ghost st_here = self@;
                    let text = take_chars(&self.prefix, self.prefix.len());
                    proof {
                        assert(self.prefix@.take(self.prefix@.len() as int) =~= self.prefix@);
                    }
                    self.prefix = Vec::new();
                    proof {
                        assert(self.prefix@ =~= Seq::<char>::empty());
                    }
                    self.emit_keys_into(&ks, &text, results);
                    proof {
                        assert(self@ == emit_state(st_here, ks@, Seq::<char>::empty()));
                        assert(resolve(st_here, flx) == (
                            emit_state(st_here, ks@, Seq::<char>::empty()),
                            emit_out(ks@, st_here.prefix),
                        ));
                    }
                    break ;
                },
                None => {
                    let ghost st_here = self@;
                    let n = self.prefix.len();
                    let mut i: usize = n - 1;
                    let mut hit: Option<Vec<Keys>> = None;
                    proof {
                        assert(longest_fm_below(st_here.prefix, n - 1) == longest_fm_below(
                            st_here.prefix,
                            n - 1,
                        ));
                    }
                    while i >= 1 && hit.is_none()
                        invariant
                            self.wf(),
                            self@ == st_here,
                            n == self.prefix@.len(),
                            i <= n - 1,
                            n >= 1,
                            hit is None ==> longest_fm_below(st_here.prefix, n - 1)
                                == longest_fm_below(st_here.prefix, i as int),
                            match hit {
                                Some(ks) => 1 <= i && full_match(st_here.prefix.take(i as int))
                                    == Some(ks@) && longest_fm_below(st_here.prefix, n - 1)
                                    == i as int,
                                None => true,
                            },
                        decreases i + (if hit is None {
                            1int
                        } else {
                            0int
                        }),
                    {
                        let sub = take_chars(&self.prefix, i);
                        match full_match_exec(&self.table, &sub) {
                            Some(ks) => {
                                hit = Some(ks);
                                proof {
                                    reveal(longest_fm_below);
                                    assert(longest_fm_below(st_here.prefix, i as int) == i as int);
                                }
                            },
                            None => {
                                proof {
                                    reveal(longest_fm_below);
                                    assert(longest_fm_below(st_here.prefix, i as int)
                                        == longest_fm_below(st_here.prefix, i - 1));
                                }
                                i = i - 1;
                            },
                        }
                    }
                    match hit {
                        Some(ks) => {
                            let text = take_chars(&self.prefix, i);
                            let rest = skip_chars(&self.prefix, i);
                            self.prefix = rest;
                            self.emit_keys_into(&ks, &text, results);
                            proof {
                                assert(self@ == emit_state(
                                    st_here,
                                    ks@,
                                    st_here.prefix.skip(i as int),
                                ));
                            }
                            flx = false;
                        },
                        None => {
                            proof {
                                reveal(longest_fm_below);
                                assert(longest_fm_below(st_here.prefix, 0) == 0);
                            }
                            let c = self.prefix[0];
                            let mut cv: Vec<char> = Vec::new();
                            cv.push(c);
                            proof {
                                assert(cv@ =~= seq![c]);
                            }
                            let t = chars_to_string(&cv);
                            let ghost prev_out = kp_views(results@);
                            results.push(KeyPress::new(Keys::Character(c), t));
                            let rest = skip_chars(&self.prefix, 1);
                            self.prefix = rest;
                            proof {
                                let kpv = KeyPressView { key: Keys::Character(c), text: seq![c] };
                                assert(kp_views(results@) =~= prev_out.push(kpv));
                                let (st2, out2) = resolve(self@, false);
                                assert(prev_out + (seq![kpv] + out2) =~= prev_out.push(kpv)
                                    + out2);
                            }
                            flx = false;
                        },
                    }
                },
            }
        }
    }

    /// Feeds input characters to the parser and returns the keypresses they
    /// resolve to; ambiguous trailing bytes are held for later input.
    #[verifier::rlimit(100)]
    #[verifier::spinoff_prover]
    pub fn feed(&mut self, data: &str) -> (r: Vec<KeyPress>)
        requires
            old(self).wf(),
        ensures
            final(self).wf(),
            ({
                let (st2, out) = feed_spec(old(self)@, data@);
                &&& final(self)@ == st2
                &&& kp_views(r@) == out
            }),
    {
        let cv = str_chars(data);
        let mut results: Vec<KeyPress> = Vec::new();
        let em = str_chars("\u{1b}[201~");
        proof {
            reveal_strlit("\u{1b}[201~");
            assert(em@.len() == 6);
            assert(kp_views(results@) =~= Seq::<KeyPressView>::empty());
        }
        let mut i: usize = 0;
        while i < cv.len()
            invariant
                self.wf(),
                cv@ == data@,
                em@ == end_marker(),
                em@.len() == 6,
                i <= cv@.len(),
                feed_spec(old(self)@, data@.take(i as int)) == (self@, kp_views(results@)),
            decreases cv@.len() - i,
        {
            let c = cv[i];
            let ghost st_before = self@;
            let ghost out_before = kp_views(results@);
            if self.in_bracketed_paste {
                self.paste_buffer.push(c);
                if ends_with_chars(&self.paste_buffer, &em) {
                    let n = self.paste_buffer.len() - 6;
                    let content = take_chars(&self.paste_buffer, n);
                    results.push(KeyPress::new(Keys::BracketedPaste, chars_to_string(&content)));
                    self.paste_buffer = Vec::new();
                    self.in_bracketed_paste = false;
                    proof {
                        assert(self.paste_buffer@ =~= Seq::<char>::empty());
                        let kpv = KeyPressView {
                            key: Keys::BracketedPaste,
                            text: st_before.paste.push(c).take(
                                st_before.paste.push(c).len() - end_marker().len(),
                            ),
                        };
                        assert(kp_views(results@) =~= out_before.push(kpv));
                        assert(out_before.push(kpv) =~= out_before + seq![kpv]);
                    }
                } else {
                    proof {
                        assert(kp_views(results@) + Seq::<KeyPressView>::empty() =~= kp_views(
                            results@,
                        ));
                    }
                }
            } else {
                self.prefix.push(c);
                self.resolve_into(false, &mut results);
            }
            proof {
                lemma_feed_snoc(old(self)@, data@.take(i as int), data@[i as int]);
                assert(data@.take(i + 1) =~= data@.take(i as int).push(data@[i as int]));
                assert((self@, kp_views(results@)) == feed_spec(old(self)@, data@.take(i + 1)));
            }
            i = i + 1;
        }
        proof {
            assert(data@.take(data@.len() as int) =~= data@);
        }
        results
    }

    /// Resolves what is still held, without waiting for more input: a lone
    /// escape becomes the escape key, and unmatched bytes fall out as
    /// characters.
    pub fn flush(&mut self) -> (r: Vec<KeyPress>)
        requires
            old(self).wf(),
        ensures
            final(self).wf(),
            ({
                let (st2, out) = flush_spec(old(self)@);
                &&& final(self)@ == st2
                &&& kp_views(r@) == out
            }),
    {
        let mut results: Vec<KeyPress> = Vec::new();
        proof {
            assert(kp_views(results@) =~= Seq::<KeyPressView>::empty());
        }
        self.resolve_into(true, &mut results);
        proof {
            assert(Seq::<KeyPressView>::empty() + flush_spec(old(self)@).1 =~= flush_spec(
                old(self)@,
            ).1);
        }
        results
    }
}

/// Feeding one more character is one more step.
pub proof fn lemma_feed_snoc(st: ParserState, s: Seq<char>, c: char)
    ensures
        feed_spec(st, s.push(c)) == ({
            let (s1, o1) = feed_spec(st, s);
            let (s2, o2) = step_spec(s1, c);
            (s2, o1 + o2)
        }),
    decreases s.len(),
{
    let ext = s.push(c);
    if s.len() == 0 {
        assert(ext[0] == c);
        assert(ext.drop_first() =~= Seq::<char>::empty());
        let (s2, o2) = step_spec(st, c);
        assert(feed_spec(s2, Seq::<char>::empty()) == (s2, Seq::<KeyPressView>::empty()));
        assert(o2 + Seq::<KeyPressView>::empty() =~= o2);
        assert(Seq::<KeyPressView>::empty() + o2 =~= o2);
    } else {
        assert(ext[0] == s[0]);
        assert(ext.drop_first() =~= s.drop_first().push(c));
        lemma_feed_snoc(step_spec(st, s[0]).0, s.drop_first(), c);
        let (s1a, o1a) = step_spec(st, s[0]);
        let (s1, o1) = feed_spec(s1a, s.drop_first());
        let (s2, o2) = step_spec(s1, c);
        assert(o1a + (o1 + o2) =~= (o1a + o1) + o2);
    }
}

/// The texts of a list of keypresses, concatenated in order.
pub open spec fn texts_of(out: Seq<KeyPressView>) -> Seq<char>
    decreases out.len(),
{
    if out.len() == 0 {
        Seq::empty()
    } else {
        out[0].text + texts_of(out.drop_first())
    }
}

/// The text of a single keypress list is that keypress's text.
proof fn lemma_texts_single(kpv: KeyPressView)
    ensures
        texts_of(seq![kpv]) == kpv.text,
{
    assert(seq![kpv].drop_first() =~= Seq::<KeyPressView>::empty());
    assert(texts_of(Seq::<KeyPressView>::empty()) == Seq::<char>::empty());
    assert(kpv.text + Seq::<char>::empty() =~= kpv.text);
    assert(texts_of(seq![kpv]) == kpv.text + texts_of(seq![kpv].drop_first()));
}

proof fn lemma_texts_concat(a: Seq<KeyPressView>, b: Seq<KeyPressView>)
    ensures
        texts_of(a + b) == texts_of(a) + texts_of(b),
    decreases a.len(),
{
    if a.len() == 0 {
        assert(a + b =~= b);
        assert(Seq::<char>::empty() + texts_of(b) =~= texts_of(b));
    } else {
        assert((a + b)[0] == a[0]);
        assert((a + b).drop_first() =~= a.drop_first() + b);
        lemma_texts_concat(a.drop_first(), b);
        assert(a[0].text + (texts_of(a.drop_first()) + texts_of(b)) =~= (a[0].text + texts_of(
            a.drop_first(),
        )) + texts_of(b));
    }
}

/// Keypresses after the first position carry no text.
proof fn lemma_emit_from_tail_texts(keys: Seq<Keys>, text: Seq<char>, i: int)
    requires
        i >= 1,
    ensures
        texts_of(emit_from(keys, text, i)) == Seq::<char>::empty(),
    decreases keys.len() - i,
{
    if i < 0 || i >= keys.len() {
    } else if keys[i] == Keys::BracketedPaste {
        lemma_emit_from_tail_texts(keys, text, i + 1);
    } else {
        lemma_emit_from_tail_texts(keys, text, i + 1);
        let kpv = KeyPressView { key: keys[i], text: Seq::empty() };
        assert(emit_from(keys, text, i) == seq![kpv] + emit_from(keys, text, i + 1));
        lemma_texts_concat(seq![kpv], emit_from(keys, text, i + 1));
        lemma_texts_single(kpv);
        assert(Seq::<char>::empty() + Seq::<char>::empty() =~= Seq::<char>::empty());
    }
}

/// A matched key list that does not open a paste hands the whole matched
/// text back out through its first keypress.
proof fn lemma_emit_out_texts(keys: Seq<Keys>, text: Seq<char>)
    requires
        keys.len() >= 1,
        !enters_paste(keys),
    ensures
        texts_of(emit_out(keys, text)) == text,
{
    assert(keys[0] != Keys::BracketedPaste);
    let kpv = KeyPressView { key: keys[0], text: text };
    assert(emit_out(keys, text) == seq![kpv] + emit_from(keys, text, 1));
    lemma_emit_from_tail_texts(keys, text, 1);
    lemma_texts_concat(seq![kpv], emit_from(keys, text, 1));
    lemma_texts_single(kpv);
    assert(text + Seq::<char>::empty() =~= text);
}

/// The resolution loop never leaves paste mode.
proof fn lemma_resolve_paste_monotone(st: ParserState, fl: bool)
    ensures
        st.in_paste ==> resolve(st, fl).0.in_paste,
    decreases st.prefix.len(),
{
    if st.prefix.len() == 0 {
    } else if !fl && is_prefix_match(st.prefix) {
    } else {
        match full_match(st.prefix) {
            Some(keys) => {},
            None => {
                let i = longest_fm_below(st.prefix, st.prefix.len() - 1);
                if 1 <= i && i < st.prefix.len() {
                    let keys = match full_match(st.prefix.take(i)) {
                        Some(k) => k,
                        None => seq![],
                    };
                    lemma_resolve_paste_monotone(emit_state(st, keys, st.prefix.skip(i)), false);
                } else {
                    lemma_resolve_paste_monotone(
                        ParserState { prefix: st.prefix.skip(1), ..st },
                        false,
                    );
                }
            },
        }
    }
}

/// The longest-match search answers either zero or a matching length.
proof fn lemma_longest_fm_props(s: Seq<char>, hi: int)
    ensures
        0 <= longest_fm_below(s, hi),
        hi >= 0 ==> longest_fm_below(s, hi) <= hi,
        longest_fm_below(s, hi) >= 1 ==> full_match(s.take(longest_fm_below(s, hi))) is Some,
    decreases hi,
{
    reveal(longest_fm_below);
    if hi <= 0 {
    } else if full_match(s.take(hi)) is Some {
    } else {
        lemma_longest_fm_props(s, hi - 1);
    }
}

/// Pure composition: a singleton keypress followed by a tail conserves
/// characters.
proof fn lemma_compose_char(c: char, rest: Seq<char>, out2: Seq<KeyPressView>, p2: Seq<char>)
    requires
        texts_of(out2) + p2 == rest,
    ensures
        texts_of(seq![KeyPressView { key: Keys::Character(c), text: seq![c] }] + out2) + p2
            == seq![c] + rest,
{
    let kpv = KeyPressView { key: Keys::Character(c), text: seq![c] };
    lemma_texts_concat(seq![kpv], out2);
    lemma_texts_single(kpv);
    assert((seq![c] + texts_of(out2)) + p2 =~= seq![c] + (texts_of(out2) + p2));
}

/// Pure composition: an emitted match followed by a tail conserves
/// characters.
proof fn lemma_compose_take(
    keys: Seq<Keys>,
    text: Seq<char>,
    rest: Seq<char>,
    out2: Seq<KeyPressView>,
    p2: Seq<char>,
)
    requires
        keys.len() >= 1,
        !enters_paste(keys),
        texts_of(out2) + p2 == rest,
    ensures
        texts_of(emit_out(keys, text) + out2) + p2 == text + rest,
{
    lemma_emit_out_texts(keys, text);
    lemma_texts_concat(emit_out(keys, text), out2);
    assert((text + texts_of(out2)) + p2 =~= text + (texts_of(out2) + p2));
}

/// Character conservation through the resolution loop: when no paste opens,
/// the texts that come out together with what stays held are exactly what
/// was held.
#[verifier::rlimit(100)]
#[verifier::spinoff_prover]
proof fn lemma_resolve_texts(st: ParserState, fl: bool)
    requires
        !st.in_paste,
        !resolve(st, fl).0.in_paste,
    ensures
        texts_of(resolve(st, fl).1) + resolve(st, fl).0.prefix == st.prefix,
    decreases st.prefix.len(),
{
    if st.prefix.len() == 0 {
        assert(texts_of(resolve(st, fl).1) + st.prefix =~= st.prefix);
    } else if !fl && is_prefix_match(st.prefix) {
        assert(texts_of(resolve(st, fl).1) + st.prefix =~= st.prefix);
    } else {
        match full_match(st.prefix) {
            Some(keys) => {
                crate::key_table::lemma_full_match_nonempty(st.prefix);
                assert(!enters_paste(keys));
                lemma_emit_out_texts(keys, st.prefix);
                assert(resolve(st, fl).1 == emit_out(keys, st.prefix));
                assert(resolve(st, fl).0.prefix =~= Seq::<char>::empty());
                assert(st.prefix + Seq::<char>::empty() =~= st.prefix);
            },
            None => {
                let i = longest_fm_below(st.prefix, st.prefix.len() - 1);
                lemma_longest_fm_props(st.prefix, st.prefix.len() - 1);
                if 1 <= i && i < st.prefix.len() {
                    let keys = match full_match(st.prefix.take(i)) {
                        Some(k) => k,
                        None => seq![],
                    };
                    assert(full_match(st.prefix.take(i)) == Some(keys));
                    let st1 = emit_state(st, keys, st.prefix.skip(i));
                    lemma_resolve_paste_monotone(st1, false);
                    assert(!st1.in_paste);
                    assert(!enters_paste(keys));
                    crate::key_table::lemma_full_match_nonempty(st.prefix.take(i));
                    lemma_resolve_texts(st1, false);
                    let (st2, out2) = resolve(st1, false);
                    lemma_compose_take(keys, st.prefix.take(i), st.prefix.skip(i), out2, st2.prefix);
                    assert(st.prefix.take(i) + st.prefix.skip(i) =~= st.prefix);
                    assert(resolve(st, fl).1 == emit_out(keys, st.prefix.take(i)) + out2);
                    assert(resolve(st, fl).0 == st2);
                } else {
                    let c = st.prefix[0];
                    let st1 = ParserState { prefix: st.prefix.skip(1), ..st };
                    lemma_resolve_paste_monotone(st1, false);
                    lemma_resolve_texts(st1, false);
                    let (st2, out2) = resolve(st1, false);
                    lemma_compose_char(c, st.prefix.skip(1), out2, st2.prefix);
                    assert(seq![c] + st.prefix.skip(1) =~= st.prefix);
                    assert(resolve(st, fl).1 == seq![
                        KeyPressView { key: Keys::Character(c), text: seq![c] },
                    ] + out2);
                    assert(resolve(st, fl).0 == st2);
                }
            },
        }
    }
}

/// Whether a run of input never has the parser inside a paste.
pub open spec fn paste_free_run(st: ParserState, input: Seq<char>) -> bool
    decreases input.len(),
{
    if input.len() == 0 {
        true
    } else {
        !step_spec(st, input[0]).0.in_paste && paste_free_run(
            step_spec(st, input[0]).0,
            input.drop_first(),
        )
    }
}

/// Feeding two strings one after the other is feeding their concatenation:
/// the same keypresses come out, and the same state is reached.
#[verifier::rlimit(100)]
pub proof fn lemma_feed_concat(st: ParserState, a: Seq<char>, b: Seq<char>)
    ensures
        feed_spec(st, a + b).0 == feed_spec(feed_spec(st, a).0, b).0,
        feed_spec(st, a + b).1 == feed_spec(st, a).1 + feed_spec(feed_spec(st, a).0, b).1,
    decreases a.len(),
{
    if a.len() == 0 {
        assert(a + b =~= b);
        assert(feed_spec(st, a).0 == st);
        assert(Seq::<KeyPressView>::empty() + feed_spec(st, b).1 =~= feed_spec(st, b).1);
    } else {
        let ext = a + b;
        assert(ext[0] == a[0]);
        assert(ext.drop_first() =~= a.drop_first() + b);
        let (s1, o1) = step_spec(st, a[0]);
        lemma_feed_concat(s1, a.drop_first(), b);
        let (sa, oa) = feed_spec(s1, a.drop_first());
        assert(o1 + (oa + feed_spec(sa, b).1) =~= (o1 + oa) + feed_spec(sa, b).1);
    }
}

/// All chunks of a partition, concatenated.
pub open spec fn concat_all(chunks: Seq<Seq<char>>) -> Seq<char>
    decreases chunks.len(),
{
    if chunks.len() == 0 {
        Seq::empty()
    } else {
        chunks[0] + concat_all(chunks.drop_first())
    }
}

/// The chunks of a partition fed one after the other.
pub open spec fn feed_all(st: ParserState, chunks: Seq<Seq<char>>) -> (ParserState, Seq<
    KeyPressView,
>)
    decreases chunks.len(),
{
    if chunks.len() == 0 {
        (st, seq![])
    } else {
        let (s1, o1) = feed_spec(st, chunks[0]);
        let (s2, o2) = feed_all(s1, chunks.drop_first());
        (s2, o1 + o2)
    }
}

/// Parser totality over partitions: feeding the chunks of any partition of
/// an input in order yields the same keypresses and the same final state -
/// and hence the same flush - as feeding the whole input at once.
#[verifier::rlimit(100)]
pub proof fn lemma_parser_chunk_invariance(st: ParserState, chunks: Seq<Seq<char>>)
    ensures
        feed_all(st, chunks).0 == feed_spec(st, concat_all(chunks)).0,
        feed_all(st, chunks).1 == feed_spec(st, concat_all(chunks)).1,
        flush_spec(feed_all(st, chunks).0) == flush_spec(feed_spec(st, concat_all(chunks)).0),
    decreases chunks.len(),
{
    if chunks.len() == 0 {
        assert(feed_spec(st, concat_all(chunks)).1 =~= Seq::<KeyPressView>::empty());
    } else {
        let (s1, o1) = feed_spec(st, chunks[0]);
        lemma_parser_chunk_invariance(s1, chunks.drop_first());
        lemma_feed_concat(st, chunks[0], concat_all(chunks.drop_first()));
    }
}

/// Text round trip: as long as no bracketed paste opens, the texts of the
/// keypresses produced by a feed and a flush, together with whatever prefix
/// the flush still holds, spell out exactly the bytes that went in.
#[verifier::rlimit(100)]
pub proof fn lemma_text_round_trip(st: ParserState, input: Seq<char>)
    requires
        !st.in_paste,
        paste_free_run(st, input),
        !flush_spec(feed_spec(st, input).0).0.in_paste,
    ensures
        ({
            let (st1, out1) = feed_spec(st, input);
            let (st2, out2) = flush_spec(st1);
            texts_of(out1 + out2) + st2.prefix == st.prefix + input
        }),
    decreases input.len(),
{
    let (st1, out1) = feed_spec(st, input);
    let (st2, out2) = flush_spec(st1);
    lemma_texts_concat(out1, out2);
    lemma_feed_texts(st, input);
    lemma_resolve_texts(st1, true);
    assert((texts_of(out1) + texts_of(out2)) + st2.prefix =~= texts_of(out1) + (texts_of(out2)
        + st2.prefix));
}

/// Character conservation through a paste-free feed.
#[verifier::rlimit(100)]
proof fn lemma_feed_texts(st: ParserState, input: Seq<char>)
    requires
        !st.in_paste,
        paste_free_run(st, input),
    ensures
        texts_of(feed_spec(st, input).1) + feed_spec(st, input).0.prefix == st.prefix + input,
        !feed_spec(st, input).0.in_paste,
    decreases input.len(),
{
    if input.len() == 0 {
        assert(texts_of(feed_spec(st, input).1) + st.prefix =~= st.prefix);
        assert(st.prefix + input =~= st.prefix);
    } else {
        let c = input[0];
        let (s1, o1) = step_spec(st, c);
        assert(!s1.in_paste);
        lemma_resolve_texts(ParserState { prefix: st.prefix.push(c), ..st }, false);
        assert(texts_of(o1) + s1.prefix == st.prefix.push(c));
        lemma_feed_texts(s1, input.drop_first());
        let (s2, o2) = feed_spec(s1, input.drop_first());
        lemma_texts_concat(o1, o2);
        assert((texts_of(o1) + texts_of(o2)) + s2.prefix =~= texts_of(o1) + (texts_of(o2)
            + s2.prefix));
        assert(texts_of(o1) + (s1.prefix + input.drop_first()) =~= (texts_of(o1) + s1.prefix)
            + input.drop_first());
        assert(st.prefix.push(c) + input.drop_first() =~= st.prefix + input);
    }
}

/// Paste atomicity: once a paste is open with nothing else pending, any
/// content followed by the end marker - however it is split into feeds, by
/// the chunk-invariance law - produces exactly one bracketed-paste
/// keypress whose text is the accumulated content.
#[verifier::rlimit(100)]
pub proof fn lemma_paste_atomicity(st: ParserState, x: Seq<char>)
    requires
        st.in_paste,
        x.len() >= 1,
        ends_with(st.paste + x, end_marker()),
        forall|i: int|
            0 <= i < (st.paste + x).len() - 6 ==> #[trigger] (st.paste + x).subrange(i, i + 6)
                != end_marker(),
    ensures
        ({
            let total = st.paste + x;
            feed_spec(st, x) == (
                ParserState { prefix: st.prefix, paste: Seq::<char>::empty(), in_paste: false },
                seq![
                    KeyPressView {
                        key: Keys::BracketedPaste,
                        text: total.take(total.len() - 6),
                    },
                ],
            )
        }),
    decreases x.len(),
{
    let total = st.paste + x;
    let c = x[0];
    let p2 = st.paste.push(c);
    reveal_strlit("\u{1b}[201~");
    assert(end_marker().len() == 6);
    if x.len() == 1 {
        assert(p2 =~= total);
        assert(ends_with(p2, end_marker()));
        let (s1, o1) = step_spec(st, c);
        assert(s1 == (ParserState {
            prefix: st.prefix,
            paste: Seq::<char>::empty(),
            in_paste: false,
        }));
        assert(o1 == seq![
            KeyPressView { key: Keys::BracketedPaste, text: total.take(total.len() - 6) },
        ]);
        assert(x.drop_first() =~= Seq::<char>::empty());
        assert(o1 + Seq::<KeyPressView>::empty() =~= o1);
        assert(feed_spec(s1, x.drop_first()) == (s1, Seq::<KeyPressView>::empty()));
        assert(feed_spec(st, x).0 == s1);
        assert(feed_spec(st, x).1 == o1);
    } else {
        assert(p2 =~= total.take(st.paste.len() as int + 1));
        assert(!ends_with(p2, end_marker())) by {
            if ends_with(p2, end_marker()) {
                let pos = p2.len() - 6;
                assert(total.subrange(pos, pos + 6) =~= p2.subrange(pos, p2.len() as int));
                assert(pos < total.len() - 6);
            }
        }
        let (s1, o1) = step_spec(st, c);
        assert(s1 == (ParserState { paste: p2, ..st }));
        assert(s1.paste + x.drop_first() =~= total);
        assert(s1.paste + x.drop_first() == st.paste + x);
        assert(forall|i: int|
            0 <= i < (s1.paste + x.drop_first()).len() - 6 ==> #[trigger] (s1.paste
                + x.drop_first()).subrange(i, i + 6) != end_marker());
        lemma_paste_atomicity(s1, x.drop_first());
        assert(Seq::<KeyPressView>::empty() + feed_spec(s1, x.drop_first()).1 =~= feed_spec(
            s1,
            x.drop_first(),
        ).1);
        assert(feed_spec(st, x).0 == feed_spec(s1, x.drop_first()).0);
        assert(feed_spec(st, x).1 == o1 + feed_spec(s1, x.drop_first()).1);
        assert(feed_spec(st, x).1 == feed_spec(s1, x.drop_first()).1);
        let t2 = s1.paste + x.drop_first();
        assert(t2.take(t2.len() - 6) == total.take(total.len() - 6));
    }
}

/// An input that never produces keys and reports itself closed.
pub struct DummyInput;

impl DummyInput {
    pub fn fileno(&self) -> (r: i32)
        ensures
            r == -1,
    {
        -1
    }

    pub fn typeahead_hash(&self) -> (r: String)
        ensures
            r@ == Seq::<char>::empty(),
    {
        String::new()
    }

    pub fn read_keys(&mut self) -> (r: Vec<KeyPress>)
        ensures
            r@.len() == 0,
    {
        Vec::new()
    }

    pub fn flush_keys(&mut self) -> (r: Vec<KeyPress>)
        ensures
            r@.len() == 0,
    {
        Vec::new()
    }

    pub fn closed(&self) -> (r: bool)
        ensures
            r == true,
    {
        true
    }
}

/// Feeding the bracketed-paste opener from a quiet state opens a paste and
/// emits nothing.
#[verifier::rlimit(100)]
pub proof fn lemma_paste_opening(st: ParserState)
    requires
        !st.in_paste,
        st.prefix.len() == 0,
    ensures
        feed_spec(st, "\x1b[200~"@) == (
            ParserState { prefix: Seq::<char>::empty(), paste: Seq::<char>::empty(), in_paste: true },
            Seq::<KeyPressView>::empty(),
        ),
{
    crate::key_table::lemma_paste_start_facts();
    reveal_strlit("\x1b[200~");
    reveal_strlit("\x1b");
    reveal_strlit("\x1b[");
    reveal_strlit("\x1b[2");
    reveal_strlit("\x1b[20");
    reveal_strlit("\x1b[200");
    let p = "\x1b[200~"@;
    assert(p.take(0) =~= st.prefix);
    assert(p.take(1) =~= "\x1b"@);
    assert(p.take(2) =~= "\x1b["@);
    assert(p.take(3) =~= "\x1b[2"@);
    assert(p.take(4) =~= "\x1b[20"@);
    assert(p.take(5) =~= "\x1b[200"@);
    assert(p.take(6) =~= p);

    let s0 = st;
    assert(feed_spec(st, p.take(0)) == (s0, Seq::<KeyPressView>::empty()));

    let s1 = ParserState { prefix: p.take(1), ..st };
    lemma_feed_snoc(st, p.take(0), p[0]);
    assert(p.take(0).push(p[0]) =~= p.take(1));
    assert(s0.prefix.push(p[0]) =~= p.take(1));
    assert(step_spec(s0, p[0]) == (s1, Seq::<KeyPressView>::empty()));
    assert(feed_spec(st, p.take(1)) == (s1, Seq::<KeyPressView>::empty())) by {
        assert(Seq::<KeyPressView>::empty() + Seq::<KeyPressView>::empty()
            =~= Seq::<KeyPressView>::empty());
    }

    let s2 = ParserState { prefix: p.take(2), ..st };
    lemma_feed_snoc(st, p.take(1), p[1]);
    assert(p.take(1).push(p[1]) =~= p.take(2));
    assert(step_spec(s1, p[1]) == (s2, Seq::<KeyPressView>::empty()));
    assert(feed_spec(st, p.take(2)) == (s2, Seq::<KeyPressView>::empty())) by {
        assert(Seq::<KeyPressView>::empty() + Seq::<KeyPressView>::empty()
            =~= Seq::<KeyPressView>::empty());
    }

    let s3 = ParserState { prefix: p.take(3), ..st };
    lemma_feed_snoc(st, p.take(2), p[2]);
    assert(p.take(2).push(p[2]) =~= p.take(3));
    assert(step_spec(s2, p[2]) == (s3, Seq::<KeyPressView>::empty()));
    assert(feed_spec(st, p.take(3)) == (s3, Seq::<KeyPressView>::empty())) by {
        assert(Seq::<KeyPressView>::empty() + Seq::<KeyPressView>::empty()
            =~= Seq::<KeyPressView>::empty());
    }

    let s4 = ParserState { prefix: p.take(4), ..st };
    lemma_feed_snoc(st, p.take(3), p[3]);
    assert(p.take(3).push(p[3]) =~= p.take(4));
    assert(step_spec(s3, p[3]) == (s4, Seq::<KeyPressView>::empty()));
    assert(feed_spec(st, p.take(4)) == (s4, Seq::<KeyPressView>::empty())) by {
        assert(Seq::<KeyPressView>::empty() + Seq::<KeyPressView>::empty()
            =~= Seq::<KeyPressView>::empty());
    }

    let s5 = ParserState { prefix: p.take(5), ..st };
    lemma_feed_snoc(st, p.take(4), p[4]);
    assert(p.take(4).push(p[4]) =~= p.take(5));
    assert(step_spec(s4, p[4]) == (s5, Seq::<KeyPressView>::empty()));
    assert(feed_spec(st, p.take(5)) == (s5, Seq::<KeyPressView>::empty())) by {
        assert(Seq::<KeyPressView>::empty() + Seq::<KeyPressView>::empty()
            =~= Seq::<KeyPressView>::empty());
    }

    let s6 = ParserState {
        prefix: Seq::<char>::empty(),
        paste: Seq::<char>::empty(),
        in_paste: true,
    };
    lemma_feed_snoc(st, p.take(5), p[5]);
    assert(p.take(5).push(p[5]) =~= p.take(6));
    let ks = seq![Keys::BracketedPaste];
    assert(full_match(p.take(6)) == Some(ks)) by {
        assert(p.take(6) =~= p);
    }
    assert(enters_paste(ks)) by {
        assert(ks[0] == Keys::BracketedPaste);
    }
    assert(emit_out(ks, p.take(6)) =~= Seq::<KeyPressView>::empty()) by {
        assert(emit_from(ks, p.take(6), 0) == emit_from(ks, p.take(6), 1));
        assert(emit_from(ks, p.take(6), 1) =~= Seq::<KeyPressView>::empty());
    }
    assert(!is_prefix_match(p.take(6))) by {
        assert(p.take(6) =~= p);
    }
    assert(step_spec(s5, p[5]) == (s6, Seq::<KeyPressView>::empty())) by {
        assert(emit_state(s5, ks, Seq::<char>::empty()) == s6);
    }
    assert(feed_spec(st, p.take(6)) == (s6, Seq::<KeyPressView>::empty())) by {
        assert(Seq::<KeyPressView>::empty() + Seq::<KeyPressView>::empty()
            =~= Seq::<KeyPressView>::empty());
    }
    assert(feed_spec(st, p) == (s6, Seq::<KeyPressView>::empty()));
}

/// Paste atomicity, end to end: from a quiet state, the opener, any content
/// without the end marker, and the end marker produce exactly one
/// bracketed-paste keypress carrying exactly that content - and by chunk
/// invariance, however the input is split across feeds.
#[verifier::rlimit(100)]
pub proof fn lemma_paste_round_trip(st: ParserState, x: Seq<char>)
    requires
        !st.in_paste,
        st.prefix.len() == 0,
        forall|i: int|
            0 <= i < (x + end_marker()).len() - 6 ==> #[trigger] (x + end_marker()).subrange(
                i,
                i + 6,
            ) != end_marker(),
    ensures
        feed_spec(st, "\x1b[200~"@ + x + end_marker()) == (
            ParserState {
                prefix: Seq::<char>::empty(),
                paste: Seq::<char>::empty(),
                in_paste: false,
            },
            seq![KeyPressView { key: Keys::BracketedPaste, text: x }],
        ),
{
    reveal_strlit("\x1b[200~");
    reveal_strlit("\x1b[201~");
    assert(end_marker().len() == 6);
    lemma_paste_opening(st);
    let opener = "\x1b[200~"@;
    let rest = x + end_marker();
    lemma_feed_concat(st, opener, rest);
    assert(opener + x + end_marker() =~= opener + rest);
    let st_open = ParserState {
        prefix: Seq::<char>::empty(),
        paste: Seq::<char>::empty(),
        in_paste: true,
    };
    assert(feed_spec(st, opener).0 == st_open);
    assert(st_open.paste + rest =~= rest);
    assert(rest.len() >= 6);
    assert(ends_with(st_open.paste + rest, end_marker())) by {
        assert((st_open.paste + rest).subrange(rest.len() - 6, rest.len() as int) =~= end_marker());
    }
    assert(forall|i: int|
        0 <= i < (st_open.paste + rest).len() - 6 ==> #[trigger] (st_open.paste + rest).subrange(
            i,
            i + 6,
        ) != end_marker());
    lemma_paste_atomicity(st_open, rest);
    let total = st_open.paste + rest;
    assert(total.take(total.len() - 6) =~= x);
    assert(feed_spec(st, opener + rest).1 == feed_spec(st, opener).1 + feed_spec(st_open, rest).1);
    assert(Seq::<KeyPressView>::empty() + seq![
        KeyPressView { key: Keys::BracketedPaste, text: total.take(total.len() - 6) },
    ] =~= seq![KeyPressView { key: Keys::BracketedPaste, text: x }]);
}

/// The exact text round trip: from a fresh parser, when the flush leaves
/// nothing held, the texts of the produced keypresses spell out the input
/// byte for byte.
pub proof fn lemma_text_round_trip_exact(st: ParserState, input: Seq<char>)
    requires
        !st.in_paste,
        st.prefix.len() == 0,
        paste_free_run(st, input),
        !flush_spec(feed_spec(st, input).0).0.in_paste,
        flush_spec(feed_spec(st, input).0).0.prefix.len() == 0,
    ensures
        texts_of(feed_spec(st, input).1 + flush_spec(feed_spec(st, input).0).1) == input,
{
    lemma_text_round_trip(st, input);
    let (st1, out1) = feed_spec(st, input);
    let (st2, out2) = flush_spec(st1);
    assert(texts_of(out1 + out2) + st2.prefix =~= texts_of(out1 + out2));
    assert(st.prefix + input =~= input);
}

/// Paste atomicity after arbitrary leading input: provided the leading
/// input left the parser quiet, the opener, the content and the end marker
/// add exactly one bracketed-paste keypress to whatever the leading input
/// produced.
pub proof fn lemma_paste_round_trip_after(st: ParserState, a: Seq<char>, x: Seq<char>)
    requires
        feed_spec(st, a).0.prefix.len() == 0,
        !feed_spec(st, a).0.in_paste,
        forall|i: int|
            0 <= i < (x + end_marker()).len() - 6 ==> #[trigger] (x + end_marker()).subrange(
                i,
                i + 6,
            ) != end_marker(),
    ensures
        ({
            let tail = "\x1b[200~"@ + x + end_marker();
            &&& feed_spec(st, a + tail).1 == feed_spec(st, a).1 + seq![
                KeyPressView { key: Keys::BracketedPaste, text: x },
            ]
            &&& feed_spec(st, a + tail).0 == (ParserState {
                prefix: Seq::<char>::empty(),
                paste: Seq::<char>::empty(),
                in_paste: false,
            })
        }),
{
    let tail = "\x1b[200~"@ + x + end_marker();
    lemma_feed_concat(st, a, tail);
    lemma_paste_round_trip(feed_spec(st, a).0, x);
}

} // verus!
