use vstd::prelude::*;

use crate::color::{parse_color, Color};
use crate::util::{chars_to_string, occurs, str_chars};

verus! {

/// One tri-state style flag: set, cleared, or deferred to the next element
/// of a merge chain.
#[derive(Debug, Clone, Copy, PartialEq, Eq, Structural, Hash)]
pub enum AttrSetting {
    Enabled,
    Disabled,
    Automatic,
}

impl Default for AttrSetting {
    fn default() -> (r: Self)
        ensures
            r == AttrSetting::Automatic,
    {
        AttrSetting::Automatic
    }
}

/// How two settings combine: the left one wins unless it defers.
pub open spec fn setting_merge(a: AttrSetting, b: AttrSetting) -> AttrSetting {
    if a == AttrSetting::Automatic {
        b
    } else {
        a
    }
}

impl AttrSetting {
    pub fn merge(self, other: Self) -> (r: Self)
        ensures
            r == setting_merge(self, other),
    {
        if self == AttrSetting::Automatic {
            other
        } else {
            self
        }
    }

    pub fn is_on(self) -> (r: bool)
        ensures
            r == (self == AttrSetting::Enabled),
    {
        match self {
            AttrSetting::Enabled => true,
            _ => false,
        }
    }
}

/// An attribute record: optional foreground and background colors and seven
/// tri-state flags.
#[derive(Debug, Clone, Copy, PartialEq, Eq, Structural, Hash)]
pub struct Attrs {
    pub color: Option<Color>,
    pub background_color: Option<Color>,
    pub bold: AttrSetting,
    pub underline: AttrSetting,
    pub strike: AttrSetting,
    pub italic: AttrSetting,
    pub blink: AttrSetting,
    pub reverse: AttrSetting,
    pub hidden: AttrSetting,
}

/// The record with nothing decided: no colors, every flag deferred.
pub open spec fn attrs_empty() -> Attrs {
    Attrs {
        color: None,
        background_color: None,
        bold: AttrSetting::Automatic,
        underline: AttrSetting::Automatic,
        strike: AttrSetting::Automatic,
        italic: AttrSetting::Automatic,
        blink: AttrSetting::Automatic,
        reverse: AttrSetting::Automatic,
        hidden: AttrSetting::Automatic,
    }
}

/// The root defaults of a merge chain: default colors, every flag cleared.
pub open spec fn attrs_default() -> Attrs {
    Attrs {
        color: Some(Color::Default),
        background_color: Some(Color::Default),
        bold: AttrSetting::Disabled,
        underline: AttrSetting::Disabled,
        strike: AttrSetting::Disabled,
        italic: AttrSetting::Disabled,
        blink: AttrSetting::Disabled,
        reverse: AttrSetting::Disabled,
        hidden: AttrSetting::Disabled,
    }
}

/// Folds one chain element into the accumulator: colors keep the first
/// `Some` seen, flags keep the first decided value.
pub open spec fn attrs_combine(acc: Attrs, attr: Attrs) -> Attrs {
    Attrs {
        color: if acc.color is None {
            attr.color
        } else {
            acc.color
        },
        background_color: if acc.background_color is None {
            attr.background_color
        } else {
            acc.background_color
        },
        bold: setting_merge(acc.bold, attr.bold),
        underline: setting_merge(acc.underline, attr.underline),
        strike: setting_merge(acc.strike, attr.strike),
        italic: setting_merge(acc.italic, attr.italic),
        blink: setting_merge(acc.blink, attr.blink),
        reverse: setting_merge(acc.reverse, attr.reverse),
        hidden: setting_merge(acc.hidden, attr.hidden),
    }
}

/// Folds a chain right to left into the accumulator.
pub open spec fn merge_fold(list: Seq<Attrs>, acc: Attrs) -> Attrs
    decreases list.len(),
{
    if list.len() == 0 {
        acc
    } else {
        merge_fold(list.drop_last(), attrs_combine(acc, list.last()))
    }
}

/// What merging a chain returns: the chain folded right to left on top of
/// the empty record, with the root defaults prepended.
pub open spec fn attrs_merge(list: Seq<Attrs>) -> Attrs {
    merge_fold(seq![attrs_default()] + list, attrs_empty())
}

impl Attrs {
    /// Merges a chain of attribute records.  Later elements win for decided
    /// flags; earlier deferrals fall through; a prepended default supplies
    /// fallbacks.
    pub fn merge(attrs: &[Self]) -> (r: Self)
        ensures
            r == attrs_merge(attrs@),
    {
        let mut chain: Vec<Attrs> = Vec::new();
        chain.push(Attrs::default());
        let mut i: usize = 0;
        while i < attrs.len()
            invariant
                i <= attrs@.len(),
                chain@ == seq![attrs_default()] + attrs@.take(i as int),
            decreases attrs@.len() - i,
        {
            chain.push(attrs[i]);
            proof {
                assert(seq![attrs_default()] + attrs@.take(i + 1) =~= (seq![attrs_default()]
                    + attrs@.take(i as int)).push(attrs@[i as int]));
            }
            i = i + 1;
        }
        proof {
            assert(attrs@.take(attrs@.len() as int) =~= attrs@);
        }

        let ghost full = chain@;
        let mut acc = Attrs::empty();
        let mut k: usize = chain.len();
        proof {
            assert(full.take(k as int) =~= full);
        }
        while k > 0
            invariant
                k <= full.len(),
                chain@ == full,
                merge_fold(full.take(k as int), acc) == merge_fold(full, attrs_empty()),
            decreases k,
        {
            k = k - 1;
            let elem = chain[k];
            proof {
                assert(full.take(k + 1).drop_last() =~= full.take(k as int));
                assert(full.take(k + 1).last() == full[k as int]);
            }
            acc = Attrs {
                color: if acc.color.is_none() {
                    elem.color
                } else {
                    acc.color
                },
                background_color: if acc.background_color.is_none() {
                    elem.background_color
                } else {
                    acc.background_color
                },
                bold: acc.bold.merge(elem.bold),
                underline: acc.underline.merge(elem.underline),
                strike: acc.strike.merge(elem.strike),
                italic: acc.italic.merge(elem.italic),
                blink: acc.blink.merge(elem.blink),
                reverse: acc.reverse.merge(elem.reverse),
                hidden: acc.hidden.merge(elem.hidden),
            };
        }
        proof {
            assert(full.take(0) =~= Seq::<Attrs>::empty());
        }
        acc
    }

    /// The record with nothing decided.
    pub fn empty() -> (r: Self)
        ensures
            r == attrs_empty(),
    {
        Self {
            color: None,
            background_color: None,
            bold: AttrSetting::Automatic,
            underline: AttrSetting::Automatic,
            strike: AttrSetting::Automatic,
            italic: AttrSetting::Automatic,
            blink: AttrSetting::Automatic,
            reverse: AttrSetting::Automatic,
            hidden: AttrSetting::Automatic,
        }
    }
}

impl Default for Attrs {
    fn default() -> (r: Self)
        ensures
            r == attrs_default(),
    {
        Self {
            color: Some(Color::Default),
            background_color: Some(Color::Default),
            bold: AttrSetting::Disabled,
            underline: AttrSetting::Disabled,
            strike: AttrSetting::Disabled,
            italic: AttrSetting::Disabled,
            blink: AttrSetting::Disabled,
            reverse: AttrSetting::Disabled,
            hidden: AttrSetting::Disabled,
        }
    }
}

/// The Unicode whitespace characters, as style-string token separators.
pub open spec fn is_space(c: char) -> bool {
    ||| c as int == 0x09
    ||| c as int == 0x0a
    ||| c as int == 0x0b
    ||| c as int == 0x0c
    ||| c as int == 0x0d
    ||| c as int == 0x20
    ||| c as int == 0x85
    ||| c as int == 0xa0
    ||| c as int == 0x1680
    ||| (0x2000 <= c as int && c as int <= 0x200a)
    ||| c as int == 0x2028
    ||| c as int == 0x2029
    ||| c as int == 0x202f
    ||| c as int == 0x205f
    ||| c as int == 0x3000
}

/// Whether one character is a Unicode whitespace separator.
pub fn is_space_char(c: char) -> (r: bool)
    ensures
        r == is_space(c),
{
    let v = c as u32;
    (v >= 0x09 && v <= 0x0d) || v == 0x20 || v == 0x85 || v == 0xa0 || v == 0x1680 || (v >= 0x2000
        && v <= 0x200a) || v == 0x2028 || v == 0x2029 || v == 0x202f || v == 0x205f || v == 0x3000
}

/// The whitespace-delimited tokens of `s`, given the token accumulated so
/// far.
pub open spec fn split_ws_acc(s: Seq<char>, cur: Seq<char>) -> Seq<Seq<char>>
    decreases s.len(),
{
    if s.len() == 0 {
        if cur.len() == 0 {
            seq![]
        } else {
            seq![cur]
        }
    } else if is_space(s[0]) {
        if cur.len() == 0 {
            split_ws_acc(s.drop_first(), seq![])
        } else {
            seq![cur] + split_ws_acc(s.drop_first(), seq![])
        }
    } else {
        split_ws_acc(s.drop_first(), cur.push(s[0]))
    }
}

/// The whitespace-delimited tokens of `s`.
pub open spec fn split_ws(s: Seq<char>) -> Seq<Seq<char>> {
    split_ws_acc(s, seq![])
}

/// The effect of one style token on an attribute record: flag words set or
/// clear their flag, `fg:`/`bg:` set a color when their spelling parses,
/// and anything else is ignored.
pub open spec fn apply_token(a: Attrs, t: Seq<char>) -> Attrs {
    if t == "bold"@ {
        Attrs { bold: AttrSetting::Enabled, ..a }
    } else if t == "nobold"@ {
        Attrs { bold: AttrSetting::Disabled, ..a }
    } else if t == "italic"@ {
        Attrs { italic: AttrSetting::Enabled, ..a }
    } else if t == "noitalic"@ {
        Attrs { italic: AttrSetting::Disabled, ..a }
    } else if t == "underline"@ {
        Attrs { underline: AttrSetting::Enabled, ..a }
    } else if t == "nounderline"@ {
        Attrs { underline: AttrSetting::Disabled, ..a }
    } else if t == "strike"@ {
        Attrs { strike: AttrSetting::Enabled, ..a }
    } else if t == "nostrike"@ {
        Attrs { strike: AttrSetting::Disabled, ..a }
    } else if t == "blink"@ {
        Attrs { blink: AttrSetting::Enabled, ..a }
    } else if t == "noblink"@ {
        Attrs { blink: AttrSetting::Disabled, ..a }
    } else if t == "reverse"@ {
        Attrs { reverse: AttrSetting::Enabled, ..a }
    } else if t == "noreverse"@ {
        Attrs { reverse: AttrSetting::Disabled, ..a }
    } else if t == "hidden"@ {
        Attrs { hidden: AttrSetting::Enabled, ..a }
    } else if t == "nohidden"@ {
        Attrs { hidden: AttrSetting::Disabled, ..a }
    } else if t.len() >= 3 && t.subrange(0, 3) == "bg:"@ {
        match parse_color(t.skip(3)) {
            Some(c) => Attrs { background_color: Some(c), ..a },
            None => a,
        }
    } else if t.len() >= 3 && t.subrange(0, 3) == "fg:"@ {
        match parse_color(t.skip(3)) {
            Some(c) => Attrs { color: Some(c), ..a },
            None => a,
        }
    } else {
        a
    }
}

/// The effect of a token list, applied left to right.
pub open spec fn apply_tokens(a: Attrs, ts: Seq<Seq<char>>) -> Attrs
    decreases ts.len(),
{
    if ts.len() == 0 {
        a
    } else {
        apply_tokens(apply_token(a, ts[0]), ts.drop_first())
    }
}

/// What a whole style string resolves to: tokens applied over the empty
/// record, or over the root defaults when the string mentions `noinherit`.
pub open spec fn style_string_attrs(s: Seq<char>) -> Attrs {
    let base = if occurs(s, "noinherit"@) {
        attrs_default()
    } else {
        attrs_empty()
    };
    apply_tokens(base, split_ws(s))
}

/// Applies one style token to an attribute record.
#[verifier::rlimit(100)]
pub fn apply_token_exec(a: Attrs, t: &Vec<char>) -> (r: Attrs)
    ensures
        r == apply_token(a, t@),
{
    proof {
        reveal_strlit("bg:");
        reveal_strlit("fg:");
    }
    let ts = chars_to_string(t);
    let s = ts.as_str();
    let mut out = a;
    if crate::util::str_eq(s, "bold") {
        out.bold = AttrSetting::Enabled;
    } else if crate::util::str_eq(s, "nobold") {
        out.bold = AttrSetting::Disabled;
    } else if crate::util::str_eq(s, "italic") {
        out.italic = AttrSetting::Enabled;
    } else if crate::util::str_eq(s, "noitalic") {
        out.italic = AttrSetting::Disabled;
    } else if crate::util::str_eq(s, "underline") {
        out.underline = AttrSetting::Enabled;
    } else if crate::util::str_eq(s, "nounderline") {
        out.underline = AttrSetting::Disabled;
    } else if crate::util::str_eq(s, "strike") {
        out.strike = AttrSetting::Enabled;
    } else if crate::util::str_eq(s, "nostrike") {
        out.strike = AttrSetting::Disabled;
    } else if crate::util::str_eq(s, "blink") {
        out.blink = AttrSetting::Enabled;
    } else if crate::util::str_eq(s, "noblink") {
        out.blink = AttrSetting::Disabled;
    } else if crate::util::str_eq(s, "reverse") {
        out.reverse = AttrSetting::Enabled;
    } else if crate::util::str_eq(s, "noreverse") {
        out.reverse = AttrSetting::Disabled;
    } else if crate::util::str_eq(s, "hidden") {
        out.hidden = AttrSetting::Enabled;
    } else if crate::util::str_eq(s, "nohidden") {
        out.hidden = AttrSetting::Disabled;
    } else if t.len() >= 3 && t[0] == 'b' && t[1] == 'g' && t[2] == ':' {
        proof {
            reveal_strlit("bg:");
            assert(t@.subrange(0, 3) =~= "bg:"@);
        }
        let mut rest: Vec<char> = Vec::new();
        let mut i: usize = 3;
        while i < t.len()
            invariant
                3 <= i <= t@.len(),
                rest@ == t@.subrange(3, i as int),
            decreases t@.len() - i,
        {
            rest.push(t[i]);
            proof {
                assert(t@.subrange(3, i + 1) =~= t@.subrange(3, i as int).push(t@[i as int]));
            }
            i = i + 1;
        }
        proof {
            assert(t@.subrange(3, t@.len() as int) =~= t@.skip(3));
        }
        let rs = chars_to_string(&rest);
        if let Some(c) = crate::color::Color::parse(rs.as_str()) {
            out.background_color = Some(c);
        }
    } else if t.len() >= 3 && t[0] == 'f' && t[1] == 'g' && t[2] == ':' {
        proof {
            reveal_strlit("fg:");
            reveal_strlit("bg:");
            assert(t@.subrange(0, 3) =~= "fg:"@);
            assert(t@.subrange(0, 3) != "bg:"@) by {
                assert(t@.subrange(0, 3)[0] == 'f');
                assert("bg:"@[0] == 'b');
            }
        }
        let mut rest: Vec<char> = Vec::new();
        let mut i: usize = 3;
        while i < t.len()
            invariant
                3 <= i <= t@.len(),
                rest@ == t@.subrange(3, i as int),
            decreases t@.len() - i,
        {
            rest.push(t[i]);
            proof {
                assert(t@.subrange(3, i + 1) =~= t@.subrange(3, i as int).push(t@[i as int]));
            }
            i = i + 1;
        }
        proof {
            assert(t@.subrange(3, t@.len() as int) =~= t@.skip(3));
        }
        let rs = chars_to_string(&rest);
        proof {
            assert(rs@ == t@.skip(3));
        }
        if let Some(c) = crate::color::Color::parse(rs.as_str()) {
            out.color = Some(c);
            proof {
                assert(parse_color(t@.skip(3)) == Some(c));
                assert(apply_token(a, t@) == Attrs { color: Some(c), ..a });
            }
        } else {
            proof {
                assert(parse_color(t@.skip(3)) is None);
                assert(apply_token(a, t@) == a);
            }
        }
    } else {
        proof {
            if t@.len() >= 3 {
                assert(t@.subrange(0, 3)[0] == t@[0]);
                assert(t@.subrange(0, 3)[1] == t@[1]);
                assert(t@.subrange(0, 3)[2] == t@[2]);
            }
            assert(apply_token(a, t@) == a);
        }
    }
    out
}

impl Attrs {
    /// Resolves a whole style string to an attribute record.
    #[verifier::rlimit(100)]
    pub fn from_style_string(style: &str) -> (r: Self)
        ensures
            r == style_string_attrs(style@),
    {
        let cv = str_chars(style);
        let needle = str_chars("noinherit");
        proof {
            reveal_strlit("noinherit");
        }
        let mut attr = if crate::util::find_sub(&cv, &needle).is_some() {
            Attrs::default()
        } else {
            Attrs::empty()
        };

        let mut cur: Vec<char> = Vec::new();
        let mut i: usize = 0;
        proof {
            assert(style@.skip(0) =~= style@);
            assert(cur@ =~= Seq::<char>::empty());
        }
        while i < cv.len()
            invariant
                i <= cv@.len(),
                cv@ == style@,
                apply_tokens(attr, split_ws_acc(style@.skip(i as int), cur@)) == style_string_attrs(
                    style@,
                ),
            decreases cv@.len() - i,
        {
            let c = cv[i];
            let ghost rest = style@.skip(i as int);
            proof {
                assert(rest[0] == style@[i as int]);
                assert(rest.drop_first() =~= style@.skip(i + 1));
            }
            if is_space_char(c) {
                if cur.len() > 0 {
                    proof {
                        assert(split_ws_acc(rest, cur@) == seq![cur@] + split_ws_acc(
                            rest.drop_first(),
                            Seq::<char>::empty(),
                        ));
                        assert((seq![cur@] + split_ws_acc(rest.drop_first(), Seq::<
                            char,
                        >::empty()))[0] == cur@);
                        assert((seq![cur@] + split_ws_acc(rest.drop_first(), Seq::<
                            char,
                        >::empty())).drop_first() =~= split_ws_acc(
                            rest.drop_first(),
                            Seq::<char>::empty(),
                        ));
                    }
                    attr = apply_token_exec(attr, &cur);
                    cur = Vec::new();
                    proof {
                        assert(cur@ =~= Seq::<char>::empty());
                    }
                } else {
                    proof {
                        assert(cur@ =~= Seq::<char>::empty());
                    }
                }
            } else {
                cur.push(c);
            }
            i = i + 1;
        }
        proof {
            assert(style@.skip(i as int) =~= Seq::<char>::empty());
            assert(split_ws_acc(style@.skip(i as int), cur@) == split_ws_acc(
                Seq::<char>::empty(),
                cur@,
            ));
        }
        if cur.len() > 0 {
            proof {
                assert(split_ws_acc(Seq::<char>::empty(), cur@) == seq![cur@]);
                assert(seq![cur@][0] == cur@);
                assert(seq![cur@].drop_first() =~= Seq::<Seq<char>>::empty());
                assert(apply_tokens(apply_token(attr, cur@), Seq::<Seq<char>>::empty())
                    == apply_token(attr, cur@));
            }
            attr = apply_token_exec(attr, &cur);
        } else {
            proof {
                assert(cur@.len() == 0);
                assert(split_ws_acc(Seq::<char>::empty(), cur@) =~= Seq::<Seq<char>>::empty());
                assert(apply_tokens(attr, Seq::<Seq<char>>::empty()) == attr);
            }
        }
        attr
    }
}

/// The color a chain decides: the last `Some` in chain order, if any.
pub open spec fn last_some_color(list: Seq<Attrs>) -> Option<Color>
    decreases list.len(),
{
    if list.len() == 0 {
        None
    } else if list.last().color is Some {
        list.last().color
    } else {
        last_some_color(list.drop_last())
    }
}

/// The background color a chain decides: the last `Some` in chain order.
pub open spec fn last_some_background(list: Seq<Attrs>) -> Option<Color>
    decreases list.len(),
{
    if list.len() == 0 {
        None
    } else if list.last().background_color is Some {
        list.last().background_color
    } else {
        last_some_background(list.drop_last())
    }
}

/// The setting a flag field folds to: the last decided value in chain
/// order, or deferred when the whole chain defers.
pub open spec fn last_decided(list: Seq<Attrs>, f: spec_fn(Attrs) -> AttrSetting) -> AttrSetting
    decreases list.len(),
{
    if list.len() == 0 {
        AttrSetting::Automatic
    } else if f(list.last()) != AttrSetting::Automatic {
        f(list.last())
    } else {
        last_decided(list.drop_last(), f)
    }
}

proof fn lemma_fold_colors(list: Seq<Attrs>, acc: Attrs)
    ensures
        merge_fold(list, acc).color == if acc.color is Some {
            acc.color
        } else {
            last_some_color(list)
        },
        merge_fold(list, acc).background_color == if acc.background_color is Some {
            acc.background_color
        } else {
            last_some_background(list)
        },
    decreases list.len(),
{
    if list.len() == 0 {
    } else {
        lemma_fold_colors(list.drop_last(), attrs_combine(acc, list.last()));
    }
}

proof fn lemma_fold_flag(list: Seq<Attrs>, acc: Attrs, f: spec_fn(Attrs) -> AttrSetting)
    requires
        forall|a: Attrs, b: Attrs| #[trigger] f(attrs_combine(a, b)) == setting_merge(f(a), f(b)),
    ensures
        f(merge_fold(list, acc)) == if f(acc) != AttrSetting::Automatic {
            f(acc)
        } else {
            last_decided(list, f)
        },
    decreases list.len(),
{
    if list.len() == 0 {
    } else {
        lemma_fold_flag(list.drop_last(), attrs_combine(acc, list.last()), f);
    }
}

proof fn lemma_last_some_prepend(v: Seq<Attrs>, d: Attrs)
    requires
        d.color is Some,
        d.background_color is Some,
    ensures
        last_some_color(seq![d] + v) == (match last_some_color(v) {
            Some(c) => Some(c),
            None => d.color,
        }),
        last_some_background(seq![d] + v) == (match last_some_background(v) {
            Some(c) => Some(c),
            None => d.background_color,
        }),
    decreases v.len(),
{
    let c = seq![d] + v;
    if v.len() == 0 {
        assert(c =~= seq![d]);
        assert(seq![d].last() == d);
        assert(seq![d].drop_last() =~= Seq::<Attrs>::empty());
    } else {
        assert(c.last() == v.last());
        assert(c.drop_last() =~= seq![d] + v.drop_last());
        lemma_last_some_prepend(v.drop_last(), d);
    }
}

proof fn lemma_last_decided_prepend(v: Seq<Attrs>, d: Attrs, f: spec_fn(Attrs) -> AttrSetting)
    requires
        f(d) != AttrSetting::Automatic,
    ensures
        last_decided(seq![d] + v, f) != AttrSetting::Automatic,
    decreases v.len(),
{
    let c = seq![d] + v;
    if v.len() == 0 {
        assert(c =~= seq![d]);
        assert(seq![d].last() == d);
    } else {
        assert(c.last() == v.last());
        assert(c.drop_last() =~= seq![d] + v.drop_last());
        lemma_last_decided_prepend(v.drop_last(), d, f);
    }
}

/// The merge laws over a whole chain: each color field takes the last
/// `Some` in chain order, falling back to the chain default, and no field
/// of the result is left deferred.
pub proof fn lemma_merge_colors_and_flags(v: Seq<Attrs>)
    ensures
        attrs_merge(v).color == (match last_some_color(v) {
            Some(c) => Some(c),
            None => Some(Color::Default),
        }),
        attrs_merge(v).background_color == (match last_some_background(v) {
            Some(c) => Some(c),
            None => Some(Color::Default),
        }),
        attrs_merge(v).bold != AttrSetting::Automatic,
        attrs_merge(v).underline != AttrSetting::Automatic,
        attrs_merge(v).strike != AttrSetting::Automatic,
        attrs_merge(v).italic != AttrSetting::Automatic,
        attrs_merge(v).blink != AttrSetting::Automatic,
        attrs_merge(v).reverse != AttrSetting::Automatic,
        attrs_merge(v).hidden != AttrSetting::Automatic,
{
    let chain = seq![attrs_default()] + v;
    lemma_fold_colors(chain, attrs_empty());
    lemma_last_some_prepend(v, attrs_default());

    let fbold: spec_fn(Attrs) -> AttrSetting = |a: Attrs| a.bold;
    lemma_fold_flag(chain, attrs_empty(), fbold);
    lemma_last_decided_prepend(v, attrs_default(), fbold);
    assert(attrs_merge(v).bold == last_decided(chain, fbold));

    let funderline: spec_fn(Attrs) -> AttrSetting = |a: Attrs| a.underline;
    lemma_fold_flag(chain, attrs_empty(), funderline);
    lemma_last_decided_prepend(v, attrs_default(), funderline);
    assert(attrs_merge(v).underline == last_decided(chain, funderline));

    let fstrike: spec_fn(Attrs) -> AttrSetting = |a: Attrs| a.strike;
    lemma_fold_flag(chain, attrs_empty(), fstrike);
    lemma_last_decided_prepend(v, attrs_default(), fstrike);
    assert(attrs_merge(v).strike == last_decided(chain, fstrike));

    let fitalic: spec_fn(Attrs) -> AttrSetting = |a: Attrs| a.italic;
    lemma_fold_flag(chain, attrs_empty(), fitalic);
    lemma_last_decided_prepend(v, attrs_default(), fitalic);
    assert(attrs_merge(v).italic == last_decided(chain, fitalic));

    let fblink: spec_fn(Attrs) -> AttrSetting = |a: Attrs| a.blink;
    lemma_fold_flag(chain, attrs_empty(), fblink);
    lemma_last_decided_prepend(v, attrs_default(), fblink);
    assert(attrs_merge(v).blink == last_decided(chain, fblink));

    let freverse: spec_fn(Attrs) -> AttrSetting = |a: Attrs| a.reverse;
    lemma_fold_flag(chain, attrs_empty(), freverse);
    lemma_last_decided_prepend(v, attrs_default(), freverse);
    assert(attrs_merge(v).reverse == last_decided(chain, freverse));

    let fhidden: spec_fn(Attrs) -> AttrSetting = |a: Attrs| a.hidden;
    lemma_fold_flag(chain, attrs_empty(), fhidden);
    lemma_last_decided_prepend(v, attrs_default(), fhidden);
    assert(attrs_merge(v).hidden == last_decided(chain, fhidden));
}

/// The general laws of attribute merging: a chain of one fully decided
/// record merges to itself; a deferred setting merged with an explicit one
/// yields the explicit one, and a decided setting absorbs what follows.
pub proof fn lemma_merge_laws(x: Attrs, y: AttrSetting, z: AttrSetting)
    requires
        x.color is Some,
        x.background_color is Some,
        x.bold != AttrSetting::Automatic,
        x.underline != AttrSetting::Automatic,
        x.strike != AttrSetting::Automatic,
        x.italic != AttrSetting::Automatic,
        x.blink != AttrSetting::Automatic,
        x.reverse != AttrSetting::Automatic,
        x.hidden != AttrSetting::Automatic,
    ensures
        attrs_merge(seq![x]) == x,
        setting_merge(AttrSetting::Automatic, y) == y,
        y != AttrSetting::Automatic ==> setting_merge(y, z) == y,
{
    reveal_with_fuel(merge_fold, 4);
    let chain = seq![attrs_default()] + seq![x];
    assert(chain.len() == 2);
    assert(chain.last() == x);
    assert(chain.drop_last() =~= seq![attrs_default()]);
    assert(chain.drop_last().last() == attrs_default());
    assert(chain.drop_last().drop_last() =~= Seq::<Attrs>::empty());
    assert(attrs_merge(seq![x]) == merge_fold(chain, attrs_empty()));
    assert(attrs_merge(seq![x]) == x);
}

/// Merging two records: each color field takes the later `Some` if there is
/// one, else the earlier, else the chain default.
pub proof fn lemma_merge_pair_colors(x: Attrs, y: Attrs)
    ensures
        attrs_merge(seq![x, y]).color == (if y.color is Some {
            y.color
        } else if x.color is Some {
            x.color
        } else {
            Some(Color::Default)
        }),
        attrs_merge(seq![x, y]).background_color == (if y.background_color is Some {
            y.background_color
        } else if x.background_color is Some {
            x.background_color
        } else {
            Some(Color::Default)
        }),
{
    reveal_with_fuel(merge_fold, 5);
    let chain = seq![attrs_default()] + seq![x, y];
    assert(chain.len() == 3);
    assert(chain.last() == y);
    assert(chain.drop_last() =~= seq![attrs_default(), x]);
    assert(chain.drop_last().last() == x);
    assert(chain.drop_last().drop_last() =~= seq![attrs_default()]);
    assert(chain.drop_last().drop_last().last() == attrs_default());
    assert(chain.drop_last().drop_last().drop_last() =~= Seq::<Attrs>::empty());
    assert(attrs_merge(seq![x, y]) == merge_fold(chain, attrs_empty()));
}

/// One style rule compiled: the class-name tokens and the attributes the
/// rule's style string resolves to.
pub open spec fn compiled_rule(class_names: Seq<char>, style_string: Seq<char>) -> (
    Seq<Seq<char>>,
    Attrs,
) {
    (split_ws(class_names), style_string_attrs(style_string))
}

/// Whether a class-name string is acceptable: lowercase letters, digits,
/// dots, whitespace, underscores and hyphens only.
pub open spec fn valid_class_char(c: char) -> bool {
    ||| (97 <= c as int && c as int <= 122)
    ||| (48 <= c as int && c as int <= 57)
    ||| c == '.'
    ||| is_space(c)
    ||| c == '_'
    ||| c == '-'
}

pub open spec fn valid_class_names(s: Seq<char>) -> bool {
    forall|i: int| 0 <= i < s.len() ==> valid_class_char(#[trigger] s[i])
}

/// Checks a class-name string against the accepted alphabet.
pub fn check_class_names(s: &str) -> (r: bool)
    ensures
        r == valid_class_names(s@),
{
    let cv = str_chars(s);
    let mut i: usize = 0;
    while i < cv.len()
        invariant
            i <= cv@.len(),
            cv@ == s@,
            forall|j: int| 0 <= j < i ==> valid_class_char(#[trigger] s@[j]),
        decreases cv@.len() - i,
    {
        let c = cv[i];
        if !valid_class_char_exec(c) {
            return false;
        }
        i = i + 1;
    }
    true
}

/// Whether one character may stand in a class-name string.
fn valid_class_char_exec(c: char) -> (r: bool)
    ensures
        r == valid_class_char(c),
{
    let v = c as u32;
    if v >= 97 && v <= 122 {
        true
    } else if v >= 48 && v <= 57 {
        true
    } else if c == '.' {
        true
    } else if is_space_char(c) {
        true
    } else if c == '_' {
        true
    } else {
        c == '-'
    }
}

/// The style seam: something that resolves style strings to attributes.
pub trait Style {
    fn get_attrs(&self, style_str: &str, default: Attrs) -> Attrs;

    fn style_rules(&self) -> Vec<(String, String)>;

    fn invalidation_hash(&self) -> u64;
}

/// A style that answers every lookup with the supplied default.
pub struct DummyStyle;

impl Style for DummyStyle {
    fn get_attrs(&self, style_str: &str, default: Attrs) -> Attrs {
        default
    }

    fn style_rules(&self) -> Vec<(String, String)> {
        Vec::new()
    }

    fn invalidation_hash(&self) -> u64 {
        1
    }
}

/// A source of the current style, consulted anew on every lookup.
pub trait StyleSource {
    fn get_style(&self) -> Option<Box<dyn Style>>;
}

/// A style that defers to whatever its source currently answers.
pub struct DynamicStyle {
    get_style: Box<dyn StyleSource>,
}

impl DynamicStyle {
    pub fn new(get_style: Box<dyn StyleSource>) -> DynamicStyle {
        DynamicStyle { get_style }
    }

    pub fn inner_style(&self) -> Box<dyn Style> {
        match self.get_style.get_style() {
            Some(s) => s,
            None => Box::new(DummyStyle),
        }
    }
}

impl Style for DynamicStyle {
    fn get_attrs(&self, style_str: &str, default: Attrs) -> Attrs {
        self.inner_style().get_attrs(style_str, default)
    }

    fn style_rules(&self) -> Vec<(String, String)> {
        self.inner_style().style_rules()
    }

    fn invalidation_hash(&self) -> u64 {
        self.inner_style().invalidation_hash()
    }
}

/// The class names a spelling did not satisfy the rules with.
#[derive(Debug)]
pub struct StyleError(pub String);

/// A style compiled from a list of `(class names, style string)` rules.
pub struct StandardStyle {
    pub style_rules: Vec<(String, String)>,
    pub class_names_and_attrs: Vec<(Vec<String>, Attrs)>,
}

/// The view of a compiled rule list.
pub open spec fn compiled_views(rules: Seq<(Vec<String>, Attrs)>) -> Seq<(Seq<Seq<char>>, Attrs)> {
    rules.map_values(
        |e: (Vec<String>, Attrs)| (e.0@.map_values(|n: String| n@), e.1),
    )
}

impl StandardStyle {
    /// Compiles the rules; the first class-name string outside the accepted
    /// alphabet is a construction error, returned as is.
    pub fn new(style_rules: Vec<(String, String)>) -> (r: Result<Self, StyleError>)
        ensures
            (forall|j: int|
                0 <= j < style_rules@.len() ==> valid_class_names(
                    #[trigger] style_rules@[j].0@,
                )) <==> r is Ok,
            match r {
                Ok(st) => {
                    &&& st.style_rules@ == style_rules@
                    &&& compiled_views(st.class_names_and_attrs@).len() == style_rules@.len()
                    &&& forall|j: int|
                        0 <= j < style_rules@.len() ==> #[trigger] compiled_views(
                            st.class_names_and_attrs@,
                        )[j] == compiled_rule(style_rules@[j].0@, style_rules@[j].1@)
                },
                Err(e) => exists|j: int|
                    0 <= j < style_rules@.len() && !valid_class_names(
                        #[trigger] style_rules@[j].0@,
                    ) && e.0@ == style_rules@[j].0@,
            },
    {
        let mut compiled: Vec<(Vec<String>, Attrs)> = Vec::new();
        let mut i: usize = 0;
        while i < style_rules.len()
            invariant
                i <= style_rules@.len(),
                compiled_views(compiled@).len() == i,
                forall|j: int|
                    0 <= j < i ==> valid_class_names(#[trigger] style_rules@[j].0@),
                forall|j: int|
                    0 <= j < i ==> #[trigger] compiled_views(compiled@)[j] == compiled_rule(
                        style_rules@[j].0@,
                        style_rules@[j].1@,
                    ),
            decreases style_rules@.len() - i,
        {
            let class_names = &style_rules[i].0;
            if !check_class_names(class_names.as_str()) {
                return Err(StyleError(class_names.clone()));
            }
            let names = split_tokens(class_names.as_str());
            let attrs = Attrs::from_style_string(style_rules[i].1.as_str());
            let ghost before = compiled@;
            compiled.push((names, attrs));
            proof {
                assert(compiled@.last().0@.map_values(|n: String| n@) =~= split_ws(
                    style_rules@[i as int].0@,
                ));
                assert(compiled_views(compiled@) =~~= compiled_views(before).push(
                    compiled_rule(style_rules@[i as int].0@, style_rules@[i as int].1@),
                ));
            }
            i = i + 1;
        }
        let mut kept: Vec<(String, String)> = Vec::new();
        let mut k: usize = 0;
        while k < style_rules.len()
            invariant
                k <= style_rules@.len(),
                kept@ == style_rules@.take(k as int),
            decreases style_rules@.len() - k,
        {
            kept.push((style_rules[k].0.clone(), style_rules[k].1.clone()));
            proof {
                assert(style_rules@.take(k + 1) =~= style_rules@.take(k as int).push(
                    style_rules@[k as int],
                ));
                assert(kept@.last() == style_rules@[k as int]) by {
                    assert(kept@.last().0@ == style_rules@[k as int].0@);
                }
            }
            k = k + 1;
        }
        proof {
            assert(style_rules@.take(style_rules@.len() as int) =~= style_rules@);
        }
        Ok(StandardStyle { style_rules: kept, class_names_and_attrs: compiled })
    }

    /// The merge chain a lookup builds: the default, each rule that
    /// applies in the lookup's class context, then the attributes of each
    /// inline token that is not a class reference.
    pub fn resolve_attrs(&self, style_str: &str, default: Attrs) -> (r: Attrs)
        ensures
            r == attrs_merge(
                seq![default] + rule_chain(
                    compiled_views(self.class_names_and_attrs@),
                    class_context(split_ws(style_str@)),
                ) + inline_chain(split_ws(style_str@)),
            ),
    {
        let tokens = split_tokens_chars(style_str);

        let mut ctx: Vec<Vec<char>> = Vec::new();
        let mut t: usize = 0;
        proof {
            assert(split_ws(style_str@).take(0) =~= Seq::<Seq<char>>::empty());
            assert(token_views(ctx@) =~= class_context(split_ws(style_str@).take(0)));
        }
        while t < tokens.len()
            invariant
                t <= tokens@.len(),
                token_views(tokens@) == split_ws(style_str@),
                token_views(ctx@) == class_context(split_ws(style_str@).take(t as int)),
            decreases tokens@.len() - t,
        {
            let tok = &tokens[t];
            proof {
                assert(split_ws(style_str@)[t as int] == tokens@[t as int]@);
                lemma_class_context_snoc(split_ws(style_str@), t as int);
            }
            if is_class_token(tok) {
                push_class_names(&mut ctx, tok);
            } else {
                proof {
                    assert(token_class_names(tokens@[t as int]@) =~= Seq::<Seq<char>>::empty());
                    assert(token_views(ctx@) + Seq::<Seq<char>>::empty() =~= token_views(ctx@));
                }
            }
            t = t + 1;
        }
        proof {
            assert(split_ws(style_str@).take(split_ws(style_str@).len() as int) =~= split_ws(
                style_str@,
            ));
        }
        let ghost ctxv = token_views(ctx@);

        let mut chain: Vec<Attrs> = Vec::new();
        chain.push(default);
        let mut i: usize = 0;
        proof {
            assert(chain@ =~= seq![default] + rule_chain(
                compiled_views(self.class_names_and_attrs@).take(0),
                ctxv,
            ));
        }
        while i < self.class_names_and_attrs.len()
            invariant
                i <= self.class_names_and_attrs@.len(),
                ctxv == token_views(ctx@),
                chain@ == seq![default] + rule_chain(
                    compiled_views(self.class_names_and_attrs@).take(i as int),
                    ctxv,
                ),
            decreases self.class_names_and_attrs@.len() - i,
        {
            let ghost cv = compiled_views(self.class_names_and_attrs@);
            proof {
                assert(cv[i as int].0 == self.class_names_and_attrs@[i as int].0@.map_values(
                    |n: String| n@,
                ));
            }
            if rule_applies_exec(&self.class_names_and_attrs[i].0, &ctx) {
                chain.push(self.class_names_and_attrs[i].1);
            }
            proof {
                lemma_rule_chain_snoc(cv, ctxv, i as int);
                if rule_applies(cv[i as int].0, ctxv) {
                    assert(chain@ =~= (seq![default] + rule_chain(cv.take(i as int), ctxv)).push(
                        cv[i as int].1,
                    ));
                    assert(seq![default] + rule_chain(cv.take(i + 1), ctxv) =~= (seq![default]
                        + rule_chain(cv.take(i as int), ctxv)).push(cv[i as int].1));
                } else {
                    assert(seq![default] + rule_chain(cv.take(i + 1), ctxv) =~= seq![default]
                        + rule_chain(cv.take(i as int), ctxv));
                }
            }
            i = i + 1;
        }
        proof {
            let cv = compiled_views(self.class_names_and_attrs@);
            assert(cv.take(cv.len() as int) =~= cv);
        }

        let mut t2: usize = 0;
        let ghost mid = chain@;
        proof {
            assert(mid + inline_chain(split_ws(style_str@).take(0)) =~= mid);
        }
        while t2 < tokens.len()
            invariant
                t2 <= tokens@.len(),
                token_views(tokens@) == split_ws(style_str@),
                chain@ == mid + inline_chain(split_ws(style_str@).take(t2 as int)),
            decreases tokens@.len() - t2,
        {
            let ghost ts = split_ws(style_str@);
            let tok = &tokens[t2];
            let is_class = is_class_token(tok);
            if !is_class {
                let attrs = apply_token_attrs(tok);
                chain.push(attrs);
            }
            proof {
                assert(ts[t2 as int] == tokens@[t2 as int]@);
                lemma_inline_chain_snoc(ts, t2 as int);
                if !(ts[t2 as int].len() >= 6 && ts[t2 as int].subrange(0, 6) == "class:"@) {
                    assert(chain@ =~= (mid + inline_chain(ts.take(t2 as int))).push(
                        style_string_attrs(ts[t2 as int]),
                    ));
                    assert(mid + inline_chain(ts.take(t2 + 1)) =~= (mid + inline_chain(
                        ts.take(t2 as int),
                    )).push(style_string_attrs(ts[t2 as int])));
                } else {
                    assert(mid + inline_chain(ts.take(t2 + 1)) =~= mid + inline_chain(
                        ts.take(t2 as int),
                    ));
                }
            }
            t2 = t2 + 1;
        }
        proof {
            let ts = split_ws(style_str@);
            assert(ts.take(ts.len() as int) =~= ts);
            assert(chain@ =~= (seq![default] + rule_chain(
                compiled_views(self.class_names_and_attrs@),
                ctxv,
            )) + inline_chain(ts));
        }
        Attrs::merge(chain.as_slice())
    }

    /// Folds the class names and rule attributes into one cache key.
    pub fn hash_key(&self) -> (r: u64)
        ensures
            r == invalidation_hash_spec(compiled_views(self.class_names_and_attrs@)),
    {
        let mut acc: Vec<u8> = Vec::new();
        let mut i: usize = 0;
        while i < self.class_names_and_attrs.len()
            invariant
                i <= self.class_names_and_attrs@.len(),
                acc@ == fingerprint(compiled_views(self.class_names_and_attrs@).take(i as int)),
            decreases self.class_names_and_attrs@.len() - i,
        {
            let ghost cv = compiled_views(self.class_names_and_attrs@);
            let entry = &self.class_names_and_attrs[i];
            let mut j: usize = 0;
            let ghost names = cv[i as int].0;
            let ghost acc_row_start = acc@;
            proof {
                assert(acc_row_start + names_bytes(names.take(0)) =~= acc_row_start);
            }
            while j < entry.0.len()
                invariant
                    j <= entry.0@.len(),
                    i < self.class_names_and_attrs@.len(),
                    entry == &self.class_names_and_attrs@[i as int],
                    names == compiled_views(self.class_names_and_attrs@)[i as int].0,
                    names.len() == entry.0@.len(),
                    forall|m: int| 0 <= m < names.len() ==> names[m] == #[trigger] entry.0@[m]@,
                    acc@ == acc_row_start + names_bytes(names.take(j as int)),
                decreases entry.0@.len() - j,
            {
                push_chars_bytes(&mut acc, entry.0[j].as_str());
                proof {
                    assert(names.take(j + 1) =~= names.take(j as int).push(names[j as int]));
                    lemma_names_bytes_snoc(names.take(j as int), names[j as int]);
                    assert(acc@ =~= acc_row_start + names_bytes(names.take(j + 1)));
                }
                j = j + 1;
            }
            proof {
                assert(names.take(names.len() as int) =~= names);
            }
            push_attrs_bytes(&mut acc, &entry.1);
            proof {
                lemma_fingerprint_snoc(cv, i as int);
                assert(acc@ =~= fingerprint(cv.take(i + 1)));
            }
            i = i + 1;
        }
        proof {
            let cv = compiled_views(self.class_names_and_attrs@);
            assert(cv.take(cv.len() as int) =~= cv);
        }
        let mut hasher = std::collections::hash_map::DefaultHasher::new();
        std::hash::Hasher::write(&mut hasher, acc.as_slice());
        let r = std::hash::Hasher::finish(&hasher);
        proof {
            assert(hasher@ =~= seq![
                fingerprint(compiled_views(self.class_names_and_attrs@)),
            ]);
        }
        r
    }
}

impl Style for StandardStyle {
    fn get_attrs(&self, style_str: &str, default: Attrs) -> Attrs {
        self.resolve_attrs(style_str, default)
    }

    fn style_rules(&self) -> Vec<(String, String)> {
        let mut out: Vec<(String, String)> = Vec::new();
        let mut i: usize = 0;
        while i < self.style_rules.len()
            decreases self.style_rules@.len() - i,
        {
            out.push((self.style_rules[i].0.clone(), self.style_rules[i].1.clone()));
            i = i + 1;
        }
        out
    }

    fn invalidation_hash(&self) -> u64 {
        self.hash_key()
    }
}

/// A style made of several styles consulted in order.
pub struct MergedStyle {
    pub styles: Vec<Box<dyn Style>>,
}

/// A name list with leading whitespace removed.
pub open spec fn trim_front(s: Seq<char>) -> Seq<char>
    decreases s.len(),
{
    if s.len() == 0 || !is_space(s[0]) {
        s
    } else {
        trim_front(s.drop_first())
    }
}

/// A name list with trailing whitespace removed.
pub open spec fn trim_back(s: Seq<char>) -> Seq<char>
    decreases s.len(),
{
    if s.len() == 0 || !is_space(s.last()) {
        s
    } else {
        trim_back(s.drop_last())
    }
}

/// A class name as the context stores it: trimmed and lowercased.
pub open spec fn normalized_name(s: Seq<char>) -> Seq<char> {
    crate::color::ascii_lower(trim_front(trim_back(s)))
}

/// The comma-separated names of a class reference, each normalized, given
/// the piece accumulated so far.
pub open spec fn comma_names_acc(s: Seq<char>, cur: Seq<char>) -> Seq<Seq<char>>
    decreases s.len(),
{
    if s.len() == 0 {
        seq![normalized_name(cur)]
    } else if s[0] == ',' {
        seq![normalized_name(cur)] + comma_names_acc(s.drop_first(), seq![])
    } else {
        comma_names_acc(s.drop_first(), cur.push(s[0]))
    }
}

/// The comma-separated names of a class reference, each normalized.
pub open spec fn comma_names(s: Seq<char>) -> Seq<Seq<char>> {
    comma_names_acc(s, seq![])
}

/// The names one token contributes to the class context: a `class:` token
/// lists them after its prefix; any other token contributes none.
pub open spec fn token_class_names(t: Seq<char>) -> Seq<Seq<char>> {
    if t.len() >= 6 && t.subrange(0, 6) == "class:"@ {
        comma_names(t.skip(6))
    } else {
        seq![]
    }
}

/// The class context of a lookup: every name its `class:` tokens refer to.
pub open spec fn class_context(tokens: Seq<Seq<char>>) -> Seq<Seq<char>>
    decreases tokens.len(),
{
    if tokens.len() == 0 {
        seq![]
    } else {
        class_context(tokens.drop_last()) + token_class_names(tokens.last())
    }
}

/// Whether a rule applies in a class context: every one of its class names
/// is referenced; a rule with no class names applies everywhere.
pub open spec fn rule_applies(names: Seq<Seq<char>>, ctx: Seq<Seq<char>>) -> bool {
    forall|i: int| 0 <= i < names.len() ==> ctx.contains(#[trigger] names[i])
}

/// The rule part of a lookup's merge chain: the attributes of each rule
/// that applies in the lookup's class context, in rule order.
pub open spec fn rule_chain(rules: Seq<(Seq<Seq<char>>, Attrs)>, ctx: Seq<Seq<char>>) -> Seq<
    Attrs,
>
    decreases rules.len(),
{
    if rules.len() == 0 {
        seq![]
    } else {
        rule_chain(rules.drop_last(), ctx) + (if rule_applies(rules.last().0, ctx) {
            seq![rules.last().1]
        } else {
            seq![]
        })
    }
}

proof fn lemma_rule_chain_snoc(rules: Seq<(Seq<Seq<char>>, Attrs)>, ctx: Seq<Seq<char>>, i: int)
    requires
        0 <= i < rules.len(),
    ensures
        rule_chain(rules.take(i + 1), ctx) == rule_chain(rules.take(i), ctx) + (if rule_applies(
            rules[i].0,
            ctx,
        ) {
            seq![rules[i].1]
        } else {
            seq![]
        }),
{
    assert(rules.take(i + 1).drop_last() =~= rules.take(i));
    assert(rules.take(i + 1).last() == rules[i]);
}

proof fn lemma_class_context_snoc(tokens: Seq<Seq<char>>, i: int)
    requires
        0 <= i < tokens.len(),
    ensures
        class_context(tokens.take(i + 1)) == class_context(tokens.take(i)) + token_class_names(
            tokens[i],
        ),
{
    assert(tokens.take(i + 1).drop_last() =~= tokens.take(i));
    assert(tokens.take(i + 1).last() == tokens[i]);
}

/// A trimmed, lowercased copy of a name piece.
fn normalize_name(cur: &Vec<char>) -> (r: Vec<char>)
    ensures
        r@ == normalized_name(cur@),
{
    let mut e: usize = cur.len();
    proof {
        assert(cur@.take(e as int) =~= cur@);
    }
    while e > 0 && is_space_char(cur[e - 1])
        invariant
            e <= cur@.len(),
            trim_back(cur@) == trim_back(cur@.take(e as int)),
        decreases e,
    {
        proof {
            assert(cur@.take(e as int).last() == cur@[e - 1]);
            assert(cur@.take(e as int).drop_last() =~= cur@.take(e - 1));
        }
        e = e - 1;
    }
    proof {
        if e > 0 {
            assert(cur@.take(e as int).last() == cur@[e - 1]);
        }
        assert(trim_back(cur@.take(e as int)) == cur@.take(e as int));
    }
    let mut st: usize = 0;
    proof {
        assert(cur@.subrange(0, e as int) =~= cur@.take(e as int));
    }
    while st < e && is_space_char(cur[st])
        invariant
            st <= e <= cur@.len(),
            trim_front(cur@.take(e as int)) == trim_front(cur@.subrange(st as int, e as int)),
        decreases e - st,
    {
        proof {
            assert(cur@.subrange(st as int, e as int)[0] == cur@[st as int]);
            assert(cur@.subrange(st as int, e as int).drop_first() =~= cur@.subrange(
                st + 1,
                e as int,
            ));
        }
        st = st + 1;
    }
    proof {
        if st < e {
            assert(cur@.subrange(st as int, e as int)[0] == cur@[st as int]);
        }
        assert(trim_front(cur@.subrange(st as int, e as int)) == cur@.subrange(
            st as int,
            e as int,
        ));
    }
    let mut out: Vec<char> = Vec::new();
    let mut k: usize = st;
    proof {
        assert(out@ =~= crate::color::ascii_lower(cur@.subrange(st as int, st as int)));
    }
    while k < e
        invariant
            st <= k <= e <= cur@.len(),
            out@ == crate::color::ascii_lower(cur@.subrange(st as int, k as int)),
        decreases e - k,
    {
        out.push(crate::color::ascii_lower_char_exec(cur[k]));
        proof {
            assert(cur@.subrange(st as int, k + 1).map_values(
                |c: char| crate::color::ascii_lower_char(c),
            ) =~= cur@.subrange(st as int, k as int).map_values(
                |c: char| crate::color::ascii_lower_char(c),
            ).push(crate::color::ascii_lower_char(cur@[k as int])));
        }
        k = k + 1;
    }
    proof {
        assert(out@ == crate::color::ascii_lower(trim_front(trim_back(cur@))));
    }
    out
}

/// Appends the names a class reference lists to the context.
fn push_class_names(ctx: &mut Vec<Vec<char>>, tok: &Vec<char>)
    requires
        tok@.len() >= 6,
        tok@.subrange(0, 6) == "class:"@,
    ensures
        token_views(final(ctx)@) == token_views(old(ctx)@) + comma_names(tok@.skip(6)),
{
    let mut cur: Vec<char> = Vec::new();
    let mut i: usize = 6;
    proof {
        assert(cur@ =~= Seq::<char>::empty());
        assert(tok@.skip(6) == tok@.skip(6));
    }
    while i < tok.len()
        invariant
            6 <= i <= tok@.len(),
            token_views(ctx@) + comma_names_acc(tok@.skip(i as int), cur@) == token_views(
                old(ctx)@,
            ) + comma_names(tok@.skip(6)),
        decreases tok@.len() - i,
    {
        let c = tok[i];
        let ghost rest = tok@.skip(i as int);
        proof {
            assert(rest[0] == tok@[i as int]);
            assert(rest.drop_first() =~= tok@.skip(i + 1));
        }
        if c == ',' {
            let ghost before = ctx@;
            let name = normalize_name(&cur);
            ctx.push(name);
            cur = Vec::new();
            proof {
                assert(token_views(ctx@) =~= token_views(before).push(ctx@.last()@)) by {
                    assert(token_views(ctx@).len() == ctx@.len());
                }
                assert(cur@ =~= Seq::<char>::empty());
                assert(token_views(before).push(ctx@.last()@) + comma_names_acc(
                    rest.drop_first(),
                    Seq::<char>::empty(),
                ) =~= token_views(before) + (seq![ctx@.last()@] + comma_names_acc(
                    rest.drop_first(),
                    Seq::<char>::empty(),
                )));
            }
        } else {
            cur.push(c);
        }
        i = i + 1;
    }
    proof {
        assert(tok@.skip(tok@.len() as int) =~= Seq::<char>::empty());
    }
    let ghost before = ctx@;
    let name = normalize_name(&cur);
    ctx.push(name);
    proof {
        assert(token_views(ctx@) =~= token_views(before).push(ctx@.last()@)) by {
            assert(token_views(ctx@).len() == ctx@.len());
        }
        assert(comma_names_acc(Seq::<char>::empty(), cur@) == seq![normalized_name(cur@)]);
        assert(token_views(before).push(ctx@.last()@) =~= token_views(before) + seq![
            normalized_name(cur@),
        ]);
    }
}

/// Whether a context lists a name.
fn ctx_contains(ctx: &Vec<Vec<char>>, name: &str) -> (r: bool)
    ensures
        r == token_views(ctx@).contains(name@),
{
    let mut j: usize = 0;
    while j < ctx.len()
        invariant
            j <= ctx@.len(),
            forall|k: int| 0 <= k < j ==> #[trigger] ctx@[k]@ != name@,
        decreases ctx@.len() - j,
    {
        let vs = chars_to_string(&ctx[j]);
        if crate::util::str_eq(vs.as_str(), name) {
            proof {
                assert(token_views(ctx@)[j as int] == name@);
            }
            return true;
        }
        j = j + 1;
    }
    proof {
        assert(forall|k: int|
            0 <= k < token_views(ctx@).len() ==> #[trigger] token_views(ctx@)[k] != name@);
    }
    false
}

/// Whether every class name of a rule is listed by the context.
fn rule_applies_exec(names: &Vec<String>, ctx: &Vec<Vec<char>>) -> (r: bool)
    ensures
        r == rule_applies(names@.map_values(|n: String| n@), token_views(ctx@)),
{
    let ghost namesv = names@.map_values(|n: String| n@);
    let mut i: usize = 0;
    while i < names.len()
        invariant
            i <= names@.len(),
            namesv == names@.map_values(|n: String| n@),
            forall|k: int| 0 <= k < i ==> token_views(ctx@).contains(#[trigger] namesv[k]),
        decreases names@.len() - i,
    {
        proof {
            assert(namesv[i as int] == names@[i as int]@);
        }
        if !ctx_contains(ctx, names[i].as_str()) {
            proof {
                assert(!rule_applies(namesv, token_views(ctx@))) by {
                    assert(!token_views(ctx@).contains(namesv[i as int]));
                }
            }
            return false;
        }
        i = i + 1;
    }
    true
}

/// The inline part of a lookup's merge chain: the attributes of each token
/// that is not a class reference.
pub open spec fn inline_chain(tokens: Seq<Seq<char>>) -> Seq<Attrs>
    decreases tokens.len(),
{
    if tokens.len() == 0 {
        seq![]
    } else {
        inline_chain(tokens.drop_last()) + (if tokens.last().len() >= 6 && tokens.last().subrange(
            0,
            6,
        ) == "class:"@ {
            seq![]
        } else {
            seq![style_string_attrs(tokens.last())]
        })
    }
}

proof fn lemma_inline_chain_snoc(tokens: Seq<Seq<char>>, i: int)
    requires
        0 <= i < tokens.len(),
    ensures
        inline_chain(tokens.take(i + 1)) == inline_chain(tokens.take(i)) + (if tokens[i].len() >= 6
            && tokens[i].subrange(0, 6) == "class:"@ {
            seq![]
        } else {
            seq![style_string_attrs(tokens[i])]
        }),
{
    assert(tokens.take(i + 1).drop_last() =~= tokens.take(i));
    assert(tokens.take(i + 1).last() == tokens[i]);
}

/// The views of a token list.
pub open spec fn token_views(tokens: Seq<Vec<char>>) -> Seq<Seq<char>> {
    tokens.map_values(|t: Vec<char>| t@)
}

/// Splits a string into whitespace-delimited tokens, as strings.
pub fn split_tokens(s: &str) -> (r: Vec<String>)
    ensures
        r@.len() == split_ws(s@).len(),
        forall|j: int| 0 <= j < r@.len() ==> #[trigger] r@[j]@ == split_ws(s@)[j],
{
    let parts = split_tokens_chars(s);
    let mut out: Vec<String> = Vec::new();
    let mut i: usize = 0;
    while i < parts.len()
        invariant
            i <= parts@.len(),
            token_views(parts@) == split_ws(s@),
            out@.len() == i,
            forall|j: int| 0 <= j < i ==> #[trigger] out@[j]@ == split_ws(s@)[j],
        decreases parts@.len() - i,
    {
        out.push(chars_to_string(&parts[i]));
        proof {
            assert(token_views(parts@)[i as int] == parts@[i as int]@);
        }
        i = i + 1;
    }
    out
}

/// Splits a string into whitespace-delimited tokens, as character vectors.
pub fn split_tokens_chars(s: &str) -> (r: Vec<Vec<char>>)
    ensures
        token_views(r@) == split_ws(s@),
{
    let cv = str_chars(s);
    let mut out: Vec<Vec<char>> = Vec::new();
    let mut cur: Vec<char> = Vec::new();
    let mut i: usize = 0;
    proof {
        assert(s@.skip(0) =~= s@);
        assert(cur@ =~= Seq::<char>::empty());
        assert(token_views(out@) =~= Seq::<Seq<char>>::empty());
        assert(token_views(out@) + split_ws_acc(s@.skip(0), cur@) =~= split_ws(s@));
    }
    while i < cv.len()
        invariant
            i <= cv@.len(),
            cv@ == s@,
            token_views(out@) + split_ws_acc(s@.skip(i as int), cur@) == split_ws(s@),
        decreases cv@.len() - i,
    {
        let c = cv[i];
        let ghost rest = s@.skip(i as int);
        proof {
            assert(rest[0] == s@[i as int]);
            assert(rest.drop_first() =~= s@.skip(i + 1));
        }
        if is_space_char(c) {
            if cur.len() > 0 {
                let ghost before = out@;
                out.push(cur);
                cur = Vec::new();
                proof {
                    assert(token_views(out@) =~= token_views(before).push(out@.last()@)) by {
                        assert(token_views(out@).len() == out@.len());
                    }
                    assert(cur@ =~= Seq::<char>::empty());
                    assert(token_views(out@) + split_ws_acc(rest.drop_first(), cur@)
                        =~= token_views(before) + (seq![out@.last()@] + split_ws_acc(
                        rest.drop_first(),
                        Seq::<char>::empty(),
                    )));
                }
            } else {
                proof {
                    assert(cur@ =~= Seq::<char>::empty());
                }
            }
        } else {
            cur.push(c);
        }
        i = i + 1;
    }
    proof {
        assert(s@.skip(s@.len() as int) =~= Seq::<char>::empty());
    }
    if cur.len() > 0 {
        let ghost before = out@;
        out.push(cur);
        proof {
            assert(token_views(out@) =~= token_views(before).push(out@.last()@));
            assert(token_views(before).push(out@.last()@) =~= token_views(before)
                + seq![out@.last()@]);
        }
    } else {
        proof {
            assert(cur@ =~= Seq::<char>::empty());
            assert(token_views(out@) + Seq::<Seq<char>>::empty() =~= token_views(out@));
        }
    }
    out
}

/// Whether a token is a class reference.
fn is_class_token(t: &Vec<char>) -> (r: bool)
    ensures
        r == (t@.len() >= 6 && t@.subrange(0, 6) == "class:"@),
{
    proof {
        reveal_strlit("class:");
    }
    if t.len() < 6 {
        return false;
    }
    let ok = t[0] == 'c' && t[1] == 'l' && t[2] == 'a' && t[3] == 's' && t[4] == 's' && t[5]
        == ':';
    proof {
        assert(t@.subrange(0, 6)[0] == t@[0]);
        assert(t@.subrange(0, 6)[1] == t@[1]);
        assert(t@.subrange(0, 6)[2] == t@[2]);
        assert(t@.subrange(0, 6)[3] == t@[3]);
        assert(t@.subrange(0, 6)[4] == t@[4]);
        assert(t@.subrange(0, 6)[5] == t@[5]);
        if ok {
            assert(t@.subrange(0, 6) =~= "class:"@);
        }
    }
    ok
}

/// Resolves one token to attributes, as a one-token style string.
fn apply_token_attrs(t: &Vec<char>) -> (r: Attrs)
    ensures
        r == style_string_attrs(t@),
{
    let ts = chars_to_string(t);
    Attrs::from_style_string(ts.as_str())
}

/// The byte fingerprint of the compiled rules that the cache key hashes.
pub open spec fn fingerprint(rules: Seq<(Seq<Seq<char>>, Attrs)>) -> Seq<u8>
    decreases rules.len(),
{
    if rules.len() == 0 {
        Seq::empty()
    } else {
        fingerprint(rules.drop_last()) + names_bytes(rules.last().0) + attrs_bytes_spec(
            rules.last().1,
        )
    }
}

proof fn lemma_fingerprint_snoc(rules: Seq<(Seq<Seq<char>>, Attrs)>, i: int)
    requires
        0 <= i < rules.len(),
    ensures
        fingerprint(rules.take(i + 1)) == fingerprint(rules.take(i)) + names_bytes(rules[i].0)
            + attrs_bytes_spec(rules[i].1),
{
    assert(rules.take(i + 1).drop_last() =~= rules.take(i));
    assert(rules.take(i + 1).last() == rules[i]);
}

/// The bytes of a class-name list: each name's characters truncated to
/// bytes, in order.
pub open spec fn names_bytes(names: Seq<Seq<char>>) -> Seq<u8>
    decreases names.len(),
{
    if names.len() == 0 {
        Seq::empty()
    } else {
        names_bytes(names.drop_last()) + names.last().map_values(|c: char| c as u8)
    }
}

proof fn lemma_names_bytes_snoc(names: Seq<Seq<char>>, n: Seq<char>)
    ensures
        names_bytes(names.push(n)) == names_bytes(names) + n.map_values(|c: char| c as u8),
{
    assert(names.push(n).drop_last() =~= names);
    assert(names.push(n).last() == n);
}

/// Pushes the characters of a string as truncated bytes.
fn push_chars_bytes(acc: &mut Vec<u8>, s: &str)
    ensures
        final(acc)@ == old(acc)@ + s@.map_values(|c: char| c as u8),
{
    let cv = str_chars(s);
    let mut i: usize = 0;
    proof {
        assert(old(acc)@ + s@.take(0).map_values(|c: char| c as u8) =~= old(acc)@);
    }
    while i < cv.len()
        invariant
            i <= cv@.len(),
            cv@ == s@,
            acc@ == old(acc)@ + s@.take(i as int).map_values(|c: char| c as u8),
        decreases cv@.len() - i,
    {
        acc.push(cv[i] as u8);
        proof {
            assert(s@.take(i + 1).map_values(|c: char| c as u8) =~= s@.take(i as int).map_values(
                |c: char| c as u8,
            ).push(s@[i as int] as u8));
        }
        i = i + 1;
    }
    proof {
        assert(s@.take(s@.len() as int) =~= s@);
    }
}

/// A small byte code for a tri-state flag.
pub open spec fn setting_byte(a: AttrSetting) -> u8 {
    match a {
        AttrSetting::Enabled => 1u8,
        AttrSetting::Disabled => 2u8,
        AttrSetting::Automatic => 3u8,
    }
}

/// A small byte code for an optional color.
pub open spec fn color_bytes(c: Option<crate::color::Color>) -> Seq<u8> {
    match c {
        None => seq![0u8],
        Some(crate::color::Color::Default) => seq![1u8],
        Some(crate::color::Color::Ansi(a)) => seq![2u8, (crate::color::ansi_code(a)) as u8],
        Some(crate::color::Color::Hex(r, g, b)) => seq![3u8, r, g, b],
    }
}

/// The byte encoding of an attribute record used by the cache key.
pub open spec fn attrs_bytes_spec(a: Attrs) -> Seq<u8> {
    color_bytes(a.color) + color_bytes(a.background_color) + seq![
        setting_byte(a.bold),
        setting_byte(a.underline),
        setting_byte(a.strike),
        setting_byte(a.italic),
        setting_byte(a.blink),
        setting_byte(a.reverse),
        setting_byte(a.hidden),
    ]
}

/// What the cache key is: the standard hasher's digest of one write holding
/// the rules' fingerprint.
#[verifier::rlimit(100)]
pub open spec fn invalidation_hash_spec(rules: Seq<(Seq<Seq<char>>, Attrs)>) -> u64 {
    <std::collections::hash_map::DefaultHasher as vstd::std_specs::hash::DefaultHasherAdditionalSpecFns>::spec_finish(
        seq![fingerprint(rules)],
    )
}

/// Pushes the byte code of one optional color.
fn push_color_bytes(acc: &mut Vec<u8>, c: Option<crate::color::Color>)
    ensures
        final(acc)@ == old(acc)@ + color_bytes(c),
{
    match c {
        None => {
            acc.push(0);
            proof {
                assert(acc@ =~= old(acc)@ + color_bytes(c));
            }
        },
        Some(crate::color::Color::Default) => {
            acc.push(1);
            proof {
                assert(acc@ =~= old(acc)@ + color_bytes(c));
            }
        },
        Some(crate::color::Color::Ansi(an)) => {
            acc.push(2);
            let code = an.code();
            acc.push(code as u8);
            proof {
                assert(acc@ =~= old(acc)@ + color_bytes(c));
            }
        },
        Some(crate::color::Color::Hex(r, g, b)) => {
            acc.push(3);
            acc.push(r);
            acc.push(g);
            acc.push(b);
            proof {
                assert(acc@ =~= old(acc)@ + color_bytes(c));
            }
        },
    }
}

/// Pushes the byte encoding of an attribute record.
#[verifier::rlimit(100)]
fn push_attrs_bytes(acc: &mut Vec<u8>, a: &Attrs)
    ensures
        final(acc)@ == old(acc)@ + attrs_bytes_spec(*a),
{
    push_color_bytes(acc, a.color);
    push_color_bytes(acc, a.background_color);
    acc.push(setting_byte_exec(a.bold));
    acc.push(setting_byte_exec(a.underline));
    acc.push(setting_byte_exec(a.strike));
    acc.push(setting_byte_exec(a.italic));
    acc.push(setting_byte_exec(a.blink));
    acc.push(setting_byte_exec(a.reverse));
    acc.push(setting_byte_exec(a.hidden));
    proof {
        assert(acc@ =~= old(acc)@ + attrs_bytes_spec(*a));
    }
}

fn setting_byte_exec(a: AttrSetting) -> (r: u8)
    ensures
        r == setting_byte(a),
{
    match a {
        AttrSetting::Enabled => 1,
        AttrSetting::Disabled => 2,
        AttrSetting::Automatic => 3,
    }
}

} // verus!
