//! Shortcut chords: an ordered set of modifier tokens plus one terminal
//! key, in two textual forms. The configuration database stores the
//! native form ("<Control><Alt>m"); the UI shows the display form
//! ("Ctrl+Alt+M"). Conversion replaces each modifier token with its
//! display name plus "+" and upper-cases only the trailing key; the
//! modifier set survives the trip unchanged.

use vstd::prelude::*;
use vstd::string::{StrSliceExecFns, StringExecFns};

use crate::text;

verus! {

/// One modifier key of a chord.
#[derive(Debug, Clone, Copy, PartialEq, Eq, Structural)]
pub enum ModKey {
    Control,
    Alt,
    Shift,
    Super,
}

/// A chord: ordered modifiers plus the terminal key token.
pub struct Chord {
    pub mods: Vec<ModKey>,
    pub key: String,
}

/// A modifier's token in the configuration database's native encoding.
pub open spec fn native_token(m: ModKey) -> Seq<char> {
    match m {
        ModKey::Control => "<Control>"@,
        ModKey::Alt => "<Alt>"@,
        ModKey::Shift => "<Shift>"@,
        ModKey::Super => "<Super>"@,
    }
}

/// A modifier's display name, already followed by the "+" separator.
pub open spec fn display_token(m: ModKey) -> Seq<char> {
    match m {
        ModKey::Control => "Ctrl+"@,
        ModKey::Alt => "Alt+"@,
        ModKey::Shift => "Shift+"@,
        ModKey::Super => "Super+"@,
    }
}

/// The native encoding of a modifier sequence.
pub open spec fn native_mods(mods: Seq<ModKey>) -> Seq<char>
    decreases mods.len(),
{
    if mods.len() == 0 {
        Seq::empty()
    } else {
        native_token(mods[0]) + native_mods(mods.drop_first())
    }
}

/// The display encoding of a modifier sequence.
pub open spec fn display_mods(mods: Seq<ModKey>) -> Seq<char>
    decreases mods.len(),
{
    if mods.len() == 0 {
        Seq::empty()
    } else {
        display_token(mods[0]) + display_mods(mods.drop_first())
    }
}

/// A key token is sound when it is non-empty and holds none of the
/// separator characters of either encoding.
pub open spec fn key_ok(key: Seq<char>) -> bool {
    key.len() > 0 && forall|i: int|
        0 <= i < key.len() ==> key[i] != '<' && key[i] != '>' && key[i] != '+'
}

/// A chord expressible as modifier set plus key.
pub open spec fn chord_wf(mods: Seq<ModKey>, key: Seq<char>) -> bool {
    key_ok(key)
}

/// The full native form: the modifier tokens followed by the bare key.
pub open spec fn native_form(mods: Seq<ModKey>, key: Seq<char>) -> Seq<char> {
    native_mods(mods) + key
}

/// The full display form: the display names followed by the key in
/// upper case.
pub open spec fn display_form(mods: Seq<ModKey>, key: Seq<char>) -> Seq<char> {
    display_mods(mods) + text::upper_seq(key)
}

/// Reading a native-form chord back into modifiers and key: modifier
/// tokens from the front, then a sound key token; anything else is
/// refused.
pub open spec fn spec_parse_native(s: Seq<char>) -> Option<(Seq<ModKey>, Seq<char>)>
    decreases s.len(),
{
    if s.len() == 0 {
        Option::None
    } else if s[0] != '<' {
        if key_ok(s) {
            Option::Some((Seq::empty(), s))
        } else {
            Option::None
        }
    } else if s.len() >= 9 && text::match_at(s, "<Control>"@, 0) {
        match spec_parse_native(s.skip(9)) {
            Option::Some(p) => Option::Some((seq![ModKey::Control] + p.0, p.1)),
            Option::None => Option::None,
        }
    } else if s.len() >= 5 && text::match_at(s, "<Alt>"@, 0) {
        match spec_parse_native(s.skip(5)) {
            Option::Some(p) => Option::Some((seq![ModKey::Alt] + p.0, p.1)),
            Option::None => Option::None,
        }
    } else if s.len() >= 7 && text::match_at(s, "<Shift>"@, 0) {
        match spec_parse_native(s.skip(7)) {
            Option::Some(p) => Option::Some((seq![ModKey::Shift] + p.0, p.1)),
            Option::None => Option::None,
        }
    } else if s.len() >= 7 && text::match_at(s, "<Super>"@, 0) {
        match spec_parse_native(s.skip(7)) {
            Option::Some(p) => Option::Some((seq![ModKey::Super] + p.0, p.1)),
            Option::None => Option::None,
        }
    } else {
        Option::None
    }
}

/// Reading a display-form chord back into modifiers and key.
pub open spec fn spec_parse_display(s: Seq<char>) -> Option<(Seq<ModKey>, Seq<char>)>
    decreases s.len(),
{
    if s.len() == 0 {
        Option::None
    } else if s.len() >= 5 && text::match_at(s, "Ctrl+"@, 0) {
        match spec_parse_display(s.skip(5)) {
            Option::Some(p) => Option::Some((seq![ModKey::Control] + p.0, p.1)),
            Option::None => Option::None,
        }
    } else if s.len() >= 4 && text::match_at(s, "Alt+"@, 0) {
        match spec_parse_display(s.skip(4)) {
            Option::Some(p) => Option::Some((seq![ModKey::Alt] + p.0, p.1)),
            Option::None => Option::None,
        }
    } else if s.len() >= 6 && text::match_at(s, "Shift+"@, 0) {
        match spec_parse_display(s.skip(6)) {
            Option::Some(p) => Option::Some((seq![ModKey::Shift] + p.0, p.1)),
            Option::None => Option::None,
        }
    } else if s.len() >= 6 && text::match_at(s, "Super+"@, 0) {
        match spec_parse_display(s.skip(6)) {
            Option::Some(p) => Option::Some((seq![ModKey::Super] + p.0, p.1)),
            Option::None => Option::None,
        }
    } else if key_ok(s) {
        Option::Some((Seq::empty(), s))
    } else {
        Option::None
    }
}

/// What converting a native configuration-database value yields: the
/// display form of the chord it encodes, or, for text that encodes no
/// chord, the text in upper case.
pub open spec fn spec_convert(s: Seq<char>) -> Seq<char> {
    match spec_parse_native(s) {
        Option::Some(p) => display_form(p.0, p.1),
        Option::None => text::upper_seq(s),
    }
}

/// Prepending already-parsed modifiers to a parse of the remainder.
pub open spec fn compose_parse(acc: Seq<ModKey>, o: Option<(Seq<ModKey>, Seq<char>)>) -> Option<
    (Seq<ModKey>, Seq<char>),
> {
    match o {
        Option::Some(p) => Option::Some((acc + p.0, p.1)),
        Option::None => Option::None,
    }
}

proof fn lemma_display_mods_snoc(mods: Seq<ModKey>, m: ModKey)
    ensures
        display_mods(mods.push(m)) == display_mods(mods) + display_token(m),
    decreases mods.len(),
{
    let p = mods.push(m);
    if mods.len() == 0 {
        assert(p[0] == m);
        assert(p.drop_first() =~= Seq::<ModKey>::empty());
        assert(display_mods(Seq::<ModKey>::empty()) == Seq::<char>::empty());
        assert(display_mods(p) == display_token(m) + Seq::<char>::empty());
        assert(display_token(m) + Seq::<char>::empty() =~= Seq::<char>::empty() + display_token(
            m,
        ));
    } else {
        assert(p[0] == mods[0]);
        assert(p.drop_first() =~= mods.drop_first().push(m));
        lemma_display_mods_snoc(mods.drop_first(), m);
        assert(display_mods(p) == display_token(mods[0]) + (display_mods(mods.drop_first())
            + display_token(m)));
        assert(display_mods(mods) == display_token(mods[0]) + display_mods(mods.drop_first()));
        assert(display_token(mods[0]) + (display_mods(mods.drop_first()) + display_token(m)) =~= (
        display_token(mods[0]) + display_mods(mods.drop_first())) + display_token(m));
    }
}

/// Reads a chord out of its native configuration-database form.
pub fn chord_from_native(raw: &str) -> (r: Option<Chord>)
    ensures
        r matches Option::Some(c) ==> spec_parse_native(raw@) == Option::Some((c.mods@, c.key@)),
        r is None ==> spec_parse_native(raw@) is None,
{
    proof {
        reveal_strlit("<Control>");
        reveal_strlit("<Alt>");
        reveal_strlit("<Shift>");
        reveal_strlit("<Super>");
    }
    let n = raw.unicode_len();
    let mut pos: usize = 0;
    let mut mods: Vec<ModKey> = Vec::new();
    proof {
        assert(raw@.skip(0) =~= raw@);
        match spec_parse_native(raw@) {
            Option::Some(p) => {
                assert(Seq::<ModKey>::empty() + p.0 =~= p.0);
            },
            Option::None => {},
        }
    }
    loop
        invariant
            0 <= pos <= n,
            n == raw@.len(),
            spec_parse_native(raw@) == compose_parse(
                mods@,
                spec_parse_native(raw@.skip(pos as int)),
            ),
        ensures
            0 <= pos < n,
            n == raw@.len(),
            raw@[pos as int] != '<',
            spec_parse_native(raw@) == compose_parse(
                mods@,
                spec_parse_native(raw@.skip(pos as int)),
            ),
        decreases n - pos,
    {
        if pos == n {
            proof {
                assert(raw@.skip(pos as int) =~= Seq::<char>::empty());
            }
            return Option::None;
        }
        let c = raw.get_char(pos);
        proof {
            assert(raw@.skip(pos as int)[0] == raw@[pos as int]);
        }
        if c != '<' {
            break;
        }
        let ghost suffix = raw@.skip(pos as int);
        proof {
            reveal_strlit("<Control>");
            reveal_strlit("<Alt>");
            reveal_strlit("<Shift>");
            reveal_strlit("<Super>");
            text::lemma_match_skip(raw@, "<Control>"@, pos as int);
            text::lemma_match_skip(raw@, "<Alt>"@, pos as int);
            text::lemma_match_skip(raw@, "<Shift>"@, pos as int);
            text::lemma_match_skip(raw@, "<Super>"@, pos as int);
        }
        if n - pos >= 9 && text::str_match_at(raw, "<Control>", pos) {
            proof {
                assert(suffix.skip(9) =~= raw@.skip(pos + 9));
                let o = spec_parse_native(suffix.skip(9));
                assert(spec_parse_native(suffix) == compose_parse(seq![ModKey::Control], o));
                match o {
                    Option::Some(p) => {
                        assert(mods@ + (seq![ModKey::Control] + p.0) =~= mods@.push(
                            ModKey::Control,
                        ) + p.0);
                    },
                    Option::None => {},
                }
            }
            mods.push(ModKey::Control);
            pos += 9;
        } else if n - pos >= 5 && text::str_match_at(raw, "<Alt>", pos) {
            proof {
                assert(suffix.skip(5) =~= raw@.skip(pos + 5));
                let o = spec_parse_native(suffix.skip(5));
                assert(spec_parse_native(suffix) == compose_parse(seq![ModKey::Alt], o));
                match o {
                    Option::Some(p) => {
                        assert(mods@ + (seq![ModKey::Alt] + p.0) =~= mods@.push(ModKey::Alt) + p.0);
                    },
                    Option::None => {},
                }
            }
            mods.push(ModKey::Alt);
            pos += 5;
        } else if n - pos >= 7 && text::str_match_at(raw, "<Shift>", pos) {
            proof {
                assert(suffix.skip(7) =~= raw@.skip(pos + 7));
                let o = spec_parse_native(suffix.skip(7));
                assert(spec_parse_native(suffix) == compose_parse(seq![ModKey::Shift], o));
                match o {
                    Option::Some(p) => {
                        assert(mods@ + (seq![ModKey::Shift] + p.0) =~= mods@.push(ModKey::Shift)
                            + p.0);
                    },
                    Option::None => {},
                }
            }
            mods.push(ModKey::Shift);
            pos += 7;
        } else if n - pos >= 7 && text::str_match_at(raw, "<Super>", pos) {
            proof {
                assert(suffix.skip(7) =~= raw@.skip(pos + 7));
                let o = spec_parse_native(suffix.skip(7));
                assert(spec_parse_native(suffix) == compose_parse(seq![ModKey::Super], o));
                match o {
                    Option::Some(p) => {
                        assert(mods@ + (seq![ModKey::Super] + p.0) =~= mods@.push(ModKey::Super)
                            + p.0);
                    },
                    Option::None => {},
                }
            }
            mods.push(ModKey::Super);
            pos += 7;
        } else {
            proof {
                assert(spec_parse_native(suffix) is None);
            }
            return Option::None;
        }
    }
    let ghost suffix = raw@.skip(pos as int);
    proof {
        assert(suffix[0] == raw@[pos as int]);
    }
    let mut i: usize = pos;
    while i < n
        invariant
            pos <= i <= n,
            pos < n,
            n == raw@.len(),
            suffix == raw@.skip(pos as int),
            suffix.len() == n - pos,
            suffix[0] != '<',
            spec_parse_native(raw@) == compose_parse(mods@, spec_parse_native(suffix)),
            forall|k: int| pos <= k < i ==> raw@[k] != '<' && raw@[k] != '>' && raw@[k] != '+',
        decreases n - i,
    {
        let c = raw.get_char(i);
        if c == '<' || c == '>' || c == '+' {
            proof {
                assert(suffix[i - pos] == raw@[i as int]);
                assert(!key_ok(suffix));
                assert(spec_parse_native(suffix) is None);
            }
            return Option::None;
        }
        i += 1;
    }
    proof {
        assert(forall|k: int| 0 <= k < suffix.len() ==> suffix[k] == raw@[k + pos]);
        assert(key_ok(suffix));
        assert(suffix[0] != '<');
        assert(spec_parse_native(suffix) == Option::Some((Seq::<ModKey>::empty(), suffix)));
        assert(mods@ + Seq::<ModKey>::empty() =~= mods@);
    }
    let key_slice = raw.substring_char(pos, n);
    proof {
        assert(key_slice@ =~= suffix);
    }
    Option::Some(Chord { mods, key: key_slice.to_owned() })
}

/// Renders a chord in its display form.
pub fn chord_display(c: &Chord) -> (r: String)
    ensures
        r@ == display_form(c.mods@, c.key@),
{
    let mut out = String::new();
    let mut i: usize = 0;
    proof {
        assert(c.mods@.take(0) =~= Seq::<ModKey>::empty());
    }
    while i < c.mods.len()
        invariant
            0 <= i <= c.mods@.len(),
            out@ == display_mods(c.mods@.take(i as int)),
        decreases c.mods@.len() - i,
    {
        let m = c.mods[i];
        match m {
            ModKey::Control => out.append("Ctrl+"),
            ModKey::Alt => out.append("Alt+"),
            ModKey::Shift => out.append("Shift+"),
            ModKey::Super => out.append("Super+"),
        }
        proof {
            lemma_display_mods_snoc(c.mods@.take(i as int), m);
            assert(c.mods@.take(i + 1) =~= c.mods@.take(i as int).push(m));
        }
        i += 1;
    }
    proof {
        assert(c.mods@.take(c.mods@.len() as int) =~= c.mods@);
    }
    let upper = text::to_ascii_upper(c.key.as_str());
    out.append(upper.as_str());
    out
}

/// A sound key stays sound under upper-casing.
proof fn lemma_upper_key_ok(key: Seq<char>)
    requires
        key_ok(key),
    ensures
        key_ok(text::upper_seq(key)),
{
    assert forall|i: int| 0 <= i < text::upper_seq(key).len() implies text::upper_seq(key)[i] != '<'
        && text::upper_seq(key)[i] != '>' && text::upper_seq(key)[i] != '+' by {
        assert(text::upper_seq(key)[i] == text::upper_char(key[i]));
    }
}

/// Reading a chord's native form back yields exactly its modifiers and
/// key: the native encoding is lossless.
pub proof fn lemma_native_round_trip(mods: Seq<ModKey>, key: Seq<char>)
    requires
        chord_wf(mods, key),
    ensures
        spec_parse_native(native_form(mods, key)) == Option::Some((mods, key)),
    decreases mods.len(),
{
    reveal_strlit("<Control>");
    reveal_strlit("<Alt>");
    reveal_strlit("<Shift>");
    reveal_strlit("<Super>");
    let s = native_form(mods, key);
    if mods.len() == 0 {
        assert(s =~= key);
        assert(Seq::<ModKey>::empty() =~= mods);
    } else {
        let m = mods[0];
        let rest = mods.drop_first();
        let tail = native_form(rest, key);
        assert(s =~= native_token(m) + tail);
        assert(tail.len() > 0);
        lemma_native_round_trip(rest, key);
        assert(seq![m] + rest =~= mods);
        match m {
            ModKey::Control => {
                assert(s.subrange(0, 9) =~= "<Control>"@);
                assert(s.skip(9) =~= tail);
            },
            ModKey::Alt => {
                assert(s[1] == 'A');
                if s.len() >= 9 && text::match_at(s, "<Control>"@, 0) {
                    assert(s.subrange(0, 9)[1] == s[1]);
                    assert(false);
                }
                assert(s.subrange(0, 5) =~= "<Alt>"@);
                assert(s.skip(5) =~= tail);
            },
            ModKey::Shift => {
                assert(s[1] == 'S');
                if s.len() >= 9 && text::match_at(s, "<Control>"@, 0) {
                    assert(s.subrange(0, 9)[1] == s[1]);
                    assert(false);
                }
                if s.len() >= 5 && text::match_at(s, "<Alt>"@, 0) {
                    assert(s.subrange(0, 5)[1] == s[1]);
                    assert(false);
                }
                assert(s.subrange(0, 7) =~= "<Shift>"@);
                assert(s.skip(7) =~= tail);
            },
            ModKey::Super => {
                assert(s[1] == 'S');
                assert(s[2] == 'u');
                if s.len() >= 9 && text::match_at(s, "<Control>"@, 0) {
                    assert(s.subrange(0, 9)[1] == s[1]);
                    assert(false);
                }
                if s.len() >= 5 && text::match_at(s, "<Alt>"@, 0) {
                    assert(s.subrange(0, 5)[1] == s[1]);
                    assert(false);
                }
                if s.len() >= 7 && text::match_at(s, "<Shift>"@, 0) {
                    assert(s.subrange(0, 7)[2] == s[2]);
                    assert(false);
                }
                assert(s.subrange(0, 7) =~= "<Super>"@);
                assert(s.skip(7) =~= tail);
            },
        }
    }
}

/// Reading a chord's display form back recovers the modifier set
/// unchanged and the key in its upper-cased normal form.
pub proof fn lemma_display_round_trip(mods: Seq<ModKey>, key: Seq<char>)
    requires
        chord_wf(mods, key),
    ensures
        spec_parse_display(display_form(mods, key)) == Option::Some((mods, text::upper_seq(key))),
    decreases mods.len(),
{
    reveal_strlit("Ctrl+");
    reveal_strlit("Alt+");
    reveal_strlit("Shift+");
    reveal_strlit("Super+");
    let s = display_form(mods, key);
    let up = text::upper_seq(key);
    lemma_upper_key_ok(key);
    if mods.len() == 0 {
        assert(s =~= up);
        if s.len() >= 5 && text::match_at(s, "Ctrl+"@, 0) {
            assert(s.subrange(0, 5)[4] == s[4]);
            assert(false);
        }
        if s.len() >= 4 && text::match_at(s, "Alt+"@, 0) {
            assert(s.subrange(0, 4)[3] == s[3]);
            assert(false);
        }
        if s.len() >= 6 && text::match_at(s, "Shift+"@, 0) {
            assert(s.subrange(0, 6)[5] == s[5]);
            assert(false);
        }
        if s.len() >= 6 && text::match_at(s, "Super+"@, 0) {
            assert(s.subrange(0, 6)[5] == s[5]);
            assert(false);
        }
        assert(Seq::<ModKey>::empty() =~= mods);
    } else {
        let m = mods[0];
        let rest = mods.drop_first();
        let tail = display_form(rest, key);
        assert(s =~= display_token(m) + tail);
        assert(tail.len() > 0);
        lemma_display_round_trip(rest, key);
        assert(seq![m] + rest =~= mods);
        match m {
            ModKey::Control => {
                assert(s.subrange(0, 5) =~= "Ctrl+"@);
                assert(s.skip(5) =~= tail);
            },
            ModKey::Alt => {
                assert(s[0] == 'A');
                if s.len() >= 5 && text::match_at(s, "Ctrl+"@, 0) {
                    assert(s.subrange(0, 5)[0] == s[0]);
                    assert(false);
                }
                assert(s.subrange(0, 4) =~= "Alt+"@);
                assert(s.skip(4) =~= tail);
            },
            ModKey::Shift => {
                assert(s[0] == 'S');
                if s.len() >= 5 && text::match_at(s, "Ctrl+"@, 0) {
                    assert(s.subrange(0, 5)[0] == s[0]);
                    assert(false);
                }
                if s.len() >= 4 && text::match_at(s, "Alt+"@, 0) {
                    assert(s.subrange(0, 4)[0] == s[0]);
                    assert(false);
                }
                assert(s.subrange(0, 6) =~= "Shift+"@);
                assert(s.skip(6) =~= tail);
            },
            ModKey::Super => {
                assert(s[0] == 'S');
                assert(s[1] == 'u');
                if s.len() >= 5 && text::match_at(s, "Ctrl+"@, 0) {
                    assert(s.subrange(0, 5)[0] == s[0]);
                    assert(false);
                }
                if s.len() >= 4 && text::match_at(s, "Alt+"@, 0) {
                    assert(s.subrange(0, 4)[0] == s[0]);
                    assert(false);
                }
                if s.len() >= 6 && text::match_at(s, "Shift+"@, 0) {
                    assert(s.subrange(0, 6)[1] == s[1]);
                    assert(false);
                }
                assert(s.subrange(0, 6) =~= "Super+"@);
                assert(s.skip(6) =~= tail);
            },
        }
    }
}

/// Round trip: converting a chord's native configuration-database form
/// yields its display form, and reading the display form back recovers
/// the modifier set losslessly; only the trailing key is normalized to
/// upper case.
pub proof fn lemma_chord_round_trip(mods: Seq<ModKey>, key: Seq<char>)
    requires
        chord_wf(mods, key),
    ensures
        spec_convert(native_form(mods, key)) == display_form(mods, key),
        spec_parse_display(display_form(mods, key)) == Option::Some((mods, text::upper_seq(key))),
{
    lemma_native_round_trip(mods, key);
    lemma_display_round_trip(mods, key);
}

/// Converts a configuration-database native value to the display form:
/// each modifier token becomes its display name plus "+", and only the
/// trailing key is upper-cased. Text that encodes no chord is simply
/// upper-cased.
pub fn convert_gvariant_shortcut(raw: &str) -> (r: String)
    ensures
        r@ == spec_convert(raw@),
{
    match chord_from_native(raw) {
        Option::Some(c) => chord_display(&c),
        Option::None => text::to_ascii_upper(raw),
    }
}

} // verus!
