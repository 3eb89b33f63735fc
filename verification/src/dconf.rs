//! Best-effort recovery of the bound shortcut from a text dump of the
//! desktop's hierarchical configuration database. The dump is scanned
//! line by line for an entry naming both the toggle shortcut identifier
//! and a "shortcuts" key; the bound trigger is taken from the bracketed,
//! single-quoted list literal on that line and converted to display form.

use vstd::prelude::*;
use vstd::string::StrSliceExecFns;

use crate::chord;
use crate::text;

verus! {

/// The length of the first line of `s` (the characters before the first
/// line break).
pub open spec fn line_len(s: Seq<char>) -> nat
    decreases s.len(),
{
    if s.len() == 0 {
        0
    } else if s[0] == '\n' {
        0
    } else {
        1 + line_len(s.drop_first())
    }
}

proof fn lemma_line_len_char(s: Seq<char>, j: int)
    requires
        0 <= j <= s.len(),
        forall|k: int| 0 <= k < j ==> s[k] != '\n',
        j < s.len() ==> s[j] == '\n',
    ensures
        line_len(s) == j,
    decreases j,
{
    if j == 0 {
    } else {
        assert(s[0] != '\n');
        let t = s.drop_first();
        assert(forall|k: int| 0 <= k < j - 1 ==> t[k] == s[k + 1]);
        assert(j - 1 < t.len() ==> t[j - 1] == s[j as int]);
        lemma_line_len_char(t, j - 1);
    }
}

/// What one dump line yields: for a line naming both the shortcut
/// identifier and the "shortcuts" key, the text between the first "<['"
/// and the first "']>" following it; every other line yields nothing.
pub open spec fn spec_line_value(l: Seq<char>) -> Option<Seq<char>> {
    if text::contains_seq(l, "toggle-recording"@) && text::contains_seq(l, "shortcuts"@) {
        match text::first_match_from(l, "<['"@, 0) {
            Option::Some(i) => match text::first_match_from(l, "']>"@, i) {
                Option::Some(j) => if j >= i + 3 {
                    Option::Some(l.subrange(i + 3, j))
                } else {
                    Option::None
                },
                Option::None => Option::None,
            },
            Option::None => Option::None,
        }
    } else {
        Option::None
    }
}

/// The raw native value the dump scan yields: the first line with a
/// value decides; lines without one are passed over.
pub open spec fn spec_scan_dump(s: Seq<char>) -> Option<Seq<char>>
    decreases s.len(),
{
    let cl = if line_len(s) <= s.len() {
        line_len(s) as int
    } else {
        s.len() as int
    };
    match spec_line_value(s.take(cl)) {
        Option::Some(v) => Option::Some(v),
        Option::None => if cl == s.len() {
            Option::None
        } else {
            spec_scan_dump(s.skip(cl + 1))
        },
    }
}

fn line_value(l: &str) -> (r: Option<String>)
    ensures
        match r {
            Option::Some(v) => spec_line_value(l@) == Option::Some(v@),
            Option::None => spec_line_value(l@) is None,
        },
{
    proof {
        reveal_strlit("<['");
        reveal_strlit("']>");
    }
    let _n: usize = l.unicode_len();
    if text::str_contains(l, "toggle-recording") && text::str_contains(l, "shortcuts") {
        match text::find_first(l, "<['", 0) {
            Option::Some(i) => match text::find_first(l, "']>", i) {
                Option::Some(j) => if j >= i + 3 {
                    let raw = l.substring_char(i + 3, j);
                    Option::Some(raw.to_owned())
                } else {
                    Option::None
                },
                Option::None => Option::None,
            },
            Option::None => Option::None,
        }
    } else {
        Option::None
    }
}

/// Scans a configuration-database dump for the toggle shortcut binding
/// and yields it in display form.
pub fn portal_shortcut_from_dump(dump: &str) -> (r: Option<String>)
    ensures
        r is Some <==> spec_scan_dump(dump@) is Some,
        r matches Option::Some(v) ==> v@ == chord::spec_convert(spec_scan_dump(dump@).unwrap()),
{
    let n = dump.unicode_len();
    let mut pos: usize = 0;
    proof {
        assert(dump@.skip(0) =~= dump@);
    }
    loop
        invariant
            0 <= pos <= n,
            n == dump@.len(),
            spec_scan_dump(dump@) == spec_scan_dump(dump@.skip(pos as int)),
        decreases n - pos,
    {
        let ghost suffix = dump@.skip(pos as int);
        let mut j: usize = pos;
        while j < n
            invariant
                pos <= j <= n,
                n == dump@.len(),
                forall|k: int| pos <= k < j ==> dump@[k] != '\n',
            ensures
                pos <= j <= n,
                forall|k: int| pos <= k < j ==> dump@[k] != '\n',
                j < n ==> dump@[j as int] == '\n',
            decreases n - j,
        {
            let c = dump.get_char(j);
            if c == '\n' {
                break;
            }
            j += 1;
        }
        proof {
            assert(forall|k: int| 0 <= k < j - pos ==> suffix[k] == dump@[k + pos]);
            assert(j - pos < suffix.len() ==> suffix[j - pos] == dump@[j as int]);
            lemma_line_len_char(suffix, j - pos);
            assert(suffix.take(j - pos) =~= dump@.subrange(pos as int, j as int));
        }
        let line = dump.substring_char(pos, j);
        let val = line_value(line);
        match val {
            Option::Some(raw) => {
                proof {
                    assert(spec_scan_dump(suffix) == Option::Some(raw@));
                }
                return Option::Some(chord::convert_gvariant_shortcut(raw.as_str()));
            },
            Option::None => {},
        }
        if j == n {
            proof {
                assert(spec_scan_dump(suffix) is None);
            }
            return Option::None;
        }
        proof {
            assert(suffix.skip(j - pos + 1) =~= dump@.skip(j + 1));
            assert(spec_scan_dump(suffix) == spec_scan_dump(dump@.skip(j + 1)));
        }
        pos = j + 1;
    }
}

} // verus!
