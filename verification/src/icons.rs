//! The icon mapper: a total function from weather symbol codes to glyphs of
//! an icon font.
//!
//! A symbol code has the form `base` or `base_suffix`; only the base picks
//! the glyph. Every glyph in the table is two characters: the icon itself and
//! a trailing space. Codes outside the table, including the empty code of an
//! hour without a forecast, fall back to a default glyph.

use vstd::prelude::*;
use vstd::string::StrSliceExecFns;

verus! {

/// The glyph rendered for a symbol code that is not in the table,
/// including the empty code of an hour with no forecast.
pub open spec fn default_glyph() -> Seq<char> {
    "\u{f071} "@
}

/// Index of the first `'_'` in `s`, or `s.len()` when there is none.
pub open spec fn split_pos(s: Seq<char>) -> nat
    decreases s.len(),
{
    if s.len() == 0 {
        0
    } else if s[0] == '_' {
        0
    } else {
        (1 + split_pos(s.skip(1))) as nat
    }
}

/// The base of a symbol code: everything before the first `'_'`,
/// or the whole code when it has no underscore.
pub open spec fn base_of(s: Seq<char>) -> Seq<char> {
    s.take(split_pos(s) as int)
}

/// The fixed lookup table: one glyph for each known base code,
/// the default glyph for everything else.
pub open spec fn glyph_for_base(base: Seq<char>) -> Seq<char> {
    if base == "clearsky"@ {
        "\u{f06e} "@
    } else if base == "cloudy"@ {
        "\u{f013} "@
    } else if base == "fair"@ {
        "\u{f002} "@
    } else if base == "fog"@ {
        "\u{f014} "@
    } else if base == "heavyrain"@ {
        "\u{f019} "@
    } else if base == "heavyrainandthunder"@ {
        "\u{f01e} "@
    } else if base == "heavyrainshowers"@ {
        "\u{f008} "@
    } else if base == "heavyrainshowersandthunder"@ {
        "\u{f010} "@
    } else if base == "heavysleet"@ {
        "\u{f0b5} "@
    } else if base == "heavysleetandthunder"@ {
        "\u{f0b5} "@
    } else if base == "heavysleetshowers"@ {
        "\u{f0b2} "@
    } else if base == "heavysleetshowersandthunder"@ {
        "\u{f0b2} "@
    } else if base == "heavysnow"@ {
        "\u{f01b} "@
    } else if base == "heavysnowandthunder"@ {
        "\u{f06c} "@
    } else if base == "heavysnowshowers"@ {
        "\u{f00a} "@
    } else if base == "heavysnowshowersandthunder"@ {
        "\u{f06b} "@
    } else if base == "lightrain"@ {
        "\u{f01a} "@
    } else if base == "lightrainandthunder"@ {
        "\u{f01d} "@
    } else if base == "lightrainshowers"@ {
        "\u{f009} "@
    } else if base == "lightrainshowersandthunder"@ {
        "\u{f00e} "@
    } else if base == "lightsleet"@ {
        "\u{f017} "@
    } else if base == "lightsleetandthunder"@ {
        "\u{f017} "@
    } else if base == "lightsleetshowers"@ {
        "\u{f006} "@
    } else if base == "lightsnow"@ {
        "\u{f064} "@
    } else if base == "lightsnowandthunder"@ {
        "\u{f064} "@
    } else if base == "lightsnowshowers"@ {
        "\u{f065} "@
    } else if base == "lightssleetshowersandthunder"@ {
        "\u{f068} "@
    } else if base == "lightssnowshowersandthunder"@ {
        "\u{f06b} "@
    } else if base == "partlycloudy"@ {
        "\u{f002} "@
    } else if base == "rain"@ {
        "\u{f01a} "@
    } else if base == "rainandthunder"@ {
        "\u{f01d} "@
    } else if base == "rainshowers"@ {
        "\u{f009} "@
    } else if base == "rainshowersandthunder"@ {
        "\u{f00e} "@
    } else if base == "sleet"@ {
        "\u{f0b5} "@
    } else if base == "sleetandthunder"@ {
        "\u{f0b5} "@
    } else if base == "sleetshowers"@ {
        "\u{f0b2} "@
    } else if base == "sleetshowersandthunder"@ {
        "\u{f0b2} "@
    } else if base == "snow"@ {
        "\u{f01b} "@
    } else if base == "snowandthunder"@ {
        "\u{f06c} "@
    } else if base == "snowshowers"@ {
        "\u{f00a} "@
    } else if base == "snowshowersandthunder"@ {
        "\u{f06b} "@
    } else {
        default_glyph()
    }
}

/// The glyph for a full symbol code: strip the suffix, then look up the base.
pub open spec fn spec_symbol_icon(code: Seq<char>) -> Seq<char> {
    glyph_for_base(base_of(code))
}

/// `split_pos(s) == i` exactly when no underscore stands before `i`
/// and `i` is an underscore or the end of `s`.
proof fn lemma_split_pos_at(s: Seq<char>, i: int)
    requires
        0 <= i <= s.len(),
        forall|j: int| 0 <= j < i ==> s[j] != '_',
        i == s.len() || s[i] == '_',
    ensures
        split_pos(s) == i,
    decreases i,
{
    if i == 0 {
    } else {
        assert(s[0] != '_');
        let t = s.skip(1);
        assert forall|j: int| 0 <= j < i - 1 implies t[j] != '_' by {
            assert(t[j] == s[j + 1]);
        }
        if i < s.len() {
            assert(t[i - 1] == s[i]);
        }
        lemma_split_pos_at(t, i - 1);
    }
}

/// Law: the suffix after the first underscore never affects the icon.
/// A bare base code and the same code with an underscore and any suffix
/// appended map to the same glyph.
pub proof fn lemma_suffix_ignored(base: Seq<char>, suffix: Seq<char>)
    requires
        !base.contains('_'),
    ensures
        spec_symbol_icon(base + seq!['_'] + suffix) == spec_symbol_icon(base),
{
    let n = base.len() as int;
    let full = base + seq!['_'] + suffix;
    assert forall|j: int| 0 <= j < n implies full[j] != '_' by {
        assert(full[j] == base[j]);
    }
    assert(full[n] == '_');
    lemma_split_pos_at(full, n);
    lemma_split_pos_at(base, n);
    assert(full.take(n) =~= base);
    assert(base.take(n) =~= base);
}

/// Law: the mapping is total and every glyph it yields has exactly two
/// characters, the icon and a trailing space; in particular it is never empty.
pub proof fn lemma_icon_len(code: Seq<char>)
    ensures
        spec_symbol_icon(code).len() == 2,
{
    reveal_strlit("\u{f06e} ");
    reveal_strlit("\u{f013} ");
    reveal_strlit("\u{f002} ");
    reveal_strlit("\u{f014} ");
    reveal_strlit("\u{f019} ");
    reveal_strlit("\u{f01e} ");
    reveal_strlit("\u{f008} ");
    reveal_strlit("\u{f010} ");
    reveal_strlit("\u{f0b5} ");
    reveal_strlit("\u{f0b2} ");
    reveal_strlit("\u{f01b} ");
    reveal_strlit("\u{f06c} ");
    reveal_strlit("\u{f00a} ");
    reveal_strlit("\u{f06b} ");
    reveal_strlit("\u{f01a} ");
    reveal_strlit("\u{f01d} ");
    reveal_strlit("\u{f009} ");
    reveal_strlit("\u{f00e} ");
    reveal_strlit("\u{f017} ");
    reveal_strlit("\u{f006} ");
    reveal_strlit("\u{f064} ");
    reveal_strlit("\u{f065} ");
    reveal_strlit("\u{f068} ");
    reveal_strlit("\u{f071} ");
}

/// Character-by-character string equality, proved against the string views.
fn str_eq(a: &str, b: &str) -> (r: bool)
    ensures
        r == (a@ == b@),
{
    let an = a.unicode_len();
    let bn = b.unicode_len();
    if an != bn {
        proof {
            assert(a@ != b@);
        }
        return false;
    }
    let mut i: usize = 0;
    while i < an
        invariant
            an == a@.len(),
            an == b@.len(),
            i <= an,
            forall|j: int| 0 <= j < i ==> a@[j] == b@[j],
        decreases an - i,
    {
        if a.get_char(i) != b.get_char(i) {
            proof {
                assert(a@[i as int] != b@[i as int]);
            }
            return false;
        }
        i += 1;
    }
    proof {
        assert(a@ =~= b@);
    }
    true
}

/// Maps one weather symbol code to its glyph.
///
/// The code is truncated at its first underscore; the remaining base picks a
/// glyph from the fixed table, and anything outside the table, the empty
/// string included, yields the default glyph. The result is always exactly
/// two characters, so the mapping is total and never produces an empty glyph.
pub fn symbol_icon(value: &str) -> (res: &str)
    ensures
        res@ == spec_symbol_icon(value@),
        res@.len() == 2,
{
    let n = value.unicode_len();
    let mut i: usize = 0;
    while i < n && value.get_char(i) != '_'
        invariant
            n == value@.len(),
            i <= n,
            forall|j: int| 0 <= j < i ==> value@[j] != '_',
        decreases n - i,
    {
        i += 1;
    }
    proof {
        lemma_split_pos_at(value@, i as int);
        lemma_icon_len(value@);
    }
    let base = value.substring_char(0, i);
    if str_eq(base, "clearsky") {
        "\u{f06e} "
    } else if str_eq(base, "cloudy") {
        "\u{f013} "
    } else if str_eq(base, "fair") {
        "\u{f002} "
    } else if str_eq(base, "fog") {
        "\u{f014} "
    } else if str_eq(base, "heavyrain") {
        "\u{f019} "
    } else if str_eq(base, "heavyrainandthunder") {
        "\u{f01e} "
    } else if str_eq(base, "heavyrainshowers") {
        "\u{f008} "
    } else if str_eq(base, "heavyrainshowersandthunder") {
        "\u{f010} "
    } else if str_eq(base, "heavysleet") {
        "\u{f0b5} "
    } else if str_eq(base, "heavysleetandthunder") {
        "\u{f0b5} "
    } else if str_eq(base, "heavysleetshowers") {
        "\u{f0b2} "
    } else if str_eq(base, "heavysleetshowersandthunder") {
        "\u{f0b2} "
    } else if str_eq(base, "heavysnow") {
        "\u{f01b} "
    } else if str_eq(base, "heavysnowandthunder") {
        "\u{f06c} "
    } else if str_eq(base, "heavysnowshowers") {
        "\u{f00a} "
    } else if str_eq(base, "heavysnowshowersandthunder") {
        "\u{f06b} "
    } else if str_eq(base, "lightrain") {
        "\u{f01a} "
    } else if str_eq(base, "lightrainandthunder") {
        "\u{f01d} "
    } else if str_eq(base, "lightrainshowers") {
        "\u{f009} "
    } else if str_eq(base, "lightrainshowersandthunder") {
        "\u{f00e} "
    } else if str_eq(base, "lightsleet") {
        "\u{f017} "
    } else if str_eq(base, "lightsleetandthunder") {
        "\u{f017} "
    } else if str_eq(base, "lightsleetshowers") {
        "\u{f006} "
    } else if str_eq(base, "lightsnow") {
        "\u{f064} "
    } else if str_eq(base, "lightsnowandthunder") {
        "\u{f064} "
    } else if str_eq(base, "lightsnowshowers") {
        "\u{f065} "
    } else if str_eq(base, "lightssleetshowersandthunder") {
        "\u{f068} "
    } else if str_eq(base, "lightssnowshowersandthunder") {
        "\u{f06b} "
    } else if str_eq(base, "partlycloudy") {
        "\u{f002} "
    } else if str_eq(base, "rain") {
        "\u{f01a} "
    } else if str_eq(base, "rainandthunder") {
        "\u{f01d} "
    } else if str_eq(base, "rainshowers") {
        "\u{f009} "
    } else if str_eq(base, "rainshowersandthunder") {
        "\u{f00e} "
    } else if str_eq(base, "sleet") {
        "\u{f0b5} "
    } else if str_eq(base, "sleetandthunder") {
        "\u{f0b5} "
    } else if str_eq(base, "sleetshowers") {
        "\u{f0b2} "
    } else if str_eq(base, "sleetshowersandthunder") {
        "\u{f0b2} "
    } else if str_eq(base, "snow") {
        "\u{f01b} "
    } else if str_eq(base, "snowandthunder") {
        "\u{f06c} "
    } else if str_eq(base, "snowshowers") {
        "\u{f00a} "
    } else if str_eq(base, "snowshowersandthunder") {
        "\u{f06b} "
    } else {
        "\u{f071} "
    }
}

} // verus!
