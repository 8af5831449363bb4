//! Library-wide laws: the class-isolated round trips, pass-through of
//! full-width input under widening, and pass-through of characters outside
//! every table.

use vstd::prelude::*;

use crate::convert::{spec_han_to_zen, spec_zen_to_han, spec_zen_to_han_char};
use crate::tables::{
    spec_ascii_hz, spec_ascii_zh, spec_digit_hz, spec_digit_zh, spec_kana_hz, spec_kana_maru_hz,
    spec_kana_maru_zh, spec_kana_ten_hz, spec_kana_ten_zh, spec_kana_zh,
};

verus! {

/// A character that stands in a full-width table of some class: a key of
/// the narrowing pass.
pub open spec fn is_fullwidth(c: char) -> bool {
    spec_ascii_zh(c) is Some || spec_digit_zh(c) is Some || spec_kana_zh(c) is Some
        || spec_kana_ten_zh(c) is Some || spec_kana_maru_zh(c) is Some
}

/// A character that stands in no table at all, in either direction.
pub open spec fn is_unmapped(c: char) -> bool {
    spec_ascii_zh(c) is None && spec_digit_zh(c) is None && spec_kana_zh(c) is None
        && spec_kana_ten_zh(c) is None && spec_kana_maru_zh(c) is None && spec_ascii_hz(
        c,
    ) is None && spec_digit_hz(c) is None && spec_kana_hz(c) is None && spec_kana_ten_hz(
        c,
    ) is None && spec_kana_maru_hz(c) is None
}

/// Narrowing an ASCII character and widening the result lands on a
/// character that narrows to the same half-width form. (The two are not
/// always the same character: two full-width characters narrow to the
/// backslash, so widening picks one of them.)
proof fn lemma_ascii_narrow_widen(c: char)
    requires
        spec_ascii_zh(c) is Some,
    ensures
        spec_ascii_hz(spec_ascii_zh(c)->Some_0) is Some,
        spec_ascii_zh(spec_ascii_hz(spec_ascii_zh(c)->Some_0)->Some_0) == spec_ascii_zh(c),
{
}

/// The digit tables are mutually inverse.
proof fn lemma_digit_narrow_widen(c: char)
    requires
        spec_digit_zh(c) is Some,
    ensures
        spec_digit_hz(spec_digit_zh(c)->Some_0) == Some(c),
{
}

/// The plain kana tables are mutually inverse.
proof fn lemma_kana_narrow_widen(c: char)
    requires
        spec_kana_zh(c) is Some,
    ensures
        spec_kana_hz(spec_kana_zh(c)->Some_0) == Some(c),
{
}

/// The voiced-kana tables are mutually inverse, and a composed voiced kana
/// stands in no earlier table of the narrowing pass.
proof fn lemma_kana_ten_narrow_widen(c: char)
    requires
        spec_kana_ten_zh(c) is Some,
    ensures
        spec_kana_ten_hz(spec_kana_ten_zh(c)->Some_0) == Some(c),
        spec_ascii_zh(c) is None,
        spec_digit_zh(c) is None,
        spec_kana_zh(c) is None,
{
}

/// The semi-voiced-kana tables are mutually inverse, and a composed
/// semi-voiced kana stands in no earlier table of the narrowing pass.
proof fn lemma_kana_maru_narrow_widen(c: char)
    requires
        spec_kana_maru_zh(c) is Some,
    ensures
        spec_kana_maru_hz(spec_kana_maru_zh(c)->Some_0) == Some(c),
        spec_ascii_zh(c) is None,
        spec_digit_zh(c) is None,
        spec_kana_zh(c) is None,
        spec_kana_ten_zh(c) is None,
{
}

/// A full-width character is a key of no widening table.
proof fn lemma_fullwidth_widens_to_itself(c: char)
    requires
        is_fullwidth(c),
    ensures
        spec_ascii_hz(c) is None,
        spec_digit_hz(c) is None,
        spec_kana_hz(c) is None,
        spec_kana_ten_hz(c) is None,
        spec_kana_maru_hz(c) is None,
{
}

/// Narrowing a single character is narrowing that character alone.
proof fn lemma_narrow_one(c: char, ascii: bool, digit: bool, kana: bool)
    ensures
        spec_zen_to_han(seq![c], ascii, digit, kana) == spec_zen_to_han_char(c, ascii, digit, kana),
{
    assert(seq![c].skip(1) =~= Seq::<char>::empty());
    assert(spec_zen_to_han(Seq::<char>::empty(), ascii, digit, kana) == Seq::<char>::empty());
    assert(spec_zen_to_han_char(c, ascii, digit, kana) + Seq::<char>::empty()
        =~= spec_zen_to_han_char(c, ascii, digit, kana));
}

/// Round trip with only the ASCII class enabled: narrowing a full-width
/// ASCII character, widening the result, and narrowing again gives the
/// first narrowing back. (A single narrowing step need not be undone by
/// widening alone: both the full-width backslash and the full-width yen
/// sign narrow to the backslash, which widens to the backslash's
/// full-width form.)
pub proof fn lemma_round_trip_ascii(c: char)
    requires
        spec_ascii_zh(c) is Some,
    ensures
        spec_zen_to_han(
            spec_han_to_zen(spec_zen_to_han(seq![c], true, false, false), true, false, false),
            true,
            false,
            false,
        ) == spec_zen_to_han(seq![c], true, false, false),
{
    let h = spec_ascii_zh(c)->Some_0;
    let z = spec_ascii_hz(h)->Some_0;
    lemma_ascii_narrow_widen(c);
    lemma_narrow_one(c, true, false, false);
    assert(spec_zen_to_han(seq![c], true, false, false) == seq![h]);
    assert(seq![h].skip(1) =~= Seq::<char>::empty());
    assert(spec_han_to_zen(Seq::<char>::empty(), true, false, false) == Seq::<char>::empty());
    assert(spec_han_to_zen(seq![h], true, false, false) =~= seq![z]);
    lemma_narrow_one(z, true, false, false);
}

/// Round trip with only the digit class enabled: narrowing a full-width
/// digit, widening the result, and narrowing again gives the first
/// narrowing back. (Here widening even restores the very character.)
pub proof fn lemma_round_trip_digit(c: char)
    requires
        spec_digit_zh(c) is Some,
    ensures
        spec_zen_to_han(
            spec_han_to_zen(spec_zen_to_han(seq![c], false, true, false), false, true, false),
            false,
            true,
            false,
        ) == spec_zen_to_han(seq![c], false, true, false),
{
    let h = spec_digit_zh(c)->Some_0;
    lemma_digit_narrow_widen(c);
    lemma_narrow_one(c, false, true, false);
    assert(spec_zen_to_han(seq![c], false, true, false) == seq![h]);
    assert(seq![h].skip(1) =~= Seq::<char>::empty());
    assert(spec_han_to_zen(Seq::<char>::empty(), false, true, false) == Seq::<char>::empty());
    assert(spec_han_to_zen(seq![h], false, true, false) =~= seq![c]);
}

/// Round trip with only the katakana class enabled, for every character of
/// the class's full-width tables: plain kana and kana punctuation narrow
/// to one character and widen back to themselves; a composed voiced or
/// semi-voiced kana narrows to a base kana followed by the standalone
/// mark, and widening contracts that pair back into the composed
/// character.
pub proof fn lemma_round_trip_kana(c: char)
    requires
        spec_kana_zh(c) is Some || spec_kana_ten_zh(c) is Some || spec_kana_maru_zh(c) is Some,
    ensures
        spec_zen_to_han(
            spec_han_to_zen(spec_zen_to_han(seq![c], false, false, true), false, false, true),
            false,
            false,
            true,
        ) == spec_zen_to_han(seq![c], false, false, true),
{
    lemma_narrow_one(c, false, false, true);
    assert(spec_han_to_zen(Seq::<char>::empty(), false, false, true) == Seq::<char>::empty());
    if spec_kana_zh(c) is Some {
        let h = spec_kana_zh(c)->Some_0;
        lemma_kana_narrow_widen(c);
        assert(spec_zen_to_han(seq![c], false, false, true) == seq![h]);
        assert(seq![h].skip(1) =~= Seq::<char>::empty());
        assert(spec_han_to_zen(seq![h], false, false, true) =~= seq![c]);
    } else if spec_kana_ten_zh(c) is Some {
        let b = spec_kana_ten_zh(c)->Some_0;
        lemma_kana_ten_narrow_widen(c);
        assert(spec_zen_to_han(seq![c], false, false, true) == seq![b, '\u{FF9E}']);
        assert(seq![b, '\u{FF9E}'].skip(2) =~= Seq::<char>::empty());
        assert(spec_han_to_zen(seq![b, '\u{FF9E}'], false, false, true) =~= seq![c]);
    } else {
        let b = spec_kana_maru_zh(c)->Some_0;
        lemma_kana_maru_narrow_widen(c);
        assert(spec_zen_to_han(seq![c], false, false, true) == seq![b, '\u{FF9F}']);
        assert(seq![b, '\u{FF9F}'].skip(2) =~= Seq::<char>::empty());
        assert(spec_han_to_zen(seq![b, '\u{FF9F}'], false, false, true) =~= seq![c]);
    }
}

/// Widening leaves full-width input unchanged, whatever the flags: the
/// keys of every widening table are half-width forms.
pub proof fn lemma_widen_fullwidth_passthrough(s: Seq<char>, ascii: bool, digit: bool, kana: bool)
    requires
        forall|i: int| 0 <= i < s.len() ==> is_fullwidth(#[trigger] s[i]),
    ensures
        spec_han_to_zen(s, ascii, digit, kana) == s,
    decreases s.len(),
{
    if s.len() == 0 {
        assert(spec_han_to_zen(s, ascii, digit, kana) =~= s);
    } else {
        let c = s[0];
        assert(is_fullwidth(c));
        lemma_fullwidth_widens_to_itself(c);
        assert forall|i: int| 0 <= i < s.skip(1).len() implies is_fullwidth(
            #[trigger] s.skip(1)[i],
        ) by {
            assert(s.skip(1)[i] == s[i + 1]);
        }
        lemma_widen_fullwidth_passthrough(s.skip(1), ascii, digit, kana);
        assert(spec_han_to_zen(s, ascii, digit, kana) == seq![c] + s.skip(1));
        assert(seq![c] + s.skip(1) =~= s);
    }
}

/// A string of characters that stand in no table passes through both
/// transforms unchanged, whatever the flags.
pub proof fn lemma_unmapped_passthrough(s: Seq<char>, ascii: bool, digit: bool, kana: bool)
    requires
        forall|i: int| 0 <= i < s.len() ==> is_unmapped(#[trigger] s[i]),
    ensures
        spec_zen_to_han(s, ascii, digit, kana) == s,
        spec_han_to_zen(s, ascii, digit, kana) == s,
    decreases s.len(),
{
    if s.len() == 0 {
        assert(spec_zen_to_han(s, ascii, digit, kana) =~= s);
        assert(spec_han_to_zen(s, ascii, digit, kana) =~= s);
    } else {
        let c = s[0];
        assert(is_unmapped(c));
        assert forall|i: int| 0 <= i < s.skip(1).len() implies is_unmapped(
            #[trigger] s.skip(1)[i],
        ) by {
            assert(s.skip(1)[i] == s[i + 1]);
        }
        lemma_unmapped_passthrough(s.skip(1), ascii, digit, kana);
        assert(spec_zen_to_han_char(c, ascii, digit, kana) == seq![c]);
        assert(spec_zen_to_han(s, ascii, digit, kana) == seq![c] + s.skip(1));
        assert(spec_han_to_zen(s, ascii, digit, kana) == seq![c] + s.skip(1));
        assert(seq![c] + s.skip(1) =~= s);
    }
}

} // verus!
