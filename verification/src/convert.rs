//! The two transformation passes: `zen_to_han` (full-width to half-width)
//! and `han_to_zen` (half-width to full-width).
//!
//! Each pass walks the input left to right and consults the class tables in
//! a fixed priority order: ASCII, then digits, then katakana, each guarded
//! by its enable flag. `zen_to_han` may emit two characters for one input
//! character (a composed voiced kana becomes a base kana plus a standalone
//! mark); `han_to_zen` looks one character ahead and may consume two input
//! characters for one output character (a base kana followed by a mark
//! contracts to the composed form). The spec functions below state the
//! result of each pass exactly, and the executable functions are proved to
//! return it.

use vstd::prelude::*;

use crate::tables::{
    ascii_hz, ascii_zh, digit_hz, digit_zh, kana_hz, kana_maru_hz, kana_maru_zh, kana_ten_hz,
    kana_ten_zh, kana_zh, spec_ascii_hz, spec_ascii_zh, spec_digit_hz, spec_digit_zh,
    spec_kana_hz, spec_kana_maru_hz, spec_kana_maru_zh, spec_kana_ten_hz, spec_kana_ten_zh,
    spec_kana_zh,
};

verus! {

/// What `zen_to_han` emits for the single character `c`: the half-width
/// counterpart from the first enabled table that has `c` as a key, a
/// half-width base kana followed by the standalone voiced or semi-voiced
/// mark for a composed kana, or `c` itself when no enabled table has it.
pub open spec fn spec_zen_to_han_char(c: char, ascii: bool, digit: bool, kana: bool) -> Seq<
    char,
> {
    if ascii && spec_ascii_zh(c) is Some {
        seq![spec_ascii_zh(c)->Some_0]
    } else if digit && spec_digit_zh(c) is Some {
        seq![spec_digit_zh(c)->Some_0]
    } else if kana && spec_kana_zh(c) is Some {
        seq![spec_kana_zh(c)->Some_0]
    } else if kana && spec_kana_ten_zh(c) is Some {
        seq![spec_kana_ten_zh(c)->Some_0, '\u{FF9E}']
    } else if kana && spec_kana_maru_zh(c) is Some {
        seq![spec_kana_maru_zh(c)->Some_0, '\u{FF9F}']
    } else {
        seq![c]
    }
}

/// The full-width to half-width pass over a whole sequence: the
/// concatenation of what each character emits, in order.
pub open spec fn spec_zen_to_han(s: Seq<char>, ascii: bool, digit: bool, kana: bool) -> Seq<char>
    decreases s.len(),
{
    if s.len() == 0 {
        Seq::empty()
    } else {
        spec_zen_to_han_char(s[0], ascii, digit, kana) + spec_zen_to_han(
            s.skip(1),
            ascii,
            digit,
            kana,
        )
    }
}

/// The half-width to full-width pass. The first character is looked up in
/// the enabled tables in priority order; when the katakana class is enabled
/// and the character is a base kana whose composed form exists, a directly
/// following standalone voiced or semi-voiced mark is consumed together
/// with it and the composed full-width kana is emitted in their place.
pub open spec fn spec_han_to_zen(s: Seq<char>, ascii: bool, digit: bool, kana: bool) -> Seq<char>
    decreases s.len(),
{
    if s.len() == 0 {
        Seq::empty()
    } else {
        let c = s[0];
        if ascii && spec_ascii_hz(c) is Some {
            seq![spec_ascii_hz(c)->Some_0] + spec_han_to_zen(s.skip(1), ascii, digit, kana)
        } else if digit && spec_digit_hz(c) is Some {
            seq![spec_digit_hz(c)->Some_0] + spec_han_to_zen(s.skip(1), ascii, digit, kana)
        } else if kana && s.len() >= 2 && s[1] == '\u{FF9E}' && spec_kana_ten_hz(c) is Some {
            seq![spec_kana_ten_hz(c)->Some_0] + spec_han_to_zen(s.skip(2), ascii, digit, kana)
        } else if kana && s.len() >= 2 && s[1] == '\u{FF9F}' && spec_kana_maru_hz(c) is Some {
            seq![spec_kana_maru_hz(c)->Some_0] + spec_han_to_zen(s.skip(2), ascii, digit, kana)
        } else if kana && spec_kana_hz(c) is Some {
            seq![spec_kana_hz(c)->Some_0] + spec_han_to_zen(s.skip(1), ascii, digit, kana)
        } else {
            seq![c] + spec_han_to_zen(s.skip(1), ascii, digit, kana)
        }
    }
}

/// Relies on `String::push`: appends the given character to the end of the
/// string.
#[verifier::external_body]
fn push_char(s: &mut String, c: char)
    ensures
        final(s)@ == old(s)@.push(c),
{
    s.push(c);
}

/// One step of either pass: what stood before the current position, plus
/// what the current position emits, accounts for the pass over the whole
/// input up to the rest.
proof fn lemma_extend(prev: Seq<char>, z: Seq<char>, t1: Seq<char>, t2: Seq<char>, total: Seq<char>)
    requires
        prev + t1 == total,
        t1 == z + t2,
    ensures
        (prev + z) + t2 == total,
{
    assert((prev + z) + t2 =~= prev + (z + t2));
}

/// Converts full-width (zenkaku) characters of the enabled classes to
/// their half-width (hankaku) forms; every other character is copied
/// unchanged.
pub fn zen_to_han(text: &str, ascii: bool, digit: bool, kana: bool) -> (result: String)
    ensures
        result@ == spec_zen_to_han(text@, ascii, digit, kana),
{
    let n = text.unicode_len();
    let mut result = String::new();
    let mut i: usize = 0;
    proof {
        assert(text@.skip(0) =~= text@);
        assert(result@ + spec_zen_to_han(text@, ascii, digit, kana) =~= spec_zen_to_han(
            text@,
            ascii,
            digit,
            kana,
        ));
    }
    while i < n
        invariant
            i <= n,
            n == text@.len(),
            result@ + spec_zen_to_han(text@.skip(i as int), ascii, digit, kana)
                == spec_zen_to_han(text@, ascii, digit, kana),
        decreases n - i,
    {
        let c = text.get_char(i);
        let ghost prev = result@;
        let ghost rest = text@.skip(i as int);
        proof {
            assert(rest[0] == c);
            assert(rest.skip(1) =~= text@.skip(i as int + 1));
        }
        if ascii && ascii_zh(c).is_some() {
            push_char(&mut result, ascii_zh(c).unwrap());
        } else if digit && digit_zh(c).is_some() {
            push_char(&mut result, digit_zh(c).unwrap());
        } else if kana && kana_zh(c).is_some() {
            push_char(&mut result, kana_zh(c).unwrap());
        } else if kana && kana_ten_zh(c).is_some() {
            push_char(&mut result, kana_ten_zh(c).unwrap());
            push_char(&mut result, '\u{FF9E}');
        } else if kana && kana_maru_zh(c).is_some() {
            push_char(&mut result, kana_maru_zh(c).unwrap());
            push_char(&mut result, '\u{FF9F}');
        } else {
            push_char(&mut result, c);
        }
        proof {
            let emit = spec_zen_to_han_char(c, ascii, digit, kana);
            assert(result@ =~= prev + emit);
            assert(spec_zen_to_han(rest, ascii, digit, kana) == emit + spec_zen_to_han(
                text@.skip(i as int + 1),
                ascii,
                digit,
                kana,
            ));
            lemma_extend(
                prev,
                emit,
                spec_zen_to_han(rest, ascii, digit, kana),
                spec_zen_to_han(text@.skip(i as int + 1), ascii, digit, kana),
                spec_zen_to_han(text@, ascii, digit, kana),
            );
        }
        i = i + 1;
    }
    proof {
        assert(text@.skip(n as int) =~= Seq::<char>::empty());
        assert(result@ + Seq::<char>::empty() =~= result@);
    }
    result
}

/// Converts half-width (hankaku) characters of the enabled classes to
/// their full-width (zenkaku) forms, contracting a base kana followed by a
/// standalone voiced or semi-voiced mark into the single composed
/// full-width kana; every other character is copied unchanged.
pub fn han_to_zen(text: &str, ascii: bool, digit: bool, kana: bool) -> (result: String)
    ensures
        result@ == spec_han_to_zen(text@, ascii, digit, kana),
{
    let n = text.unicode_len();
    let mut result = String::new();
    let mut i: usize = 0;
    proof {
        assert(text@.skip(0) =~= text@);
        assert(result@ + spec_han_to_zen(text@, ascii, digit, kana) =~= spec_han_to_zen(
            text@,
            ascii,
            digit,
            kana,
        ));
    }
    while i < n
        invariant
            i <= n,
            n == text@.len(),
            result@ + spec_han_to_zen(text@.skip(i as int), ascii, digit, kana)
                == spec_han_to_zen(text@, ascii, digit, kana),
        decreases n - i,
    {
        let c = text.get_char(i);
        let ghost prev = result@;
        let ghost rest = text@.skip(i as int);
        let mut step: usize = 1;
        proof {
            assert(rest[0] == c);
            assert(rest.skip(1) =~= text@.skip(i as int + 1));
        }
        if ascii && ascii_hz(c).is_some() {
            push_char(&mut result, ascii_hz(c).unwrap());
        } else if digit && digit_hz(c).is_some() {
            push_char(&mut result, digit_hz(c).unwrap());
        } else if kana {
            let ten_next = i + 1 < n && text.get_char(i + 1) == '\u{FF9E}';
            let maru_next = i + 1 < n && text.get_char(i + 1) == '\u{FF9F}';
            proof {
                if i + 1 < n {
                    assert(rest[1] == text@[i as int + 1]);
                    assert(rest.skip(2) =~= text@.skip(i as int + 2));
                }
            }
            if ten_next && kana_ten_hz(c).is_some() {
                push_char(&mut result, kana_ten_hz(c).unwrap());
                step = 2;
            } else if maru_next && kana_maru_hz(c).is_some() {
                push_char(&mut result, kana_maru_hz(c).unwrap());
                step = 2;
            } else if kana_hz(c).is_some() {
                push_char(&mut result, kana_hz(c).unwrap());
            } else {
                push_char(&mut result, c);
            }
        } else {
            push_char(&mut result, c);
        }
        proof {
            let emit = result@.skip(prev.len() as int);
            assert(result@ =~= prev + emit);
            assert(spec_han_to_zen(rest, ascii, digit, kana) == emit + spec_han_to_zen(
                text@.skip(i as int + step as int),
                ascii,
                digit,
                kana,
            ));
            lemma_extend(
                prev,
                emit,
                spec_han_to_zen(rest, ascii, digit, kana),
                spec_han_to_zen(text@.skip(i as int + step as int), ascii, digit, kana),
                spec_han_to_zen(text@, ascii, digit, kana),
            );
        }
        i = i + step;
    }
    proof {
        assert(text@.skip(n as int) =~= Seq::<char>::empty());
        assert(result@ + Seq::<char>::empty() =~= result@);
    }
    result
}

} // verus!
