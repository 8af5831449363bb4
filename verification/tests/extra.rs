use zen_han_converter::{han_to_zen, parse_args, zen_to_han};

// Round trips with one class enabled: narrowing, widening the result and
// narrowing again gives the first narrowing back.

#[test]
fn round_trip_ascii_class() {
    let narrowed = zen_to_han("ＡＺａｚ！？＠　＼￥", true, false, false);
    let widened = han_to_zen(&narrowed, true, false, false);
    assert_eq!(zen_to_han(&widened, true, false, false), narrowed);
}

#[test]
fn round_trip_digit_class() {
    let narrowed = zen_to_han("０１２３４５６７８９", false, true, false);
    let widened = han_to_zen(&narrowed, false, true, false);
    assert_eq!(widened, "０１２３４５６７８９");
    assert_eq!(zen_to_han(&widened, false, true, false), narrowed);
}

#[test]
fn round_trip_kana_class() {
    let narrowed = zen_to_han("アンヲガポヴ。「」ー゛゜", false, false, true);
    let widened = han_to_zen(&narrowed, false, false, true);
    assert_eq!(widened, "アンヲガポヴ。「」ー゛゜");
    assert_eq!(zen_to_han(&widened, false, false, true), narrowed);
}

// The backslash and the yen sign share a half-width form, so widening
// cannot restore the yen sign; the second narrowing still agrees with the
// first.

#[test]
fn backslash_and_yen_narrow_alike() {
    assert_eq!(zen_to_han("＼￥", true, false, false), "\\\\");
    assert_eq!(han_to_zen("\\", true, false, false), "＼");
}

#[test]
fn ideographic_space_maps_to_space() {
    assert_eq!(zen_to_han("　", true, false, false), " ");
    assert_eq!(han_to_zen(" ", true, false, false), "　");
}

// Per-class toggling: a disabled class passes through, and widening
// full-width input changes nothing since the widening tables are keyed by
// half-width forms.

#[test]
fn widen_ignores_fullwidth_input() {
    assert_eq!(han_to_zen("ＡＢＣ", false, true, true), "ＡＢＣ");
    assert_eq!(han_to_zen("ＡＢＣ", true, true, true), "ＡＢＣ");
    assert_eq!(han_to_zen("１２３アイウガ", true, true, true), "１２３アイウガ");
}

#[test]
fn disabled_kana_passes_through() {
    assert_eq!(han_to_zen("ｶﾞｷﾞ", true, true, false), "ｶﾞｷﾞ");
    assert_eq!(zen_to_han("ガギ", true, true, false), "ガギ");
}

// Characters in no table pass through both transforms whatever the flags.

#[test]
fn unmapped_passes_through() {
    assert_eq!(zen_to_han("漢字ひらがな♪€", true, true, true), "漢字ひらがな♪€");
    assert_eq!(han_to_zen("漢字ひらがな♪€", true, true, true), "漢字ひらがな♪€");
}

#[test]
fn empty_input_stays_empty() {
    assert_eq!(zen_to_han("", true, true, true), "");
    assert_eq!(han_to_zen("", true, true, true), "");
}

// A standalone voicing mark with no compatible base before it widens
// through the plain kana table to the full-width mark.

#[test]
fn mark_without_base() {
    assert_eq!(han_to_zen("ﾞ", false, false, true), "゛");
    assert_eq!(han_to_zen("ﾟ", false, false, true), "゜");
    assert_eq!(han_to_zen("ﾞｱ", false, false, true), "゛ア");
    // A voiced mark after a kana with no voiced form converts separately.
    assert_eq!(han_to_zen("ｱﾞ", false, false, true), "ア゛");
    assert_eq!(han_to_zen("ｱﾟ", false, false, true), "ア゜");
}

// Contraction and expansion of the diacritic pairs.

#[test]
fn dakuten_contraction_and_expansion() {
    assert_eq!(han_to_zen("ｳﾞ", false, false, true), "ヴ");
    assert_eq!(zen_to_han("ヴ", false, false, true), "ｳﾞ");
    assert_eq!(zen_to_han("ガギグゲゴ", false, false, true), "ｶﾞｷﾞｸﾞｹﾞｺﾞ");
    assert_eq!(zen_to_han("パピプペポ", false, false, true), "ﾊﾟﾋﾟﾌﾟﾍﾟﾎﾟ");
}

#[test]
fn mark_at_end_contracts() {
    assert_eq!(han_to_zen("ｶﾞ", false, false, true), "ガ");
    assert_eq!(han_to_zen("ｶ", false, false, true), "カ");
    assert_eq!(han_to_zen("ﾊﾟ", false, false, true), "パ");
}

// Flag decoding: every class starts enabled; -a, -d and -k after the
// program name disable one class each; anything else is ignored.

#[test]
fn parse_args_defaults() {
    let args: Vec<String> = vec!["prog".to_string()];
    assert_eq!(parse_args(&args), (true, true, true));
    let none: Vec<String> = Vec::new();
    assert_eq!(parse_args(&none), (true, true, true));
}

#[test]
fn parse_args_disables_classes() {
    let args: Vec<String> =
        vec!["prog".to_string(), "-a".to_string(), "-k".to_string(), "other".to_string()];
    assert_eq!(parse_args(&args), (false, true, false));
    let args: Vec<String> = vec!["prog".to_string(), "-d".to_string()];
    assert_eq!(parse_args(&args), (true, false, true));
}

#[test]
fn parse_args_skips_program_name() {
    let args: Vec<String> = vec!["-a".to_string()];
    assert_eq!(parse_args(&args), (true, true, true));
}
