//! Command-line flag decoding shared by the filter front ends.

use vstd::prelude::*;

verus! {

/// Whether some argument after the program name is exactly `flag`.
pub open spec fn flag_present(args: Seq<String>, flag: Seq<char>) -> bool {
    exists|j: int| 1 <= j < args.len() && args[j]@ == flag
}

/// Once the scan has passed the end of the arguments, the range it has
/// covered holds a given flag exactly when the whole argument list does.
proof fn lemma_scan_covers_all(args: Seq<String>, flag: Seq<char>, i: int)
    requires
        args.len() >= 1 ==> i == args.len(),
        args.len() < 1 ==> i == 1,
    ensures
        flag_present(args, flag) == (exists|j: int| 1 <= j < i && args[j]@ == flag),
{
    if flag_present(args, flag) {
        let j = choose|j: int| 1 <= j < args.len() && args[j]@ == flag;
        assert(1 <= j < i && args[j]@ == flag);
    }
    if exists|j: int| 1 <= j < i && args[j]@ == flag {
        let j = choose|j: int| 1 <= j < i && args[j]@ == flag;
        assert(1 <= j < args.len() && args[j]@ == flag);
    }
}

/// Whether `s` is exactly the two characters `c0` then `c1`.
fn is_str2(s: &str, c0: char, c1: char) -> (r: bool)
    ensures
        r == (s@ == seq![c0, c1]),
{
    let n = s.unicode_len();
    if n != 2 {
        return false;
    }
    let a = s.get_char(0);
    let b = s.get_char(1);
    let r = a == c0 && b == c1;
    proof {
        if r {
            assert(s@ =~= seq![c0, c1]);
        }
    }
    r
}

/// Decodes the transform flags from command-line arguments: every class
/// starts enabled, and an argument `-a`, `-d` or `-k` anywhere after the
/// program name disables the ASCII, digit or katakana class respectively.
/// Other arguments are ignored.
pub fn parse_args(args: &Vec<String>) -> (flags: (bool, bool, bool))
    ensures
        flags.0 == !flag_present(args@, seq!['-', 'a']),
        flags.1 == !flag_present(args@, seq!['-', 'd']),
        flags.2 == !flag_present(args@, seq!['-', 'k']),
{
    let mut ascii = true;
    let mut digit = true;
    let mut kana = true;
    let mut i: usize = 1;
    while i < args.len()
        invariant
            1 <= i,
            args@.len() >= 1 ==> i <= args@.len(),
            args@.len() < 1 ==> i == 1,
            ascii == !(exists|j: int| 1 <= j < i && args@[j]@ == seq!['-', 'a']),
            digit == !(exists|j: int| 1 <= j < i && args@[j]@ == seq!['-', 'd']),
            kana == !(exists|j: int| 1 <= j < i && args@[j]@ == seq!['-', 'k']),
        decreases args.len() - i,
    {
        let arg = &args[i];
        if is_str2(arg.as_str(), '-', 'a') {
            ascii = false;
            proof {
                assert(1 <= i < i + 1 && args@[i as int]@ == seq!['-', 'a']);
            }
        } else if is_str2(arg.as_str(), '-', 'd') {
            digit = false;
            proof {
                assert(1 <= i < i + 1 && args@[i as int]@ == seq!['-', 'd']);
            }
        } else if is_str2(arg.as_str(), '-', 'k') {
            kana = false;
            proof {
                assert(1 <= i < i + 1 && args@[i as int]@ == seq!['-', 'k']);
            }
        }
        i = i + 1;
    }
    proof {
        lemma_scan_covers_all(args@, seq!['-', 'a'], i as int);
        lemma_scan_covers_all(args@, seq!['-', 'd'], i as int);
        lemma_scan_covers_all(args@, seq!['-', 'k'], i as int);
    }
    (ascii, digit, kana)
}

} // verus!
