//! Text helpers the configuration and monitoring layers share: exact
//! decimal formatting and parsing, booleans, and ASCII lowercasing.

use vstd::prelude::*;

verus! {

/// The decimal digit character for a value below ten.
pub open spec fn spec_digit_char(d: int) -> char {
    if d == 0 {
        '0'
    } else if d == 1 {
        '1'
    } else if d == 2 {
        '2'
    } else if d == 3 {
        '3'
    } else if d == 4 {
        '4'
    } else if d == 5 {
        '5'
    } else if d == 6 {
        '6'
    } else if d == 7 {
        '7'
    } else if d == 8 {
        '8'
    } else {
        '9'
    }
}

/// The value of a decimal digit character, or -1 for any other character.
pub open spec fn spec_digit_val(c: char) -> int {
    if c == '0' {
        0
    } else if c == '1' {
        1
    } else if c == '2' {
        2
    } else if c == '3' {
        3
    } else if c == '4' {
        4
    } else if c == '5' {
        5
    } else if c == '6' {
        6
    } else if c == '7' {
        7
    } else if c == '8' {
        8
    } else if c == '9' {
        9
    } else {
        -1
    }
}

/// The ASCII-lowercased character.
pub open spec fn spec_lower_char(c: char) -> char {
    if c == 'A' {
        'a'
    } else if c == 'B' {
        'b'
    } else if c == 'C' {
        'c'
    } else if c == 'D' {
        'd'
    } else if c == 'E' {
        'e'
    } else if c == 'F' {
        'f'
    } else if c == 'G' {
        'g'
    } else if c == 'H' {
        'h'
    } else if c == 'I' {
        'i'
    } else if c == 'J' {
        'j'
    } else if c == 'K' {
        'k'
    } else if c == 'L' {
        'l'
    } else if c == 'M' {
        'm'
    } else if c == 'N' {
        'n'
    } else if c == 'O' {
        'o'
    } else if c == 'P' {
        'p'
    } else if c == 'Q' {
        'q'
    } else if c == 'R' {
        'r'
    } else if c == 'S' {
        's'
    } else if c == 'T' {
        't'
    } else if c == 'U' {
        'u'
    } else if c == 'V' {
        'v'
    } else if c == 'W' {
        'w'
    } else if c == 'X' {
        'x'
    } else if c == 'Y' {
        'y'
    } else if c == 'Z' {
        'z'
    } else {
        c
    }
}

/// A sequence of characters lowercased one by one.
pub open spec fn spec_lower(s: Seq<char>) -> Seq<char> {
    s.map(|i: int, c: char| spec_lower_char(c))
}

/// The decimal digit run of a non-negative value, most significant first,
/// with no leading zeros (a lone zero for zero).
pub open spec fn spec_dec_digits(n: nat) -> Seq<char>
    decreases n,
{
    if n < 10 {
        seq![spec_digit_char(n as int)]
    } else {
        spec_dec_digits(n / 10).push(spec_digit_char((n % 10) as int))
    }
}

/// Decimal text of a possibly negative value.
pub open spec fn spec_signed_dec(n: int) -> Seq<char> {
    if n < 0 {
        seq!['-'] + spec_dec_digits((-n) as nat)
    } else {
        spec_dec_digits(n as nat)
    }
}

/// Whether every character is a decimal digit.
pub open spec fn spec_all_digits(s: Seq<char>) -> bool {
    forall|i: int| 0 <= i < s.len() ==> spec_digit_val(#[trigger] s[i]) >= 0
}

/// The value of a run of decimal digits.
pub open spec fn spec_dec_value(s: Seq<char>) -> int
    decreases s.len(),
{
    if s.len() == 0 {
        0
    } else {
        spec_dec_value(s.drop_last()) * 10 + spec_digit_val(s.last())
    }
}

/// A digit run's value is never negative.
pub proof fn lemma_dec_value_nonneg(s: Seq<char>)
    requires
        spec_all_digits(s),
    ensures
        spec_dec_value(s) >= 0,
    decreases s.len(),
{
    if s.len() > 0 {
        assert(spec_all_digits(s.drop_last()));
        lemma_dec_value_nonneg(s.drop_last());
    }
}

/// A digit run is worth at least any of its prefixes.
pub proof fn lemma_dec_value_prefix(s: Seq<char>, i: int)
    requires
        spec_all_digits(s),
        0 <= i <= s.len(),
    ensures
        spec_dec_value(s) >= spec_dec_value(s.take(i)),
    decreases s.len() - i,
{
    if i == s.len() {
        assert(s.take(i) =~= s);
    } else {
        lemma_dec_value_prefix(s, i + 1);
        assert(s.take(i + 1).drop_last() =~= s.take(i));
        assert(s.take(i + 1).last() == s[i]);
        assert(spec_all_digits(s.take(i)));
        lemma_dec_value_nonneg(s.take(i));
    }
}

/// One decimal digit as a string slice.
fn digit_str(d: u64) -> (s: &'static str)
    requires
        d < 10,
    ensures
        s@ == seq![spec_digit_char(d as int)],
{
    match d {
        0 => {
            let s = "0";
            proof {
                reveal_strlit("0");
                assert(s@ =~= seq!['0']);
            }
            s
        },
        1 => {
            let s = "1";
            proof {
                reveal_strlit("1");
                assert(s@ =~= seq!['1']);
            }
            s
        },
        2 => {
            let s = "2";
            proof {
                reveal_strlit("2");
                assert(s@ =~= seq!['2']);
            }
            s
        },
        3 => {
            let s = "3";
            proof {
                reveal_strlit("3");
                assert(s@ =~= seq!['3']);
            }
            s
        },
        4 => {
            let s = "4";
            proof {
                reveal_strlit("4");
                assert(s@ =~= seq!['4']);
            }
            s
        },
        5 => {
            let s = "5";
            proof {
                reveal_strlit("5");
                assert(s@ =~= seq!['5']);
            }
            s
        },
        6 => {
            let s = "6";
            proof {
                reveal_strlit("6");
                assert(s@ =~= seq!['6']);
            }
            s
        },
        7 => {
            let s = "7";
            proof {
                reveal_strlit("7");
                assert(s@ =~= seq!['7']);
            }
            s
        },
        8 => {
            let s = "8";
            proof {
                reveal_strlit("8");
                assert(s@ =~= seq!['8']);
            }
            s
        },
        _ => {
            let s = "9";
            proof {
                reveal_strlit("9");
                assert(s@ =~= seq!['9']);
            }
            s
        },
    }
}

/// Format a value in decimal.
pub fn u64_to_dec(n: u64) -> (s: String)
    ensures
        s@ == spec_dec_digits(n as nat),
    decreases n,
{
    if n < 10 {
        String::from_str(digit_str(n))
    } else {
        let mut s = u64_to_dec(n / 10);
        s.append(digit_str(n % 10));
        proof {
            assert(s@ =~= spec_dec_digits((n / 10) as nat).push(spec_digit_char((n
                % 10) as int)));
        }
        s
    }
}

/// Format a value in decimal.
pub fn u32_to_dec(n: u32) -> (s: String)
    ensures
        s@ == spec_dec_digits(n as nat),
{
    u64_to_dec(n as u64)
}

/// Format a signed value in decimal.
pub fn i32_to_dec(n: i32) -> (s: String)
    ensures
        s@ == spec_signed_dec(n as int),
{
    if n < 0 {
        let mut s = String::from_str("-");
        proof {
            reveal_strlit("-");
            assert(s@ =~= seq!['-']);
        }
        let m: u64 = (-(n as i64)) as u64;
        let digits = u64_to_dec(m);
        s.append(digits.as_str());
        s
    } else {
        u64_to_dec(n as u64)
    }
}

/// The words booleans print as.
pub open spec fn spec_bool_str(b: bool) -> Seq<char> {
    if b {
        "true"@
    } else {
        "false"@
    }
}

/// Format a boolean as its word.
pub fn bool_to_str(b: bool) -> (s: String)
    ensures
        s@ == spec_bool_str(b),
{
    if b {
        String::from_str("true")
    } else {
        String::from_str("false")
    }
}

/// The value of a decimal digit character, or -1.
fn digit_val(c: char) -> (v: i32)
    ensures
        v == spec_digit_val(c),
{
    match c {
        '0' => 0,
        '1' => 1,
        '2' => 2,
        '3' => 3,
        '4' => 4,
        '5' => 5,
        '6' => 6,
        '7' => 7,
        '8' => 8,
        '9' => 9,
        _ => -1,
    }
}

/// The ASCII-lowercased character.
fn lower_char(c: char) -> (r: char)
    ensures
        r == spec_lower_char(c),
{
    match c {
        'A' => 'a',
        'B' => 'b',
        'C' => 'c',
        'D' => 'd',
        'E' => 'e',
        'F' => 'f',
        'G' => 'g',
        'H' => 'h',
        'I' => 'i',
        'J' => 'j',
        'K' => 'k',
        'L' => 'l',
        'M' => 'm',
        'N' => 'n',
        'O' => 'o',
        'P' => 'p',
        'Q' => 'q',
        'R' => 'r',
        'S' => 's',
        'T' => 't',
        'U' => 'u',
        'V' => 'v',
        'W' => 'w',
        'X' => 'x',
        'Y' => 'y',
        'Z' => 'z',
        _ => c,
    }
}

/// ASCII-lowercase a string, character by character.
pub fn to_lower(s: &str) -> (r: String)
    ensures
        r@ == spec_lower(s@),
{
    let n = s.unicode_len();
    let mut r = String::new();
    let mut i: usize = 0;
    while i < n
        invariant
            i <= n,
            n == s@.len(),
            r@ == spec_lower(s@).take(i as int),
        decreases n - i,
    {
        let c = s.get_char(i);
        let lc = lower_char(c);
        push_char(&mut r, lc);
        i = i + 1;
        proof {
            assert(r@ =~= spec_lower(s@).take(i as int));
        }
    }
    proof {
        assert(spec_lower(s@).take(s@.len() as int) =~= spec_lower(s@));
    }
    r
}

/// Relies on std's String::push: the string grows by exactly the pushed
/// character.
#[verifier::external_body]
pub(crate) fn push_char(s: &mut String, c: char)
    ensures
        final(s)@ == old(s)@.push(c),
{
    s.push(c);
}

/// Parse a run of decimal digits; anything else, an empty string, or a
/// value past the range refuses.
pub fn parse_u64(s: &str) -> (r: Option<u64>)
    ensures
        match r {
            Some(v) => s@.len() > 0 && spec_all_digits(s@) && spec_dec_value(s@) == v,
            None => s@.len() == 0 || !spec_all_digits(s@) || spec_dec_value(s@) > u64::MAX,
        },
{
    let n = s.unicode_len();
    if n == 0 {
        return None;
    }
    let mut acc: u64 = 0;
    let mut i: usize = 0;
    while i < n
        invariant
            0 < n == s@.len(),
            i <= n,
            spec_all_digits(s@.take(i as int)),
            acc == spec_dec_value(s@.take(i as int)),
        decreases n - i,
    {
        let c = s.get_char(i);
        let d = digit_val(c);
        if d < 0 {
            proof {
                assert(spec_digit_val(s@[i as int]) < 0);
            }
            return None;
        }
        let dv = d as u64;
        if acc > (u64::MAX - dv) / 10 {
            proof {
                assert(s@.take(i + 1).drop_last() =~= s@.take(i as int));
                assert(s@.take(i + 1).last() == s@[i as int]);
                assert(spec_all_digits(s@.take(i + 1)));
                assert(spec_dec_value(s@.take(i + 1)) > u64::MAX);
                if spec_all_digits(s@) {
                    lemma_dec_value_prefix(s@, i + 1);
                }
            }
            return None;
        }
        acc = acc * 10 + dv;
        i = i + 1;
        proof {
            assert(s@.take(i as int).drop_last() =~= s@.take(i - 1));
            assert(s@.take(i as int).last() == s@[i - 1]);
        }
    }
    proof {
        assert(s@.take(n as int) =~= s@);
    }
    Some(acc)
}

/// Parse a decimal digit run into a 32-bit value.
pub fn parse_u32(s: &str) -> (r: Option<u32>)
    ensures
        match r {
            Some(v) => s@.len() > 0 && spec_all_digits(s@) && spec_dec_value(s@) == v,
            None => s@.len() == 0 || !spec_all_digits(s@) || spec_dec_value(s@) > u32::MAX,
        },
{
    match parse_u64(s) {
        Some(v) => if v <= u32::MAX as u64 {
            Some(v as u32)
        } else {
            None
        },
        None => {
            proof {
                if s@.len() > 0 && spec_all_digits(s@) {
                    lemma_dec_value_nonneg(s@);
                }
            }
            None
        },
    }
}

/// Whether signed decimal text is well formed and in the 32-bit range.
pub open spec fn spec_i32_text_ok(s: Seq<char>) -> bool {
    if s.len() > 0 && s[0] == '-' {
        s.len() > 1 && spec_all_digits(s.skip(1)) && spec_dec_value(s.skip(1)) <= 2147483648
    } else {
        s.len() > 0 && spec_all_digits(s) && spec_dec_value(s) <= i32::MAX
    }
}

/// The value signed decimal text denotes.
pub open spec fn spec_i32_text_val(s: Seq<char>) -> int {
    if s.len() > 0 && s[0] == '-' {
        -spec_dec_value(s.skip(1))
    } else {
        spec_dec_value(s)
    }
}

/// Parse signed decimal text: an optional leading minus and a digit run.
pub fn parse_i32(s: &str) -> (r: Option<i32>)
    ensures
        match r {
            Some(v) => spec_i32_text_ok(s@) && spec_i32_text_val(s@) == v,
            None => !spec_i32_text_ok(s@),
        },
{
    let n = s.unicode_len();
    if n == 0 {
        return None;
    }
    if s.get_char(0) == '-' {
        let rest = s.substring_char(1, n);
        proof {
            assert(rest@ =~= s@.skip(1));
        }
        match parse_u64(rest) {
            Some(v) => if v <= 2147483648 {
                proof {
                    lemma_dec_value_nonneg(s@.skip(1));
                }
                Some((-(v as i64)) as i32)
            } else {
                None
            },
            None => None,
        }
    } else {
        match parse_u32(s) {
            Some(v) => if v <= i32::MAX as u32 {
                Some(v as i32)
            } else {
                None
            },
            None => None,
        }
    }
}

/// Parse a boolean word.
pub fn parse_bool(s: &str) -> (r: Option<bool>)
    ensures
        s@ == "true"@ ==> r == Some(true),
        s@ == "false"@ ==> r == Some(false),
        s@ != "true"@ && s@ != "false"@ ==> r is None,
{
    proof {
        reveal_strlit("true");
        reveal_strlit("false");
        assert("true"@.len() == 4);
        assert("false"@.len() == 5);
    }
    let owned = String::from_str(s);
    if owned == String::from_str("true") {
        Some(true)
    } else if owned == String::from_str("false") {
        Some(false)
    } else {
        None
    }
}

} // verus!
