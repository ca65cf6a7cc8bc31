//! Text helpers: decimal rendering of counters and case-insensitive
//! comparison against lowercase ASCII words.

use vstd::prelude::*;

verus! {

/// The character for a single decimal digit value.
pub open spec fn digit_char(d: nat) -> char {
    if d == 0 {
        '0'
    } else if d == 1 {
        '1'
    } else if d == 2 {
        '2'
    } else if d == 3 {
        '3'
    } else if d == 4 {
        '4'
    } else if d == 5 {
        '5'
    } else if d == 6 {
        '6'
    } else if d == 7 {
        '7'
    } else if d == 8 {
        '8'
    } else {
        '9'
    }
}

/// The decimal representation of `n`, most significant digit first,
/// with no leading zeros (a single `'0'` for zero itself).
pub open spec fn dec_digits(n: nat) -> Seq<char>
    decreases n,
{
    if n < 10 {
        seq![digit_char(n)]
    } else {
        dec_digits(n / 10) + seq![digit_char(n % 10)]
    }
}

fn digit_str(d: u64) -> (r: &'static str)
    requires
        d < 10,
    ensures
        r@ == seq![digit_char(d as nat)],
{
    match d {
        0 => {
            proof {
                reveal_strlit("0");
                assert(("0")@ =~= seq![digit_char(0)]);
            }
            "0"
        },
        1 => {
            proof {
                reveal_strlit("1");
                assert(("1")@ =~= seq![digit_char(1)]);
            }
            "1"
        },
        2 => {
            proof {
                reveal_strlit("2");
                assert(("2")@ =~= seq![digit_char(2)]);
            }
            "2"
        },
        3 => {
            proof {
                reveal_strlit("3");
                assert(("3")@ =~= seq![digit_char(3)]);
            }
            "3"
        },
        4 => {
            proof {
                reveal_strlit("4");
                assert(("4")@ =~= seq![digit_char(4)]);
            }
            "4"
        },
        5 => {
            proof {
                reveal_strlit("5");
                assert(("5")@ =~= seq![digit_char(5)]);
            }
            "5"
        },
        6 => {
            proof {
                reveal_strlit("6");
                assert(("6")@ =~= seq![digit_char(6)]);
            }
            "6"
        },
        7 => {
            proof {
                reveal_strlit("7");
                assert(("7")@ =~= seq![digit_char(7)]);
            }
            "7"
        },
        8 => {
            proof {
                reveal_strlit("8");
                assert(("8")@ =~= seq![digit_char(8)]);
            }
            "8"
        },
        _ => {
            proof {
                reveal_strlit("9");
                assert(("9")@ =~= seq![digit_char(9)]);
            }
            "9"
        },
    }
}

/// The lowercase ASCII form of `c`: an uppercase ASCII letter maps to its
/// lowercase pair, every other character stays as it is.
pub open spec fn lower_char(c: char) -> char {
    if c == 'A' {
        'a'
    } else if c == 'B' {
        'b'
    } else if c == 'C' {
        'c'
    } else if c == 'D' {
        'd'
    } else if c == 'E' {
        'e'
    } else if c == 'F' {
        'f'
    } else if c == 'G' {
        'g'
    } else if c == 'H' {
        'h'
    } else if c == 'I' {
        'i'
    } else if c == 'J' {
        'j'
    } else if c == 'K' {
        'k'
    } else if c == 'L' {
        'l'
    } else if c == 'M' {
        'm'
    } else if c == 'N' {
        'n'
    } else if c == 'O' {
        'o'
    } else if c == 'P' {
        'p'
    } else if c == 'Q' {
        'q'
    } else if c == 'R' {
        'r'
    } else if c == 'S' {
        's'
    } else if c == 'T' {
        't'
    } else if c == 'U' {
        'u'
    } else if c == 'V' {
        'v'
    } else if c == 'W' {
        'w'
    } else if c == 'X' {
        'x'
    } else if c == 'Y' {
        'y'
    } else if c == 'Z' {
        'z'
    } else {
        c
    }
}

/// `s` with every uppercase ASCII letter replaced by its lowercase pair.
pub open spec fn ascii_lower(s: Seq<char>) -> Seq<char> {
    s.map_values(|c: char| lower_char(c))
}

/// `a` is `b` or its uppercase ASCII form, where `b` is meant to be a
/// character of a lowercase pattern.
pub open spec fn char_matches_ci(a: char, b: char) -> bool {
    a == b || (65 <= a as u32 && a as u32 <= 90 && a as u32 + 32 == b as u32)
}

/// `s` equals the lowercase ASCII pattern `t` up to ASCII case.
pub open spec fn str_matches_ci(s: Seq<char>, t: Seq<char>) -> bool {
    s.len() == t.len() && (forall|i: int| 0 <= i < s.len() ==> char_matches_ci(s[i], #[trigger] t[i]))
}

/// Lowercasing the candidate changes nothing about a match against a
/// pattern that holds no uppercase ASCII letter.
pub proof fn lemma_char_matches_ci_lower(a: char, b: char)
    requires
        !(65 <= b as u32 && b as u32 <= 90),
    ensures
        char_matches_ci(lower_char(a), b) == char_matches_ci(a, b),
{
}

/// Distinct decimal digit values render to distinct characters.
pub proof fn lemma_digit_char_injective(m: nat, n: nat)
    requires
        m < 10,
        n < 10,
        m != n,
    ensures
        digit_char(m) != digit_char(n),
{
}

/// Every number renders to at least one digit.
pub proof fn lemma_dec_digits_len(n: nat)
    ensures
        dec_digits(n).len() >= 1,
    decreases n,
{
    if n >= 10 {
        lemma_dec_digits_len(n / 10);
    }
}

/// Distinct numbers render to distinct decimal digit strings: the decimal
/// text determines the number.
pub proof fn lemma_dec_digits_injective(m: nat, n: nat)
    requires
        m != n,
    ensures
        dec_digits(m) != dec_digits(n),
    decreases m + n,
{
    if m < 10 && n < 10 {
        lemma_digit_char_injective(m, n);
        assert(dec_digits(m)[0] != dec_digits(n)[0]);
    } else if m < 10 {
        lemma_dec_digits_len(n / 10);
        assert(dec_digits(m).len() == 1);
        assert(dec_digits(n).len() >= 2);
    } else if n < 10 {
        lemma_dec_digits_len(m / 10);
        assert(dec_digits(n).len() == 1);
        assert(dec_digits(m).len() >= 2);
    } else {
        let dm = dec_digits(m / 10);
        let dn = dec_digits(n / 10);
        assert(dec_digits(m) == dm + seq![digit_char(m % 10)]);
        assert(dec_digits(n) == dn + seq![digit_char(n % 10)]);
        if m % 10 != n % 10 {
            lemma_digit_char_injective(m % 10, n % 10);
            assert(dec_digits(m).last() == digit_char(m % 10));
            assert(dec_digits(n).last() == digit_char(n % 10));
            if dec_digits(m) == dec_digits(n) {
                assert(dec_digits(m).last() == dec_digits(n).last());
                assert(false);
            }
        } else {
            assert(m / 10 != n / 10);
            lemma_dec_digits_injective(m / 10, n / 10);
            if dec_digits(m) == dec_digits(n) {
                assert(dm.len() == dn.len());
                assert forall|i: int| 0 <= i < dm.len() implies dm[i] == dn[i] by {
                    assert((dm + seq![digit_char(m % 10)])[i] == dm[i]);
                    assert((dn + seq![digit_char(n % 10)])[i] == dn[i]);
                }
                assert(dm =~= dn);
                assert(false);
            }
        }
    }
}

/// Compares `s` against the lowercase ASCII pattern `t`, ignoring ASCII case in `s`.
pub fn eq_ignore_ascii_case(s: &str, t: &str) -> (r: bool)
    ensures
        r == str_matches_ci(s@, t@),
{
    let n = s.unicode_len();
    if n != t.unicode_len() {
        return false;
    }
    let mut i: usize = 0;
    while i < n
        invariant
            n == s@.len(),
            n == t@.len(),
            i <= n,
            forall|j: int| 0 <= j < i ==> char_matches_ci(s@[j], #[trigger] t@[j]),
        decreases n - i,
    {
        let a = s.get_char(i);
        let b = t.get_char(i);
        let au = a as u32;
        let bu = b as u32;
        if a == b {
        } else if 65 <= au && au <= 90 && au + 32 == bu {
        } else {
            return false;
        }
        i += 1;
    }
    true
}

/// Renders `n` in decimal, exactly as `dec_digits` describes.
pub fn u64_to_string(n: u64) -> (r: String)
    ensures
        r@ == dec_digits(n as nat),
    decreases n,
{
    if n < 10 {
        String::from_str(digit_str(n))
    } else {
        let mut s = u64_to_string(n / 10);
        s.append(digit_str(n % 10));
        s
    }
}

} // verus!
