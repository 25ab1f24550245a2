//! Decimal numerals: reading an integer from a text and writing one.

use vstd::prelude::*;
use crate::tekst::tegn;

verus! {

/// Whether `c` is one of the ten digits `0` to `9`.
pub open spec fn er_siffer(c: char) -> bool {
    '0' <= c <= '9'
}

/// The number that the digit `c` stands for.
pub open spec fn sifferverdi(c: char) -> int {
    c as int - '0' as int
}

/// Whether every character of `s` is a digit.
pub open spec fn bare_sifre(s: Seq<char>) -> bool {
    forall|i: int| 0 <= i < s.len() ==> er_siffer(#[trigger] s[i])
}

/// The number that the digits `s` denote in base ten; 0 for the empty text.
pub open spec fn tallverdi(s: Seq<char>) -> int
    decreases s.len(),
{
    if s.len() == 0 {
        0
    } else {
        10 * tallverdi(s.drop_last()) + sifferverdi(s.last())
    }
}

/// The number that `s` denotes if it is one digit or more and nothing else.
pub open spec fn uten_fortegn(s: Seq<char>) -> Option<int> {
    if s.len() > 0 && bare_sifre(s) {
        Some(tallverdi(s))
    } else {
        None
    }
}

/// The integer that `s` denotes: an optional sign, `+` or `-`, and then one
/// digit or more, with nothing before, between or after.
pub open spec fn heltall(s: Seq<char>) -> Option<int> {
    if s.len() > 0 && s[0] == '-' {
        match uten_fortegn(s.skip(1)) {
            Some(v) => Some(-v),
            None => None,
        }
    } else if s.len() > 0 && s[0] == '+' {
        uten_fortegn(s.skip(1))
    } else {
        uten_fortegn(s)
    }
}

/// The `i32` that `s` denotes, if it denotes an integer that fits in one.
pub open spec fn som_i32(s: Seq<char>) -> Option<i32> {
    match heltall(s) {
        Some(v) => if i32::MIN <= v <= i32::MAX {
            Some(v as i32)
        } else {
            None
        },
        None => None,
    }
}

/// The `u8` that `s` denotes, if it denotes an integer that fits in one. A
/// minus sign is never part of such a numeral, not even before a zero.
pub open spec fn som_u8(s: Seq<char>) -> Option<u8> {
    if s.len() > 0 && s[0] == '-' {
        None
    } else {
        match heltall(s) {
            Some(v) => if 0 <= v <= u8::MAX {
                Some(v as u8)
            } else {
                None
            },
            None => None,
        }
    }
}

/// A run of digits denotes a number that is not negative.
proof fn lemma_tallverdi_ikke_negativ(s: Seq<char>)
    requires
        bare_sifre(s),
    ensures
        0 <= tallverdi(s),
    decreases s.len(),
{
    if s.len() > 0 {
        lemma_tallverdi_ikke_negativ(s.drop_last());
    }
}

/// The digits read so far never denote more than all the digits do.
proof fn lemma_tallverdi_voksende(s: Seq<char>, k: int)
    requires
        bare_sifre(s),
        0 <= k <= s.len(),
    ensures
        0 <= tallverdi(s.take(k)) <= tallverdi(s),
    decreases s.len() - k,
{
    lemma_tallverdi_ikke_negativ(s.take(k));
    if k < s.len() {
        lemma_tallverdi_voksende(s, k + 1);
        assert(s.take(k + 1).drop_last() =~= s.take(k));
    } else {
        assert(s.take(k) =~= s);
    }
}

/// Reads the digits of `t` from position `fra` to the end: their value if
/// there is at least one character, all are digits, and the value is at most
/// `grense`.
fn les_sifre(t: &Vec<char>, fra: usize, grense: u32) -> (r: Option<u32>)
    requires
        fra <= t.len(),
    ensures
        r matches Some(v) ==> uten_fortegn(t@.skip(fra as int)) == Some(v as int) && v <= grense,
        r is None ==> (uten_fortegn(t@.skip(fra as int)) matches Some(v) ==> v > grense),
{
    let n = t.len();
    if fra == n {
        return None;
    }
    let ghost s = t@.skip(fra as int);
    let mut sum: u64 = 0;
    let mut i: usize = fra;
    while i < n
        invariant
            n == t.len(),
            fra <= i <= n,
            s == t@.skip(fra as int),
            bare_sifre(s.take(i - fra)),
            sum == tallverdi(s.take(i - fra)),
            sum <= grense,
        decreases n - i,
    {
        let c = t[i];
        if !(c >= '0' && c <= '9') {
            assert(s[i - fra] == c);
            return None;
        }
        let siffer: u64 = (c as u32 - '0' as u32) as u64;
        assert(s.take(i + 1 - fra).drop_last() =~= s.take(i - fra));
        sum = sum * 10 + siffer;
        if sum > grense as u64 {
            proof {
                if bare_sifre(s) {
                    lemma_tallverdi_voksende(s, i + 1 - fra);
                }
            }
            return None;
        }
        i += 1;
    }
    assert(s.take(n - fra) =~= s);
    Some(sum as u32)
}

/// Reads `s` as an `i32`.
pub fn tolk_i32(s: &str) -> (r: Option<i32>)
    ensures
        r == som_i32(s@),
{
    let t = tegn(s);
    if t.len() > 0 && t[0] == '-' {
        match les_sifre(&t, 1, 0x8000_0000) {
            Some(v) => {
                if v == 0x8000_0000 {
                    Some(i32::MIN)
                } else {
                    Some(-(v as i32))
                }
            },
            None => None,
        }
    } else if t.len() > 0 && t[0] == '+' {
        match les_sifre(&t, 1, 0x7fff_ffff) {
            Some(v) => Some(v as i32),
            None => None,
        }
    } else {
        assert(s@.skip(0) =~= s@);
        match les_sifre(&t, 0, 0x7fff_ffff) {
            Some(v) => Some(v as i32),
            None => None,
        }
    }
}

/// Reads `s` as a `u8`.
pub fn tolk_u8(s: &str) -> (r: Option<u8>)
    ensures
        r == som_u8(s@),
{
    let t = tegn(s);
    let fra: usize = if t.len() > 0 && t[0] == '+' {
        1
    } else {
        0
    };
    assert(s@.skip(0) =~= s@);
    match les_sifre(&t, fra, 0xff) {
        Some(v) => Some(v as u8),
        None => None,
    }
}

/// The character for the digit `d`, for `d` from 0 to 9.
pub open spec fn siffertegn(d: int) -> char {
    ('0' as int + d) as char
}

/// The decimal numeral of `n`: its digits, the most significant first, with
/// no leading zero; `0` for zero.
pub open spec fn desimal(n: nat) -> Seq<char>
    decreases n,
{
    if n < 10 {
        seq![siffertegn(n as int)]
    } else {
        desimal(n / 10).push(siffertegn((n % 10) as int))
    }
}

/// The decimal numeral of `n`, with a minus sign before it if `n` is
/// negative and no sign otherwise.
pub open spec fn med_fortegn(n: int) -> Seq<char> {
    if n < 0 {
        seq!['-'] + desimal((-n) as nat)
    } else {
        desimal(n as nat)
    }
}

/// The decimal numeral of `n` with zeros before it until it has `bredde`
/// digits; the numeral itself if it has as many or more.
pub open spec fn nullfylt(n: nat, bredde: nat) -> Seq<char> {
    let sifre = desimal(n);
    if sifre.len() < bredde {
        Seq::new((bredde - sifre.len()) as nat, |i: int| '0') + sifre
    } else {
        sifre
    }
}

/// The digit `d` as a text of one character.
fn siffertekst(d: usize) -> (r: &'static str)
    requires
        d < 10,
    ensures
        r@ == seq![siffertegn(d as int)],
{
    let sifre: &'static str = "0123456789";
    proof {
        reveal_strlit("0123456789");
    }
    sifre.substring_char(d, d + 1)
}

/// Appends the decimal numeral of `n` to `ut`.
pub fn skriv_desimal(ut: &mut String, n: u64)
    ensures
        final(ut)@ == old(ut)@ + desimal(n as nat),
    decreases n,
{
    if n >= 10 {
        skriv_desimal(ut, n / 10);
    }
    ut.append(siffertekst((n % 10) as usize));
}

/// Appends the decimal numeral of `n` to `ut`, with its sign if negative.
pub fn skriv_heltall(ut: &mut String, n: i64)
    ensures
        final(ut)@ == old(ut)@ + med_fortegn(n as int),
{
    if n < 0 {
        proof {
            reveal_strlit("-");
        }
        ut.append("-");
        let stoerrelse: u64 = if n == i64::MIN {
            0x8000_0000_0000_0000
        } else {
            (-n) as u64
        };
        skriv_desimal(ut, stoerrelse);
    } else {
        skriv_desimal(ut, n as u64);
    }
}

} // verus!
