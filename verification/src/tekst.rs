//! Text primitives: the characters of a string, white space, the end of a
//! line, and the search for one text inside another.

use vstd::prelude::*;

verus! {

/// The characters of `s`, in order.
pub fn tegn(s: &str) -> (r: Vec<char>)
    ensures
        r@ == s@,
{
    broadcast use vstd::string::group_string_axioms;

    let mut v: Vec<char> = Vec::new();
    for c in it: s.chars()
        invariant
            it.seq() == s@,
            v@ == s@.take(it.index()),
    {
        v.push(c);
    }
    v
}

/// White space: the code points that carry the Unicode property `White_Space`.
pub open spec fn er_blank(c: char) -> bool {
    let k = c as int;
    ||| 0x09 <= k <= 0x0D
    ||| k == 0x20
    ||| k == 0x85
    ||| k == 0xA0
    ||| k == 0x1680
    ||| 0x2000 <= k <= 0x200A
    ||| k == 0x2028
    ||| k == 0x2029
    ||| k == 0x202F
    ||| k == 0x205F
    ||| k == 0x3000
}

/// Whether `c` is white space.
pub fn blank(c: char) -> (r: bool)
    ensures
        r == er_blank(c),
{
    let k: u32 = c as u32;
    (0x09 <= k && k <= 0x0D) || k == 0x20 || k == 0x85 || k == 0xA0 || k == 0x1680 || (0x2000 <= k
        && k <= 0x200A) || k == 0x2028 || k == 0x2029 || k == 0x202F || k == 0x205F || k == 0x3000
}

/// How many white-space characters `s` begins with.
pub open spec fn blanke_foran(s: Seq<char>) -> nat
    decreases s.len(),
{
    if s.len() > 0 && er_blank(s[0]) {
        1 + blanke_foran(s.skip(1))
    } else {
        0
    }
}

/// How many white-space characters `s` ends with.
pub open spec fn blanke_bak(s: Seq<char>) -> nat
    decreases s.len(),
{
    if s.len() > 0 && er_blank(s.last()) {
        1 + blanke_bak(s.drop_last())
    } else {
        0
    }
}

/// `s` without the white space at its start and at its end.
pub open spec fn trimmet(s: Seq<char>) -> Seq<char> {
    let rest = s.skip(blanke_foran(s) as int);
    rest.take(rest.len() - blanke_bak(rest))
}

/// `s` without the white space around it.
pub fn trim(s: &str) -> (r: &str)
    ensures
        r@ == trimmet(s@),
{
    let t = tegn(s);
    let n = t.len();
    let mut a: usize = 0;
    assert(s@.skip(0) =~= s@);
    while a < n && blank(t[a])
        invariant
            t@ == s@,
            n == t.len(),
            a <= n,
            blanke_foran(s@) == a + blanke_foran(s@.skip(a as int)),
        decreases n - a,
    {
        assert(s@.skip(a as int).skip(1) =~= s@.skip(a + 1));
        a += 1;
    }
    let ghost rest = s@.skip(a as int);
    let mut b: usize = n;
    assert(rest.take(n - a) =~= rest);
    while b > a && blank(t[b - 1])
        invariant
            t@ == s@,
            n == t.len(),
            a <= b <= n,
            rest == s@.skip(a as int),
            blanke_bak(rest) == (n - b) + blanke_bak(rest.take(b - a)),
        decreases b,
    {
        assert(rest.take(b - a).drop_last() =~= rest.take(b - a - 1));
        b -= 1;
    }
    s.substring_char(a, b)
}

/// `s` without the line feed that ends it, if one does.
pub open spec fn uten_linjeskift(s: Seq<char>) -> Seq<char> {
    if s.len() > 0 && s.last() == '\n' {
        s.drop_last()
    } else {
        s
    }
}

/// The line `s` as it was typed: without the line feed that ends it.
pub fn fjern_linjeskift(s: &str) -> (r: &str)
    ensures
        r@ == uten_linjeskift(s@),
{
    let t = tegn(s);
    let n = t.len();
    if n > 0 && t[n - 1] == '\n' {
        s.substring_char(0, n - 1)
    } else {
        s
    }
}

/// Whether `naal` stands in `hoy` from position `i` on.
pub open spec fn staar_ved(hoy: Seq<char>, naal: Seq<char>, i: int) -> bool {
    &&& 0 <= i
    &&& i + naal.len() <= hoy.len()
    &&& hoy.subrange(i, i + naal.len()) == naal
}

/// Whether `naal` occurs somewhere in `hoy` as a run of consecutive
/// characters. The empty text occurs in every text.
pub open spec fn inneholder(hoy: Seq<char>, naal: Seq<char>) -> bool {
    exists|i: int| staar_ved(hoy, naal, i)
}

/// Whether `naal` stands in `hoy` from position `i` on.
fn staar_ved_plass(hoy: &Vec<char>, naal: &Vec<char>, i: usize) -> (r: bool)
    requires
        i + naal.len() <= hoy.len(),
    ensures
        r == staar_ved(hoy@, naal@, i as int),
{
    let m = naal.len();
    let mut j: usize = 0;
    while j < m
        invariant
            m == naal.len(),
            i + m <= hoy.len(),
            j <= m,
            forall|k: int| 0 <= k < j ==> hoy@[i + k] == naal@[k],
        decreases m - j,
    {
        if hoy[i + j] != naal[j] {
            return false;
        }
        j += 1;
    }
    assert(hoy@.subrange(i as int, i + m) =~= naal@);
    true
}

/// Whether the text `naal` occurs in the text `hoy`.
pub fn finnes_i(hoy: &str, naal: &str) -> (r: bool)
    ensures
        r == inneholder(hoy@, naal@),
{
    let h = tegn(hoy);
    let n = tegn(naal);
    if n.len() == 0 {
        assert(staar_ved(h@, n@, 0)) by {
            assert(h@.subrange(0, 0) =~= n@);
        }
        return true;
    }
    let mut i: usize = 0;
    while i < h.len() && h.len() - i >= n.len()
        invariant
            h@ == hoy@,
            n@ == naal@,
            n.len() > 0,
            i <= h.len(),
            forall|k: int| 0 <= k < i ==> !staar_ved(h@, n@, k),
        decreases h.len() - i,
    {
        if staar_ved_plass(&h, &n, i) {
            return true;
        }
        i += 1;
    }
    false
}

/// What `str::to_lowercase` of the standard library returns for a text.
pub uninterp spec fn smaa_bokstaver(s: Seq<char>) -> Seq<char>;

/// `s` in lower case. Calls `str::to_lowercase`, whose result depends on
/// the text alone; the contract gives that result its name and claims
/// nothing more about it.
#[verifier::external_body]
pub(crate) fn til_smaa_bokstaver(s: &str) -> (r: String)
    ensures
        r@ == smaa_bokstaver(s@),
{
    s.to_lowercase()
}

} // verus!
