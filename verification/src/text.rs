//! Character-level string operations used to build file contents, names and
//! command lines, each stated over the `Seq<char>` view of a string.
use vstd::prelude::*;
use vstd::string::StringExecFns;

verus! {

/// All occurrences of `pat` in `s`, scanned from the left without overlap,
/// replaced by `rep`; an empty pattern leaves `s` as it is.
pub open spec fn replaced(s: Seq<char>, pat: Seq<char>, rep: Seq<char>) -> Seq<char>
    decreases s.len(),
{
    if s.len() == 0 {
        s
    } else if 0 < pat.len() <= s.len() && s.take(pat.len() as int) == pat {
        rep + replaced(s.skip(pat.len() as int), pat, rep)
    } else {
        seq![s[0]] + replaced(s.skip(1), pat, rep)
    }
}

/// `s` with every occurrence of the character `from` changed into `to`.
pub open spec fn swapped(s: Seq<char>, from: char, to: char) -> Seq<char> {
    s.map_values(|c: char| if c == from { to } else { c })
}

/// `s` without any occurrence of the characters `a` and `b`.
pub open spec fn without_chars(s: Seq<char>, a: char, b: char) -> Seq<char>
    decreases s.len(),
{
    if s.len() == 0 {
        s
    } else if s.last() == a || s.last() == b {
        without_chars(s.drop_last(), a, b)
    } else {
        without_chars(s.drop_last(), a, b).push(s.last())
    }
}

/// ASCII lower case of one character; other characters are kept.
pub open spec fn lower_char(c: char) -> char {
    if 'A' <= c <= 'Z' {
        ((c as u8) + 32) as char
    } else {
        c
    }
}

/// ASCII upper case of one character; other characters are kept.
pub open spec fn upper_char(c: char) -> char {
    if 'a' <= c <= 'z' {
        ((c as u8) - 32) as char
    } else {
        c
    }
}

pub open spec fn ascii_lowercase(s: Seq<char>) -> Seq<char> {
    s.map_values(|c: char| lower_char(c))
}

pub open spec fn ascii_uppercase(s: Seq<char>) -> Seq<char> {
    s.map_values(|c: char| upper_char(c))
}

/// The characters of a string slice, in order.
pub(crate) fn chars_of(s: &str) -> (v: Vec<char>)
    ensures
        v@ == s@,
{
    broadcast use vstd::string::group_string_axioms;

    let mut v: Vec<char> = Vec::new();
    for c in it: s.chars()
        invariant
            it.seq() == s@,
            v@ == s@.take(it.index() as int),
    {
        v.push(c);
        assert(s@.take(it.index() + 1) =~= s@.take(it.index() as int).push(c));
    }
    assert(s@.take(s@.len() as int) =~= s@);
    v
}

/// Appends one character at the end of a string (`String::push`).
#[verifier::external_body]
pub(crate) fn push_char(s: &mut String, c: char)
    ensures
        final(s)@ == old(s)@.push(c),
{
    s.push(c)
}

/// Whether two string slices hold the same characters.
pub fn str_eq(a: &str, b: &str) -> (res: bool)
    ensures
        res == (a@ == b@),
{
    let x = a.to_owned();
    let y = b.to_owned();
    x == y
}

/// A new `String` holding the characters of `s`.
pub fn owned(s: &str) -> (res: String)
    ensures
        res@ == s@,
{
    String::from_str(s)
}

/// `a` followed by `b`.
pub fn concat2(a: &str, b: &str) -> (res: String)
    ensures
        res@ == a@ + b@,
{
    let mut r = String::from_str(a);
    r.append(b);
    r
}

/// `a`, `b` and `c` one after the other.
pub fn concat3(a: &str, b: &str, c: &str) -> (res: String)
    ensures
        res@ == a@ + b@ + c@,
{
    let mut r = String::from_str(a);
    r.append(b);
    r.append(c);
    r
}

/// Whether `pv` occurs in `sv` at position `i`.
fn occurs_at(sv: &Vec<char>, pv: &Vec<char>, i: usize) -> (res: bool)
    requires
        i + pv.len() <= sv.len(),
    ensures
        res == (sv@.subrange(i as int, i + pv.len()) == pv@),
{
    let m = pv.len();
    let mut k: usize = 0;
    while k < m
        invariant
            m == pv.len(),
            i + m <= sv.len(),
            k <= m,
            forall|j: int| 0 <= j < k ==> sv@[i + j] == pv@[j],
        decreases m - k,
    {
        if sv[i + k] != pv[k] {
            assert(sv@.subrange(i as int, i + m)[k as int] != pv@[k as int]);
            return false;
        }
        k = k + 1;
    }
    assert(sv@.subrange(i as int, i + m) =~= pv@);
    true
}

proof fn lemma_skip_skip(s: Seq<char>, i: int, j: int)
    requires
        0 <= i,
        0 <= j,
        i + j <= s.len(),
    ensures
        s.skip(i).skip(j) == s.skip(i + j),
{
    assert(s.skip(i).skip(j) =~= s.skip(i + j));
}

/// `str::replace` for a non-empty pattern.
pub fn replace_all(s: &str, pat: &str, rep: &str) -> (res: String)
    requires
        pat@.len() > 0,
    ensures
        res@ == replaced(s@, pat@, rep@),
{
    let sv = chars_of(s);
    let pv = chars_of(pat);
    let n = sv.len();
    let m = pv.len();
    let mut out = String::new();
    let mut i: usize = 0;
    assert(s@.skip(0) =~= s@);
    while i < n
        invariant
            sv@ == s@,
            pv@ == pat@,
            n == sv.len(),
            m == pv.len(),
            m > 0,
            i <= n,
            replaced(s@, pat@, rep@) == out@ + replaced(s@.skip(i as int), pat@, rep@),
        decreases n - i,
    {
        let ghost rest = s@.skip(i as int);
        if m <= n - i && occurs_at(&sv, &pv, i) {
            proof {
                assert(rest.take(m as int) =~= s@.subrange(i as int, i + m));
                lemma_skip_skip(s@, i as int, m as int);
            }
            out.append(rep);
            i = i + m;
        } else {
            proof {
                if m <= rest.len() {
                    assert(rest.take(m as int) =~= s@.subrange(i as int, i + m));
                }
                lemma_skip_skip(s@, i as int, 1);
            }
            push_char(&mut out, sv[i]);
            i = i + 1;
        }
    }
    assert(s@.skip(n as int).len() == 0);
    assert(out@ + s@.skip(n as int) =~= out@);
    out
}

/// `s` with the character `from` changed into `to` everywhere.
pub fn replace_char(s: &str, from: char, to: char) -> (res: String)
    ensures
        res@ == swapped(s@, from, to),
{
    let sv = chars_of(s);
    let n = sv.len();
    let mut out = String::new();
    let mut i: usize = 0;
    while i < n
        invariant
            sv@ == s@,
            n == sv.len(),
            i <= n,
            out@ == swapped(s@.take(i as int), from, to),
        decreases n - i,
    {
        let c = sv[i];
        let d = if c == from { to } else { c };
        push_char(&mut out, d);
        assert(swapped(s@.take(i + 1), from, to) =~= swapped(s@.take(i as int), from, to).push(d));
        i = i + 1;
    }
    assert(s@.take(n as int) =~= s@);
    out
}

/// `s` with the characters `a` and `b` left out.
pub fn remove_chars(s: &str, a: char, b: char) -> (res: String)
    ensures
        res@ == without_chars(s@, a, b),
{
    let sv = chars_of(s);
    let n = sv.len();
    let mut out = String::new();
    let mut i: usize = 0;
    while i < n
        invariant
            sv@ == s@,
            n == sv.len(),
            i <= n,
            out@ == without_chars(s@.take(i as int), a, b),
        decreases n - i,
    {
        let c = sv[i];
        assert(s@.take(i + 1).drop_last() =~= s@.take(i as int));
        if c != a && c != b {
            push_char(&mut out, c);
        }
        i = i + 1;
    }
    assert(s@.take(n as int) =~= s@);
    out
}

/// ASCII lower case of `s` (`str::to_ascii_lowercase`).
pub fn to_ascii_lower(s: &str) -> (res: String)
    ensures
        res@ == ascii_lowercase(s@),
{
    let sv = chars_of(s);
    let n = sv.len();
    let mut out = String::new();
    let mut i: usize = 0;
    while i < n
        invariant
            sv@ == s@,
            n == sv.len(),
            i <= n,
            out@ == ascii_lowercase(s@.take(i as int)),
        decreases n - i,
    {
        let c = sv[i];
        let d = if 'A' <= c && c <= 'Z' { ((c as u8) + 32) as char } else { c };
        push_char(&mut out, d);
        assert(ascii_lowercase(s@.take(i + 1)) =~= ascii_lowercase(s@.take(i as int)).push(d));
        i = i + 1;
    }
    assert(s@.take(n as int) =~= s@);
    out
}

/// ASCII upper case of `s` (`str::to_ascii_uppercase`).
pub fn to_ascii_upper(s: &str) -> (res: String)
    ensures
        res@ == ascii_uppercase(s@),
{
    let sv = chars_of(s);
    let n = sv.len();
    let mut out = String::new();
    let mut i: usize = 0;
    while i < n
        invariant
            sv@ == s@,
            n == sv.len(),
            i <= n,
            out@ == ascii_uppercase(s@.take(i as int)),
        decreases n - i,
    {
        let c = sv[i];
        let d = if 'a' <= c && c <= 'z' { ((c as u8) - 32) as char } else { c };
        push_char(&mut out, d);
        assert(ascii_uppercase(s@.take(i + 1)) =~= ascii_uppercase(s@.take(i as int)).push(d));
        i = i + 1;
    }
    assert(s@.take(n as int) =~= s@);
    out
}

/// Whether the character `c` occurs in `s`.
pub fn has_char(s: &str, c: char) -> (res: bool)
    ensures
        res == s@.contains(c),
{
    let sv = chars_of(s);
    let n = sv.len();
    let mut i: usize = 0;
    while i < n
        invariant
            sv@ == s@,
            n == sv.len(),
            i <= n,
            forall|j: int| 0 <= j < i ==> s@[j] != c,
        decreases n - i,
    {
        if sv[i] == c {
            assert(s@[i as int] == c);
            return true;
        }
        i = i + 1;
    }
    false
}

/// Whether `pat` occurs in `s`.
pub open spec fn occurs_in(s: Seq<char>, pat: Seq<char>) -> bool {
    exists|i: int| 0 <= i && i + pat.len() <= s.len() && #[trigger] s.subrange(i, i + pat.len()) == pat
}

/// A pattern found at position `i` occurs in `s`.
pub proof fn lemma_occurs_at(s: Seq<char>, pat: Seq<char>, i: int)
    requires
        0 <= i,
        i + pat.len() <= s.len(),
        s.subrange(i, i + pat.len()) == pat,
    ensures
        occurs_in(s, pat),
{
}

/// Replacing a pattern that does not occur leaves a string as it is.
pub proof fn lemma_replaced_absent(s: Seq<char>, pat: Seq<char>, rep: Seq<char>)
    requires
        !occurs_in(s, pat),
    ensures
        replaced(s, pat, rep) == s,
    decreases s.len(),
{
    if s.len() > 0 {
        if 0 < pat.len() <= s.len() && s.take(pat.len() as int) == pat {
            assert(s.subrange(0, 0 + pat.len() as int) == pat);
            assert(occurs_in(s, pat));
        }
        assert(!occurs_in(s.skip(1), pat)) by {
            if occurs_in(s.skip(1), pat) {
                let i = choose|i: int|
                    0 <= i && i + pat.len() <= s.skip(1).len() && #[trigger] s.skip(1).subrange(i, i + pat.len())
                        == pat;
                assert(s.subrange(i + 1, i + 1 + pat.len()) =~= s.skip(1).subrange(i, i + pat.len()));
            }
        }
        lemma_replaced_absent(s.skip(1), pat, rep);
        assert(seq![s[0]] + s.skip(1) =~= s);
    }
}

/// After a character is changed into another, it no longer occurs.
pub proof fn lemma_swapped_removes(s: Seq<char>, from: char, to: char)
    requires
        from != to,
    ensures
        !swapped(s, from, to).contains(from),
{
}

/// The decimal digit for `d`, which is below ten.
pub open spec fn digit(d: int) -> char {
    if d == 0 {
        '0'
    } else if d == 1 {
        '1'
    } else if d == 2 {
        '2'
    } else if d == 3 {
        '3'
    } else if d == 4 {
        '4'
    } else if d == 5 {
        '5'
    } else if d == 6 {
        '6'
    } else if d == 7 {
        '7'
    } else if d == 8 {
        '8'
    } else {
        '9'
    }
}

/// The decimal digits of `n`, most significant first, with no leading zero.
pub open spec fn decimal_digits(n: nat) -> Seq<char>
    decreases n,
{
    if n < 10 {
        seq![digit(n as int)]
    } else {
        decimal_digits(n / 10).push(digit((n % 10) as int))
    }
}

/// `n` written in decimal, with a `-` before a negative number.
pub open spec fn decimal(n: int) -> Seq<char> {
    if n < 0 {
        seq!['-'] + decimal_digits((-n) as nat)
    } else {
        decimal_digits(n as nat)
    }
}

fn digit_char(d: u64) -> (c: char)
    requires
        d < 10,
    ensures
        c == digit(d as int),
{
    if d == 0 {
        '0'
    } else if d == 1 {
        '1'
    } else if d == 2 {
        '2'
    } else if d == 3 {
        '3'
    } else if d == 4 {
        '4'
    } else if d == 5 {
        '5'
    } else if d == 6 {
        '6'
    } else if d == 7 {
        '7'
    } else if d == 8 {
        '8'
    } else {
        '9'
    }
}

fn digits_text(n: u64) -> (res: String)
    ensures
        res@ == decimal_digits(n as nat),
    decreases n,
{
    if n < 10 {
        let mut s = owned("");
        proof {
            reveal_strlit("");
        }
        push_char(&mut s, digit_char(n));
        assert(s@ =~= seq![digit(n as int)]);
        s
    } else {
        let mut s = digits_text(n / 10);
        push_char(&mut s, digit_char(n % 10));
        s
    }
}

/// `n` written in decimal, as `Display` writes an integer.
pub fn decimal_text(n: i32) -> (res: String)
    ensures
        res@ == decimal(n as int),
{
    if n < 0 {
        let m: i64 = n as i64;
        let digits = digits_text((-m) as u64);
        proof {
            reveal_strlit("-");
        }
        let res = concat2("-", digits.as_str());
        assert(res@ =~= seq!['-'] + decimal_digits((-(n as int)) as nat));
        res
    } else {
        digits_text(n as u64)
    }
}

} // verus!
