//! Character-level string helpers shared by the rest of the library.
use vstd::prelude::*;

verus! {

/// Appends one character to a `String` (`String::push`).
///
/// Trusted: the standard library documents that `push` appends the given
/// character to the end of the string; nothing else is claimed.
#[verifier::external_body]
pub(crate) fn push_char(s: &mut String, c: char)
    ensures
        final(s)@ == old(s)@.push(c),
{
    s.push(c);
}

/// The characters of a string slice, as a vector.
pub fn str_chars(s: &str) -> (v: Vec<char>)
    ensures
        v@ == s@,
{
    let n = s.unicode_len();
    let mut v: Vec<char> = Vec::new();
    let mut i: usize = 0;
    while i < n
        invariant
            n == s@.len(),
            i <= n,
            v@ == s@.subrange(0, i as int),
        decreases n - i,
    {
        v.push(s.get_char(i));
        i = i + 1;
    }
    v
}

pub open spec fn ascii_lower(c: char) -> char {
    if 'A' <= c && c <= 'Z' {
        ((c as u32) + 32) as char
    } else {
        c
    }
}

pub fn char_to_ascii_lower(c: char) -> (r: char)
    ensures
        r == ascii_lower(c),
{
    if 'A' <= c && c <= 'Z' {
        let b: u8 = c as u8;
        (b + 32) as char
    } else {
        c
    }
}


pub open spec fn lower_seq(s: Seq<char>) -> Seq<char> {
    s.map_values(|c: char| ascii_lower(c))
}

/// `s` lowered to ASCII lower case, as a new `String`.
pub fn to_ascii_lower(s: &str) -> (r: String)
    ensures
        r@ == lower_seq(s@),
{
    let cs = str_chars(s);
    let mut r = String::new();
    let mut i: usize = 0;
    while i < cs.len()
        invariant
            cs@ == s@,
            i <= cs.len(),
            r@ == lower_seq(s@.subrange(0, i as int)),
        decreases cs.len() - i,
    {
        let c = char_to_ascii_lower(cs[i]);
        push_char(&mut r, c);
        assert(lower_seq(s@.subrange(0, i + 1)) =~= lower_seq(s@.subrange(0, i as int)).push(c));
        i = i + 1;
    }
    assert(s@.subrange(0, cs.len() as int) =~= s@);
    r
}

/// Characters with the Unicode `White_Space` property.
pub open spec fn is_white_space(c: char) -> bool {
    ||| c == '\t'
    ||| c == '\n'
    ||| c == '\u{0B}'
    ||| c == '\u{0C}'
    ||| c == '\r'
    ||| c == ' '
    ||| c == '\u{85}'
    ||| c == '\u{A0}'
    ||| c == '\u{1680}'
    ||| ('\u{2000}' <= c && c <= '\u{200A}')
    ||| c == '\u{2028}'
    ||| c == '\u{2029}'
    ||| c == '\u{202F}'
    ||| c == '\u{205F}'
    ||| c == '\u{3000}'
}

pub fn char_is_white_space(c: char) -> (r: bool)
    ensures
        r == is_white_space(c),
{
    c == '\t' || c == '\n' || c == '\u{0B}' || c == '\u{0C}' || c == '\r' || c == ' '
        || c == '\u{85}' || c == '\u{A0}' || c == '\u{1680}' || ('\u{2000}' <= c && c <= '\u{200A}')
        || c == '\u{2028}' || c == '\u{2029}' || c == '\u{202F}' || c == '\u{205F}'
        || c == '\u{3000}'
}

/// Number of leading white-space characters of `s`.
pub open spec fn leading_ws(s: Seq<char>) -> nat
    decreases s.len(),
{
    if s.len() > 0 && is_white_space(s[0]) {
        1 + leading_ws(s.drop_first())
    } else {
        0
    }
}

/// Number of trailing white-space characters of `s`.
pub open spec fn trailing_ws(s: Seq<char>) -> nat
    decreases s.len(),
{
    if s.len() > 0 && is_white_space(s.last()) {
        1 + trailing_ws(s.drop_last())
    } else {
        0
    }
}

/// `s` without its leading and trailing white space (`str::trim`).
pub open spec fn trim_seq(s: Seq<char>) -> Seq<char> {
    let a = leading_ws(s);
    if a == s.len() {
        Seq::empty()
    } else {
        s.subrange(a as int, s.len() - trailing_ws(s))
    }
}

proof fn lemma_leading_ws_bound(s: Seq<char>)
    ensures
        leading_ws(s) <= s.len(),
        forall|i: int| 0 <= i < leading_ws(s) ==> is_white_space(#[trigger] s[i]),
        leading_ws(s) < s.len() ==> !is_white_space(s[leading_ws(s) as int]),
    decreases s.len(),
{
    if s.len() > 0 && is_white_space(s[0]) {
        lemma_leading_ws_bound(s.drop_first());
        assert forall|i: int| 0 <= i < leading_ws(s) implies is_white_space(#[trigger] s[i]) by {
            if i > 0 {
                assert(s[i] == s.drop_first()[i - 1]);
            }
        }
    }
}

proof fn lemma_leading_ws_step(s: Seq<char>, i: int)
    requires
        0 <= i < s.len(),
        forall|j: int| 0 <= j < i ==> is_white_space(#[trigger] s[j]),
    ensures
        leading_ws(s) >= i,
        !is_white_space(s[i]) ==> leading_ws(s) == i,
    decreases i,
{
    if i > 0 {
        assert forall|j: int| 0 <= j < i - 1 implies is_white_space(#[trigger] s.drop_first()[j]) by {
            assert(s.drop_first()[j] == s[j + 1]);
        }
        lemma_leading_ws_step(s.drop_first(), i - 1);
    }
}

proof fn lemma_leading_ws_all(s: Seq<char>)
    requires
        forall|j: int| 0 <= j < s.len() ==> is_white_space(#[trigger] s[j]),
    ensures
        leading_ws(s) == s.len(),
    decreases s.len(),
{
    if s.len() > 0 {
        assert forall|j: int| 0 <= j < s.len() - 1 implies is_white_space(#[trigger] s.drop_first()[j]) by {
            assert(s.drop_first()[j] == s[j + 1]);
        }
        lemma_leading_ws_all(s.drop_first());
    }
}

proof fn lemma_trailing_ws_step(s: Seq<char>, k: int)
    requires
        0 <= k < s.len(),
        forall|j: int| s.len() - k <= j < s.len() ==> is_white_space(#[trigger] s[j]),
    ensures
        trailing_ws(s) >= k,
        !is_white_space(s[s.len() - 1 - k]) ==> trailing_ws(s) == k,
    decreases k,
{
    if k > 0 {
        assert forall|j: int| s.drop_last().len() - (k - 1) <= j < s.drop_last().len() implies is_white_space(#[trigger] s.drop_last()[j]) by {
            assert(s.drop_last()[j] == s[j]);
        }
        lemma_trailing_ws_step(s.drop_last(), k - 1);
    }
}

/// `str::trim`, computed character by character.
pub fn trim_chars(cs: &Vec<char>) -> (r: (usize, usize))
    ensures
        r.0 <= r.1 <= cs@.len(),
        cs@.subrange(r.0 as int, r.1 as int) == trim_seq(cs@),
{
    let n = cs.len();
    let mut a: usize = 0;
    while a < n && char_is_white_space(cs[a])
        invariant
            n == cs@.len(),
            a <= n,
            forall|j: int| 0 <= j < a ==> is_white_space(#[trigger] cs@[j]),
        decreases n - a,
    {
        a = a + 1;
    }
    if a == n {
        proof {
            lemma_leading_ws_all(cs@);
        }
        return (0, 0);
    }
    proof {
        lemma_leading_ws_step(cs@, a as int);
    }
    let mut b: usize = n;
    while b > a && char_is_white_space(cs[b - 1])
        invariant
            n == cs@.len(),
            a < n,
            !is_white_space(cs@[a as int]),
            a <= b <= n,
            forall|j: int| b <= j < n ==> is_white_space(#[trigger] cs@[j]),
        decreases b,
    {
        b = b - 1;
    }
    proof {
        assert(b > a);
        lemma_trailing_ws_step(cs@, n - b);
    }
    (a, b)
}

/// The characters `s[from..to]` as a new `String`.
pub fn string_from_chars(cs: &Vec<char>, from: usize, to: usize) -> (r: String)
    requires
        from <= to <= cs@.len(),
    ensures
        r@ == cs@.subrange(from as int, to as int),
{
    let mut r = String::new();
    let mut i: usize = from;
    while i < to
        invariant
            from <= i <= to <= cs@.len(),
            r@ == cs@.subrange(from as int, i as int),
        decreases to - i,
    {
        push_char(&mut r, cs[i]);
        assert(cs@.subrange(from as int, i + 1) =~= cs@.subrange(from as int, i as int).push(cs@[i as int]));
        i = i + 1;
    }
    r
}

/// Whether `s` begins with `prefix`.
pub open spec fn has_prefix(s: Seq<char>, prefix: Seq<char>) -> bool {
    prefix.len() <= s.len() && s.subrange(0, prefix.len() as int) == prefix
}

/// Whether `cs[at..]` begins with `pat`.
pub fn chars_match_at(cs: &Vec<char>, at: usize, pat: &Vec<char>) -> (r: bool)
    requires
        at <= cs@.len(),
    ensures
        r == has_prefix(cs@.skip(at as int), pat@),
{
    if pat.len() > cs.len() - at {
        return false;
    }
    let mut i: usize = 0;
    while i < pat.len()
        invariant
            at <= cs@.len(),
            pat@.len() <= cs@.len() - at,
            i <= pat@.len(),
            forall|j: int| 0 <= j < i ==> cs@[at + j] == pat@[j],
        decreases pat.len() - i,
    {
        assert(at + i < cs.len());
        if cs[at + i] != pat[i] {
            assert(cs@.skip(at as int).subrange(0, pat@.len() as int)[i as int] != pat@[i as int]);
            return false;
        }
        i = i + 1;
    }
    assert(cs@.skip(at as int).subrange(0, pat@.len() as int) =~= pat@);
    true
}

/// Equality of the characters of two string slices.
pub fn str_eq(a: &str, b: &str) -> (r: bool)
    ensures
        r == (a@ == b@),
{
    let x = str_chars(a);
    let y = str_chars(b);
    if x.len() != y.len() {
        return false;
    }
    let r = chars_match_at(&x, 0, &y);
    assert(x@.skip(0) =~= x@);
    if r {
        assert(x@ =~= y@);
    }
    r
}

/// Left-to-right replacement of every non-overlapping occurrence of `pat`
/// by `rep` (the behaviour of `str::replace` for a non-empty pattern).
pub open spec fn replace_all(s: Seq<char>, pat: Seq<char>, rep: Seq<char>) -> Seq<char>
    recommends
        pat.len() > 0,
    decreases s.len(),
{
    if pat.len() == 0 || s.len() < pat.len() {
        s
    } else if s.subrange(0, pat.len() as int) == pat {
        rep + replace_all(s.skip(pat.len() as int), pat, rep)
    } else {
        seq![s[0]] + replace_all(s.drop_first(), pat, rep)
    }
}

/// `s` with every occurrence of `pat` replaced by `rep`.
pub fn replace(s: &str, pat: &str, rep: &str) -> (r: String)
    requires
        pat@.len() > 0,
    ensures
        r@ == replace_all(s@, pat@, rep@),
{
    let cs = str_chars(s);
    let ps = str_chars(pat);
    let n = cs.len();
    let mut out = String::new();
    let mut i: usize = 0;
    assert(cs@.skip(0) =~= s@);
    assert(out@ + replace_all(cs@.skip(0), pat@, rep@) =~= replace_all(s@, pat@, rep@));
    while i < n
        invariant
            cs@ == s@,
            ps@ == pat@,
            n == cs@.len(),
            ps@.len() > 0,
            i <= n,
            out@ + replace_all(cs@.skip(i as int), pat@, rep@) == replace_all(s@, pat@, rep@),
        decreases n - i,
    {
        let ghost rest = cs@.skip(i as int);
        if ps.len() <= n - i && chars_match_at(&cs, i, &ps) {
            out.append(rep);
            assert(rest.skip(ps@.len() as int) =~= cs@.skip(i + ps@.len()));
            assert(out@ + replace_all(cs@.skip(i + ps@.len()), pat@, rep@) =~= replace_all(s@, pat@, rep@));
            i = i + ps.len();
        } else {
            push_char(&mut out, cs[i]);
            assert(rest.drop_first() =~= cs@.skip(i + 1));
            assert(out@ + replace_all(cs@.skip(i + 1), pat@, rep@) =~= replace_all(s@, pat@, rep@));
            i = i + 1;
        }
    }
    assert(cs@.skip(n as int) =~= Seq::<char>::empty());
    assert(out@ + Seq::<char>::empty() =~= out@);
    out
}


/// Whether the characters `t` spell the string literal `lit`.
pub fn chars_eq_str(t: &Vec<char>, lit: &str) -> (r: bool)
    ensures
        r == (t@ == lit@),
{
    let l = str_chars(lit);
    if t.len() != l.len() {
        return false;
    }
    let r = chars_match_at(t, 0, &l);
    assert(t@.skip(0) =~= t@);
    if r {
        assert(t@ =~= l@);
    }
    r
}

/// Whether the characters `t` begin with the string literal `lit`.
pub fn chars_start_with_str(t: &Vec<char>, lit: &str) -> (r: bool)
    ensures
        r == has_prefix(t@, lit@),
{
    let l = str_chars(lit);
    let r = chars_match_at(t, 0, &l);
    assert(t@.skip(0) =~= t@);
    r
}

/// Whether `s` begins with the string literal `lit` (`str::starts_with`).
pub fn str_starts_with(s: &str, lit: &str) -> (r: bool)
    ensures
        r == has_prefix(s@, lit@),
{
    let t = str_chars(s);
    chars_start_with_str(&t, lit)
}

/// The concatenation of two string slices, as a new `String`.
pub fn concat(a: &str, b: &str) -> (r: String)
    ensures
        r@ == a@ + b@,
{
    let mut r = String::from_str(a);
    r.append(b);
    r
}
/// The character of the decimal digit `d`.
pub open spec fn digit_char(d: nat) -> char {
    (48 + d) as char
}

/// The decimal notation of `n`, without leading zeros.
pub open spec fn spec_decimal(n: nat) -> Seq<char>
    decreases n,
{
    if n < 10 {
        seq![digit_char(n)]
    } else {
        spec_decimal(n / 10).push(digit_char(n % 10))
    }
}

fn digit(d: usize) -> (c: char)
    requires
        d < 10,
    ensures
        c == digit_char(d as nat),
{
    match d {
        0 => '0',
        1 => '1',
        2 => '2',
        3 => '3',
        4 => '4',
        5 => '5',
        6 => '6',
        7 => '7',
        8 => '8',
        _ => '9',
    }
}

/// The decimal notation of `n` (what `n.to_string()` prints).
pub fn decimal(n: usize) -> (r: String)
    ensures
        r@ == spec_decimal(n as nat),
    decreases n,
{
    if n < 10 {
        let mut s = String::new();
        push_char(&mut s, digit(n));
        s
    } else {
        let mut s = decimal(n / 10);
        push_char(&mut s, digit(n % 10));
        s
    }
}

} // verus!
