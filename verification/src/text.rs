//! Character and string helpers shared by the rest of the library.

use vstd::prelude::*;
use vstd::string::*;
use vstd::utf8::{decode_utf8, valid_utf8};

verus! {

/// The characters that count as white space: the code points with the
/// Unicode property `White_Space`.
pub open spec fn is_whitespace(c: char) -> bool {
    let n = c as u32;
    ||| 0x09 <= n <= 0x0D
    ||| n == 0x20
    ||| n == 0x85
    ||| n == 0xA0
    ||| n == 0x1680
    ||| 0x2000 <= n <= 0x200A
    ||| n == 0x2028
    ||| n == 0x2029
    ||| n == 0x202F
    ||| n == 0x205F
    ||| n == 0x3000
}

/// Tells whether `c` is white space.
pub fn char_is_whitespace(c: char) -> (b: bool)
    ensures
        b == is_whitespace(c),
{
    let n: u32 = c as u32;
    (0x09 <= n && n <= 0x0D) || n == 0x20 || n == 0x85 || n == 0xA0 || n == 0x1680 || (0x2000 <= n
        && n <= 0x200A) || n == 0x2028 || n == 0x2029 || n == 0x202F || n == 0x205F || n == 0x3000
}

/// The characters of `s`, in order.
pub fn chars_of(s: &str) -> (v: Vec<char>)
    ensures
        v@ == s@,
{
    let mut v: Vec<char> = Vec::new();
    for c in it: s.chars()
        invariant
            v@ == it.seq().take(it.index() as int),
    {
        v.push(c);
    }
    v
}

/// How many characters at the front of `s` are white space.
pub open spec fn leading_whitespace(s: Seq<char>) -> nat
    decreases s.len(),
{
    if s.len() > 0 && is_whitespace(s[0]) {
        1 + leading_whitespace(s.drop_first())
    } else {
        0
    }
}

/// How many characters at the back of `s` are white space.
pub open spec fn trailing_whitespace(s: Seq<char>) -> nat
    decreases s.len(),
{
    if s.len() > 0 && is_whitespace(s.last()) {
        1 + trailing_whitespace(s.drop_last())
    } else {
        0
    }
}

/// `s` without the white space at its front and at its back.
pub open spec fn trim(s: Seq<char>) -> Seq<char> {
    let rest = s.skip(leading_whitespace(s) as int);
    rest.take(rest.len() - trailing_whitespace(rest))
}

/// A run of white space of length `n` at the front of `s`, followed by the
/// end of `s` or by another character, is all of its leading white space.
pub proof fn lemma_leading_whitespace(s: Seq<char>, n: int)
    requires
        0 <= n <= s.len(),
        forall|k: int| 0 <= k < n ==> is_whitespace(#[trigger] s[k]),
        n < s.len() ==> !is_whitespace(s[n]),
    ensures
        leading_whitespace(s) == n,
    decreases n,
{
    if n > 0 {
        let t = s.drop_first();
        assert forall|k: int| 0 <= k < n - 1 implies is_whitespace(#[trigger] t[k]) by {
            assert(t[k] == s[k + 1]);
        }
        if n - 1 < t.len() {
            assert(t[n - 1] == s[n]);
        }
        lemma_leading_whitespace(t, n - 1);
    }
}

/// A run of white space of length `n` at the back of `s`, preceded by the
/// start of `s` or by another character, is all of its trailing white space.
pub proof fn lemma_trailing_whitespace(s: Seq<char>, n: int)
    requires
        0 <= n <= s.len(),
        forall|k: int| s.len() - n <= k < s.len() ==> is_whitespace(#[trigger] s[k]),
        n < s.len() ==> !is_whitespace(s[s.len() - n - 1]),
    ensures
        trailing_whitespace(s) == n,
    decreases n,
{
    if n > 0 {
        let t = s.drop_last();
        assert forall|k: int| t.len() - (n - 1) <= k < t.len() implies is_whitespace(
            #[trigger] t[k],
        ) by {
            assert(t[k] == s[k]);
        }
        if n - 1 < t.len() {
            assert(t[t.len() - (n - 1) - 1] == s[s.len() - n - 1]);
        }
        lemma_trailing_whitespace(t, n - 1);
    }
}

/// The bounds of the trimmed part of `chars[from..to]`: the part is
/// `chars[r.0..r.1]`.
pub fn trim_bounds(chars: &Vec<char>, from: usize, to: usize) -> (r: (usize, usize))
    requires
        from <= to <= chars.len(),
    ensures
        from <= r.0 <= r.1 <= to,
        chars@.subrange(r.0 as int, r.1 as int) == trim(chars@.subrange(from as int, to as int)),
{
    let ghost s = chars@.subrange(from as int, to as int);
    let mut a: usize = from;
    while a < to && char_is_whitespace(chars[a])
        invariant
            from <= a <= to <= chars.len(),
            forall|k: int| from <= k < a ==> is_whitespace(#[trigger] chars@[k]),
        decreases to - a,
    {
        a += 1;
    }
    let mut b: usize = to;
    while b > a && char_is_whitespace(chars[b - 1])
        invariant
            from <= a <= b <= to <= chars.len(),
            forall|k: int| b <= k < to ==> is_whitespace(#[trigger] chars@[k]),
        decreases b - a,
    {
        b -= 1;
    }
    proof {
        assert forall|k: int| 0 <= k < a - from implies is_whitespace(#[trigger] s[k]) by {
            assert(s[k] == chars@[from + k]);
        }
        lemma_leading_whitespace(s, a - from);
        let rest = s.skip(a - from);
        assert(rest =~= chars@.subrange(a as int, to as int));
        assert forall|k: int| rest.len() - (to - b) <= k < rest.len() implies is_whitespace(
            #[trigger] rest[k],
        ) by {
            assert(rest[k] == chars@[a + k]);
        }
        lemma_trailing_whitespace(rest, to - b);
        assert(rest.take(rest.len() - (to - b)) =~= chars@.subrange(a as int, b as int));
    }
    (a, b)
}

/// `s` without the white space at its front and at its back.
pub fn trimmed(s: &str) -> (r: &str)
    ensures
        r@ == trim(s@),
{
    let chars = chars_of(s);
    let (a, b) = trim_bounds(&chars, 0, chars.len());
    assert(chars@.subrange(0, chars.len() as int) =~= s@);
    s.substring_char(a, b)
}

/// The views of a sequence of strings.
pub open spec fn views(v: Seq<String>) -> Seq<Seq<char>> {
    Seq::new(v.len(), |i: int| v[i]@)
}

/// A copy of `v`.
pub fn copy_strings(v: &Vec<String>) -> (r: Vec<String>)
    ensures
        views(r@) == views(v@),
{
    let mut r: Vec<String> = Vec::new();
    let mut i: usize = 0;
    while i < v.len()
        invariant
            i <= v.len(),
            r.len() == i,
            forall|k: int| 0 <= k < i ==> r@[k]@ == v@[k]@,
        decreases v.len() - i,
    {
        r.push(v[i].clone());
        i += 1;
    }
    assert(views(r@) =~= views(v@));
    r
}

/// Tells whether `needle` is one of `v`.
pub fn contains_string(v: &Vec<String>, needle: &str) -> (b: bool)
    ensures
        b == views(v@).contains(needle@),
{
    let mut i: usize = 0;
    while i < v.len()
        invariant
            i <= v.len(),
            forall|k: int| 0 <= k < i ==> views(v@)[k] != needle@,
        decreases v.len() - i,
    {
        if str_equal(v[i].as_str(), needle) {
            assert(views(v@)[i as int] == needle@);
            return true;
        }
        i += 1;
    }
    false
}

/// Tells whether `a` and `b` hold the same characters.
pub fn str_equal(a: &str, b: &str) -> (r: bool)
    ensures
        r == (a@ == b@),
{
    let x = chars_of(a);
    let y = chars_of(b);
    if x.len() != y.len() {
        return false;
    }
    let mut i: usize = 0;
    while i < x.len()
        invariant
            i <= x.len(),
            x.len() == y.len(),
            x@ == a@,
            y@ == b@,
            forall|k: int| 0 <= k < i ==> x@[k] == y@[k],
        decreases x.len() - i,
    {
        if x[i] != y[i] {
            assert(a@[i as int] != b@[i as int]);
            return false;
        }
        i += 1;
    }
    assert(x@ =~= y@);
    true
}

/// `template` with every occurrence of `placeholder` replaced by `text`,
/// the occurrences taken from the left and not overlapping. An empty
/// placeholder occurs nowhere.
pub open spec fn substitute(
    template: Seq<char>,
    placeholder: Seq<char>,
    text: Seq<char>,
) -> Seq<char>
    decreases template.len(),
{
    if placeholder.len() == 0 || template.len() == 0 {
        template
    } else if placeholder.is_prefix_of(template) {
        text + substitute(template.skip(placeholder.len() as int), placeholder, text)
    } else {
        seq![template[0]] + substitute(template.skip(1), placeholder, text)
    }
}

/// Tells whether `pattern` stands in `chars` at `at`.
fn occurs_at(chars: &Vec<char>, at: usize, pattern: &Vec<char>) -> (b: bool)
    requires
        at <= chars.len(),
    ensures
        b == pattern@.is_prefix_of(chars@.skip(at as int)),
{
    if pattern.len() > chars.len() - at {
        return false;
    }
    let ghost rest = chars@.skip(at as int);
    let mut k: usize = 0;
    while k < pattern.len()
        invariant
            k <= pattern.len() <= chars.len() - at,
            rest == chars@.skip(at as int),
            forall|j: int| 0 <= j < k ==> pattern@[j] == rest[j],
        decreases pattern.len() - k,
    {
        if chars[at + k] != pattern[k] {
            assert(rest[k as int] != pattern@[k as int]);
            assert(rest.subrange(0, pattern@.len() as int)[k as int] == rest[k as int]);
            return false;
        }
        k += 1;
    }
    assert(pattern@ =~= rest.subrange(0, pattern@.len() as int));
    true
}

/// `template` with every occurrence of `placeholder` replaced by `text`.
pub fn replace_placeholder(template: &str, placeholder: &str, text: &str) -> (r: String)
    ensures
        r@ == substitute(template@, placeholder@, text@),
{
    let t = chars_of(template);
    let p = chars_of(placeholder);
    if p.len() == 0 {
        return template.to_owned();
    }
    let mut out = String::new();
    let mut kept: usize = 0;
    let mut i: usize = 0;
    assert(out@ + t@.subrange(0, 0) + substitute(t@.skip(0), p@, text@) =~= substitute(
        t@,
        p@,
        text@,
    )) by {
        assert(t@.skip(0) =~= t@);
    }
    while i < t.len()
        invariant
            kept <= i <= t.len(),
            t@ == template@,
            p@ == placeholder@,
            p.len() > 0,
            out@ + t@.subrange(kept as int, i as int) + substitute(t@.skip(i as int), p@, text@)
                == substitute(t@, p@, text@),
        decreases t.len() - i,
    {
        let ghost rest = t@.skip(i as int);
        let ghost before = out@;
        if occurs_at(&t, i, &p) {
            out.append(template.substring_char(kept, i));
            out.append(text);
            proof {
                assert(rest.skip(p.len() as int) =~= t@.skip(i + p.len()));
                assert(out@ + t@.subrange(i + p.len(), i + p.len()) + substitute(
                    t@.skip(i + p.len()),
                    p@,
                    text@,
                ) =~= before + t@.subrange(kept as int, i as int) + substitute(rest, p@, text@));
            }
            i += p.len();
            kept = i;
        } else {
            proof {
                assert(rest.skip(1) =~= t@.skip(i + 1));
                assert(rest[0] == t@[i as int]);
                assert(out@ + t@.subrange(kept as int, i + 1) + substitute(
                    t@.skip(i + 1),
                    p@,
                    text@,
                ) =~= before + t@.subrange(kept as int, i as int) + substitute(rest, p@, text@));
            }
            i += 1;
        }
    }
    assert(t@.skip(t.len() as int).len() == 0);
    out.append(template.substring_char(kept, t.len()));
    out
}

/// The decimal digit `d`.
pub open spec fn digit(d: int) -> Seq<char> {
    if d == 0 {
        "0"@
    } else if d == 1 {
        "1"@
    } else if d == 2 {
        "2"@
    } else if d == 3 {
        "3"@
    } else if d == 4 {
        "4"@
    } else if d == 5 {
        "5"@
    } else if d == 6 {
        "6"@
    } else if d == 7 {
        "7"@
    } else if d == 8 {
        "8"@
    } else {
        "9"@
    }
}

/// A natural number in decimal, without leading zeros.
pub open spec fn decimal_nat(n: nat) -> Seq<char>
    decreases n,
{
    if n < 10 {
        digit(n as int)
    } else {
        decimal_nat(n / 10) + digit((n % 10) as int)
    }
}

/// An integer in decimal, with a minus sign where it is negative.
pub open spec fn decimal(n: int) -> Seq<char> {
    if n < 0 {
        "-"@ + decimal_nat((-n) as nat)
    } else {
        decimal_nat(n as nat)
    }
}

/// The decimal digit `d`.
fn digit_text(d: u32) -> (r: &'static str)
    requires
        d < 10,
    ensures
        r@ == digit(d as int),
{
    if d == 0 {
        "0"
    } else if d == 1 {
        "1"
    } else if d == 2 {
        "2"
    } else if d == 3 {
        "3"
    } else if d == 4 {
        "4"
    } else if d == 5 {
        "5"
    } else if d == 6 {
        "6"
    } else if d == 7 {
        "7"
    } else if d == 8 {
        "8"
    } else {
        "9"
    }
}

/// Appends `n` in decimal to `out`.
fn append_decimal(out: &mut String, n: u32)
    ensures
        final(out)@ == old(out)@ + decimal_nat(n as nat),
    decreases n,
{
    if n >= 10 {
        append_decimal(out, n / 10);
    }
    out.append(digit_text(n % 10));
    assert(final(out)@ =~= old(out)@ + decimal_nat(n as nat));
}

/// `n` in decimal.
pub fn decimal_text(n: i32) -> (r: String)
    ensures
        r@ == decimal(n as int),
{
    let mut r = String::new();
    if n < 0 {
        r.append("-");
        let magnitude: u32 = (0 - (n as i64)) as u32;
        append_decimal(&mut r, magnitude);
    } else {
        append_decimal(&mut r, n as u32);
    }
    assert(r@ =~= decimal(n as int));
    r
}

/// What `String::from_utf8_lossy` makes of bytes: the text they decode
/// to, with a replacement character for each part that is no UTF-8.
pub uninterp spec fn utf8_lossy(bytes: Seq<u8>) -> Seq<char>;

/// Calls `String::from_utf8_lossy`. Trusted: the text is the one that
/// `utf8_lossy` names for these bytes, and for valid UTF-8 it is what
/// the bytes decode to.
#[verifier::external_body]
pub(crate) fn lossy_text(bytes: &[u8]) -> (r: String)
    ensures
        r@ == utf8_lossy(bytes@),
        valid_utf8(bytes@) ==> r@ == decode_utf8(bytes@),
{
    String::from_utf8_lossy(bytes).into_owned()
}

} // verus!
