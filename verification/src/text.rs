//! Small routines on text that the rest of the crate is built from, each with
//! its meaning stated over sequences of characters.

use vstd::prelude::*;
use vstd::string::*;

verus! {

/// Characters that carry the Unicode `White_Space` property.
pub open spec fn is_space(c: char) -> bool {
    let n = c as u32;
    (0x09 <= n <= 0x0D) || n == 0x20 || n == 0x85 || n == 0xA0 || n == 0x1680 || (0x2000 <= n
        <= 0x200A) || n == 0x2028 || n == 0x2029 || n == 0x202F || n == 0x205F || n == 0x3000
}

/// `s` without its leading white space.
pub open spec fn skip_front(s: Seq<char>) -> Seq<char>
    decreases s.len(),
{
    if s.len() > 0 && is_space(s.first()) {
        skip_front(s.drop_first())
    } else {
        s
    }
}

/// `s` without its trailing white space.
pub open spec fn skip_back(s: Seq<char>) -> Seq<char>
    decreases s.len(),
{
    if s.len() > 0 && is_space(s.last()) {
        skip_back(s.drop_last())
    } else {
        s
    }
}

/// `s` without leading and trailing white space.
pub open spec fn trimmed(s: Seq<char>) -> Seq<char> {
    skip_back(skip_front(s))
}

/// Position of the first `c` in `s`, or the length of `s` when there is none.
pub open spec fn find_char(s: Seq<char>, c: char) -> nat
    decreases s.len(),
{
    if s.len() == 0 || s.first() == c {
        0
    } else {
        1 + find_char(s.drop_first(), c)
    }
}

/// The part of `s` before the first `sep`; all of `s` when it holds none.
pub open spec fn first_field(s: Seq<char>, sep: char) -> Seq<char> {
    s.subrange(0, find_char(s, sep) as int)
}

/// Position at which `pat` first occurs in `s`, or the length of `s` when it
/// does not occur.
pub open spec fn find_text(s: Seq<char>, pat: Seq<char>) -> nat
    decreases s.len(),
{
    if s.len() == 0 || pat.is_prefix_of(s) {
        0
    } else {
        1 + find_text(s.drop_first(), pat)
    }
}

/// Code point of `c`, with the ASCII capitals mapped onto the small letters.
pub open spec fn fold(c: char) -> u32 {
    let n = c as u32;
    if 0x41 <= n <= 0x5A {
        (n + 32) as u32
    } else {
        n
    }
}

/// `a` and `b` are equal up to the case of ASCII letters.
pub open spec fn same_ignoring_case(a: Seq<char>, b: Seq<char>) -> bool {
    a.len() == b.len() && forall|i: int| 0 <= i < a.len() ==> fold(#[trigger] a[i]) == fold(b[i])
}

/// `c`, or its small letter where `c` is an ASCII capital.
pub open spec fn lower(c: char) -> char {
    if 'A' <= c && c <= 'Z' {
        ((c as u8 + 32) as u8) as char
    } else {
        c
    }
}

/// `s` with every ASCII capital replaced by its small letter.
pub open spec fn lowercase(s: Seq<char>) -> Seq<char> {
    Seq::new(s.len(), |i: int| lower(s[i]))
}

/// Decimal digits of `n`, most significant first.
pub open spec fn decimal(n: nat) -> Seq<char>
    decreases n,
{
    if n < 10 {
        seq![digit(n)]
    } else {
        decimal(n / 10).push(digit(n % 10))
    }
}

/// The character for a single decimal digit.
pub open spec fn digit(d: nat) -> char {
    if d == 0 {
        '0'
    } else if d == 1 {
        '1'
    } else if d == 2 {
        '2'
    } else if d == 3 {
        '3'
    } else if d == 4 {
        '4'
    } else if d == 5 {
        '5'
    } else if d == 6 {
        '6'
    } else if d == 7 {
        '7'
    } else if d == 8 {
        '8'
    } else {
        '9'
    }
}

/// What is left after skipping leading white space is the end of the
/// text, and does not begin with white space.
pub proof fn skip_front_is_clean(s: Seq<char>)
    ensures
        skip_front(s).len() <= s.len(),
        skip_front(s) == s.subrange(s.len() - skip_front(s).len(), s.len() as int),
        skip_front(s).len() > 0 ==> !is_space(skip_front(s).first()),
    decreases s.len(),
{
    if s.len() > 0 && is_space(s.first()) {
        let rest = s.drop_first();
        skip_front_is_clean(rest);
        assert(rest.subrange(rest.len() - skip_front(rest).len(), rest.len() as int)
            =~= s.subrange(s.len() - skip_front(s).len(), s.len() as int));
    } else {
        assert(s.subrange(0, s.len() as int) =~= s);
    }
}

/// What is left after skipping trailing white space is the start of the
/// text, and does not end with white space.
pub proof fn skip_back_is_clean(s: Seq<char>)
    ensures
        skip_back(s).len() <= s.len(),
        skip_back(s) == s.subrange(0, skip_back(s).len() as int),
        skip_back(s).len() > 0 ==> !is_space(skip_back(s).last()),
    decreases s.len(),
{
    if s.len() > 0 && is_space(s.last()) {
        let rest = s.drop_last();
        skip_back_is_clean(rest);
        assert(rest.subrange(0, skip_back(rest).len() as int) =~= s.subrange(
            0,
            skip_back(s).len() as int,
        ));
    } else {
        assert(s.subrange(0, s.len() as int) =~= s);
    }
}

/// Trimmed text has no white space at either end, and trimming it again
/// changes nothing.
pub proof fn trimmed_is_clean(s: Seq<char>)
    ensures
        trimmed(s).len() > 0 ==> !is_space(trimmed(s).first()) && !is_space(trimmed(s).last()),
        trimmed(trimmed(s)) == trimmed(s),
{
    let t = skip_front(s);
    let u = skip_back(t);
    skip_front_is_clean(s);
    skip_back_is_clean(t);
    if u.len() > 0 {
        assert(u.first() == t.first());
    }
}

pub fn char_is_space(c: char) -> (b: bool)
    ensures
        b == is_space(c),
{
    let n: u32 = c as u32;
    (0x09 <= n && n <= 0x0D) || n == 0x20 || n == 0x85 || n == 0xA0 || n == 0x1680 || (0x2000 <= n
        && n <= 0x200A) || n == 0x2028 || n == 0x2029 || n == 0x202F || n == 0x205F || n == 0x3000
}

pub fn fold_char(c: char) -> (n: u32)
    ensures
        n == fold(c),
{
    let n: u32 = c as u32;
    if 0x41 <= n && n <= 0x5A {
        n + 32
    } else {
        n
    }
}

/// Strips leading and trailing white space.
pub fn trim(s: &str) -> (r: &str)
    ensures
        r@ == trimmed(s@),
{
    let n: usize = s.unicode_len();
    let mut a: usize = 0;
    assert(s@.subrange(0, n as int) =~= s@);
    while a < n && char_is_space(s.get_char(a))
        invariant
            a <= n,
            n == s@.len(),
            skip_front(s@) == skip_front(s@.subrange(a as int, n as int)),
        decreases n - a,
    {
        assert(s@.subrange(a as int, n as int).drop_first() =~= s@.subrange(a + 1, n as int));
        a += 1;
    }
    let mut b: usize = n;
    while b > a && char_is_space(s.get_char(b - 1))
        invariant
            a <= b <= n,
            n == s@.len(),
            skip_back(s@.subrange(a as int, n as int)) == skip_back(
                s@.subrange(a as int, b as int),
            ),
        decreases b - a,
    {
        assert(s@.subrange(a as int, b as int).drop_last() =~= s@.subrange(a as int, b - 1));
        b -= 1;
    }
    s.substring_char(a, b)
}

/// Whether `s` begins with `prefix`.
pub fn starts_with(s: &str, prefix: &str) -> (b: bool)
    ensures
        b == prefix@.is_prefix_of(s@),
{
    let n: usize = s.unicode_len();
    let m: usize = prefix.unicode_len();
    if m > n {
        return false;
    }
    let mut i: usize = 0;
    while i < m
        invariant
            i <= m <= n,
            n == s@.len(),
            m == prefix@.len(),
            forall|j: int| 0 <= j < i ==> s@[j] == prefix@[j],
        decreases m - i,
    {
        if s.get_char(i) != prefix.get_char(i) {
            assert(s@.subrange(0, m as int)[i as int] != prefix@[i as int]);
            return false;
        }
        i += 1;
    }
    assert(prefix@ =~= s@.subrange(0, m as int));
    true
}

/// Whether the two texts hold the same characters.
pub fn same_text(a: &str, b: &str) -> (r: bool)
    ensures
        r == (a@ == b@),
{
    let n: usize = a.unicode_len();
    if n != b.unicode_len() {
        return false;
    }
    let r = starts_with(a, b);
    assert(b@.is_prefix_of(a@) ==> a@.subrange(0, n as int) =~= a@);
    r
}

/// Whether `c` occurs in `s`.
pub fn contains_char(s: &str, c: char) -> (b: bool)
    ensures
        b == s@.contains(c),
{
    let n: usize = s.unicode_len();
    let mut i: usize = 0;
    while i < n
        invariant
            i <= n,
            n == s@.len(),
            forall|j: int| 0 <= j < i ==> s@[j] != c,
        decreases n - i,
    {
        if s.get_char(i) == c {
            return true;
        }
        i += 1;
    }
    false
}

/// Whether `pat` stands in `s` at position `at`.
fn matches_at(s: &str, pat: &str, at: usize) -> (b: bool)
    requires
        at + pat@.len() <= s@.len(),
    ensures
        b == (s@.subrange(at as int, at + pat@.len()) == pat@),
{
    let n: usize = s.unicode_len();
    let m: usize = pat.unicode_len();
    let mut i: usize = 0;
    while i < m
        invariant
            i <= m,
            m == pat@.len(),
            n == s@.len(),
            at + m <= n,
            forall|j: int| 0 <= j < i ==> s@[at + j] == pat@[j],
        decreases m - i,
    {
        if s.get_char(at + i) != pat.get_char(i) {
            assert(s@.subrange(at as int, at + m)[i as int] != pat@[i as int]);
            return false;
        }
        i += 1;
    }
    assert(pat@ =~= s@.subrange(at as int, at + m));
    true
}

/// Where `pat` first occurs in `s`; the length of `s` when it does not.
pub fn index_of_text(s: &str, pat: &str) -> (at: usize)
    ensures
        at == find_text(s@, pat@),
        at <= s@.len(),
{
    let n: usize = s.unicode_len();
    let m: usize = pat.unicode_len();
    let mut i: usize = 0;
    assert(s@.subrange(0, n as int) =~= s@);
    while i < n
        invariant
            i <= n,
            n == s@.len(),
            m == pat@.len(),
            find_text(s@, pat@) == i + find_text(s@.subrange(i as int, n as int), pat@),
        decreases n - i,
    {
        let ghost suffix = s@.subrange(i as int, n as int);
        assert(m <= n - i ==> suffix.subrange(0, m as int) =~= s@.subrange(i as int, i + m));
        if m <= n - i && matches_at(s, pat, i) {
            return i;
        }
        assert(suffix.drop_first() =~= s@.subrange(i + 1, n as int));
        i += 1;
    }
    i
}

/// The text before the first `sep`, as a list's first entry is read.
pub fn before_first(s: &str, sep: char) -> (r: &str)
    ensures
        r@ == first_field(s@, sep),
        r@.len() == find_char(s@, sep),
        find_char(s@, sep) <= s@.len(),
{
    let n: usize = s.unicode_len();
    let mut i: usize = 0;
    assert(s@.subrange(0, n as int) =~= s@);
    while i < n && s.get_char(i) != sep
        invariant
            i <= n,
            n == s@.len(),
            find_char(s@, sep) == i + find_char(s@.subrange(i as int, n as int), sep),
        decreases n - i,
    {
        assert(s@.subrange(i as int, n as int).drop_first() =~= s@.subrange(i + 1, n as int));
        i += 1;
    }
    s.substring_char(0, i)
}

/// Equality that ignores the case of ASCII letters.
pub fn eq_ignore_ascii_case(a: &str, b: &str) -> (r: bool)
    ensures
        r == same_ignoring_case(a@, b@),
{
    let n: usize = a.unicode_len();
    if n != b.unicode_len() {
        return false;
    }
    let mut i: usize = 0;
    while i < n
        invariant
            i <= n,
            n == a@.len(),
            n == b@.len(),
            forall|j: int| 0 <= j < i ==> fold(#[trigger] a@[j]) == fold(b@[j]),
        decreases n - i,
    {
        if fold_char(a.get_char(i)) != fold_char(b.get_char(i)) {
            return false;
        }
        i += 1;
    }
    true
}

/// Joins two texts.
pub fn join_text(a: &str, b: &str) -> (r: String)
    ensures
        r@ == a@ + b@,
{
    let mut r = a.to_owned();
    r.append(b);
    r
}

/// The small letter for an ASCII capital, as a text of one character.
fn small_letter(c: char) -> (r: &'static str)
    requires
        'A' <= c && c <= 'Z',
    ensures
        r@ == seq![lower(c)],
{
    proof {
        reveal_strlit("a");
        reveal_strlit("b");
        reveal_strlit("c");
        reveal_strlit("d");
        reveal_strlit("e");
        reveal_strlit("f");
        reveal_strlit("g");
        reveal_strlit("h");
        reveal_strlit("i");
        reveal_strlit("j");
        reveal_strlit("k");
        reveal_strlit("l");
        reveal_strlit("m");
        reveal_strlit("n");
        reveal_strlit("o");
        reveal_strlit("p");
        reveal_strlit("q");
        reveal_strlit("r");
        reveal_strlit("s");
        reveal_strlit("t");
        reveal_strlit("u");
        reveal_strlit("v");
        reveal_strlit("w");
        reveal_strlit("x");
        reveal_strlit("y");
        reveal_strlit("z");
    }
    let n: u32 = c as u32;
    let r: &'static str = if n == 65 {
        "a"
    } else if n == 66 {
        "b"
    } else if n == 67 {
        "c"
    } else if n == 68 {
        "d"
    } else if n == 69 {
        "e"
    } else if n == 70 {
        "f"
    } else if n == 71 {
        "g"
    } else if n == 72 {
        "h"
    } else if n == 73 {
        "i"
    } else if n == 74 {
        "j"
    } else if n == 75 {
        "k"
    } else if n == 76 {
        "l"
    } else if n == 77 {
        "m"
    } else if n == 78 {
        "n"
    } else if n == 79 {
        "o"
    } else if n == 80 {
        "p"
    } else if n == 81 {
        "q"
    } else if n == 82 {
        "r"
    } else if n == 83 {
        "s"
    } else if n == 84 {
        "t"
    } else if n == 85 {
        "u"
    } else if n == 86 {
        "v"
    } else if n == 87 {
        "w"
    } else if n == 88 {
        "x"
    } else if n == 89 {
        "y"
    } else {
        "z"
    };
    assert(r@ =~= seq![lower(c)]);
    r
}

/// A copy of `s` in which every ASCII capital has become its small letter.
pub fn to_ascii_lowercase(s: &str) -> (r: String)
    ensures
        r@ == lowercase(s@),
{
    let n: usize = s.unicode_len();
    let mut r = String::new();
    let mut i: usize = 0;
    assert(r@ =~= lowercase(s@.subrange(0, 0)));
    while i < n
        invariant
            i <= n,
            n == s@.len(),
            r@ == lowercase(s@.subrange(0, i as int)),
        decreases n - i,
    {
        let c = s.get_char(i);
        let code: u32 = c as u32;
        let ghost before = r@;
        if 0x41 <= code && code <= 0x5A {
            r.append(small_letter(c));
        } else {
            r.append(s.substring_char(i, i + 1));
            assert(s@.subrange(i as int, i + 1) =~= seq![c]);
        }
        assert(r@ =~= lowercase(s@.subrange(0, i + 1))) by {
            assert(r@ == before + seq![lower(c)]);
            assert forall|j: int| 0 <= j < i + 1 implies r@[j] == lower(
                s@.subrange(0, i + 1)[j],
            ) by {
                if j < i {
                    assert(r@[j] == before[j]);
                    assert(before[j] == lower(s@.subrange(0, i as int)[j]));
                }
            }
        }
        i += 1;
    }
    assert(s@.subrange(0, n as int) =~= s@);
    r
}

/// A single decimal digit as a text of one character.
fn digit_text(d: u16) -> (r: &'static str)
    requires
        d < 10,
    ensures
        r@ == seq![digit(d as nat)],
{
    proof {
        reveal_strlit("0");
        reveal_strlit("1");
        reveal_strlit("2");
        reveal_strlit("3");
        reveal_strlit("4");
        reveal_strlit("5");
        reveal_strlit("6");
        reveal_strlit("7");
        reveal_strlit("8");
        reveal_strlit("9");
    }
    let r: &'static str = if d == 0 {
        "0"
    } else if d == 1 {
        "1"
    } else if d == 2 {
        "2"
    } else if d == 3 {
        "3"
    } else if d == 4 {
        "4"
    } else if d == 5 {
        "5"
    } else if d == 6 {
        "6"
    } else if d == 7 {
        "7"
    } else if d == 8 {
        "8"
    } else {
        "9"
    };
    assert(r@ =~= seq![digit(d as nat)]);
    r
}

/// A port number in decimal digits, without sign or padding.
pub fn port_text(port: u16) -> (r: String)
    ensures
        r@ == decimal(port as nat),
    decreases port,
{
    if port < 10 {
        digit_text(port).to_owned()
    } else {
        let mut r = port_text(port / 10);
        r.append(digit_text(port % 10));
        assert(r@ =~= decimal((port / 10) as nat).push(digit((port % 10) as nat)));
        r
    }
}

} // verus!
