//! Character-level helpers shared by the engine: whitespace trimming,
//! ASCII case folding, substring search and string equality, each with an
//! exact specification over `Seq<char>`.

use vstd::prelude::*;

verus! {

/// Unicode whitespace, the characters stripped from the ends of a value:
/// the set `char::is_whitespace` accepts.
pub open spec fn is_space_char(c: char) -> bool {
    ||| c == ' '
    ||| c == '\t'
    ||| c == '\n'
    ||| c == '\r'
    ||| c == '\u{b}'
    ||| c == '\u{c}'
    ||| c == '\u{85}'
    ||| c == '\u{a0}'
    ||| c == '\u{1680}'
    ||| c == '\u{2000}'
    ||| c == '\u{2001}'
    ||| c == '\u{2002}'
    ||| c == '\u{2003}'
    ||| c == '\u{2004}'
    ||| c == '\u{2005}'
    ||| c == '\u{2006}'
    ||| c == '\u{2007}'
    ||| c == '\u{2008}'
    ||| c == '\u{2009}'
    ||| c == '\u{200a}'
    ||| c == '\u{2028}'
    ||| c == '\u{2029}'
    ||| c == '\u{202f}'
    ||| c == '\u{205f}'
    ||| c == '\u{3000}'
}

pub fn is_space(c: char) -> (r: bool)
    ensures
        r == is_space_char(c),
{
    match c {
        ' ' | '\t' | '\n' | '\r' | '\u{b}' | '\u{c}' | '\u{85}' | '\u{a0}' | '\u{1680}'
        | '\u{2000}' | '\u{2001}' | '\u{2002}' | '\u{2003}' | '\u{2004}' | '\u{2005}'
        | '\u{2006}' | '\u{2007}' | '\u{2008}' | '\u{2009}' | '\u{200a}' | '\u{2028}'
        | '\u{2029}' | '\u{202f}' | '\u{205f}' | '\u{3000}' => true,
        _ => false,
    }
}

/// ASCII lower-casing of a single character; other characters are unchanged.
pub open spec fn lower_char(c: char) -> char {
    match c {
        'A' => 'a',
        'B' => 'b',
        'C' => 'c',
        'D' => 'd',
        'E' => 'e',
        'F' => 'f',
        'G' => 'g',
        'H' => 'h',
        'I' => 'i',
        'J' => 'j',
        'K' => 'k',
        'L' => 'l',
        'M' => 'm',
        'N' => 'n',
        'O' => 'o',
        'P' => 'p',
        'Q' => 'q',
        'R' => 'r',
        'S' => 's',
        'T' => 't',
        'U' => 'u',
        'V' => 'v',
        'W' => 'w',
        'X' => 'x',
        'Y' => 'y',
        'Z' => 'z',
        _ => c,
    }
}

pub fn to_lower(c: char) -> (r: char)
    ensures
        r == lower_char(c),
{
    match c {
        'A' => 'a',
        'B' => 'b',
        'C' => 'c',
        'D' => 'd',
        'E' => 'e',
        'F' => 'f',
        'G' => 'g',
        'H' => 'h',
        'I' => 'i',
        'J' => 'j',
        'K' => 'k',
        'L' => 'l',
        'M' => 'm',
        'N' => 'n',
        'O' => 'o',
        'P' => 'p',
        'Q' => 'q',
        'R' => 'r',
        'S' => 's',
        'T' => 't',
        'U' => 'u',
        'V' => 'v',
        'W' => 'w',
        'X' => 'x',
        'Y' => 'y',
        'Z' => 'z',
        _ => c,
    }
}

/// Lower-cases a whole sequence, position by position.
pub open spec fn lower_seq(s: Seq<char>) -> Seq<char> {
    s.map(|_i: int, c: char| lower_char(c))
}

/// Drops the longest prefix whose characters all satisfy `p`.
pub open spec fn drop_leading(s: Seq<char>, p: spec_fn(char) -> bool) -> Seq<char>
    decreases s.len(),
{
    if s.len() > 0 && p(s[0]) {
        drop_leading(s.drop_first(), p)
    } else {
        s
    }
}

/// Drops the longest suffix whose characters all satisfy `p`.
pub open spec fn drop_trailing(s: Seq<char>, p: spec_fn(char) -> bool) -> Seq<char>
    decreases s.len(),
{
    if s.len() > 0 && p(s.last()) {
        drop_trailing(s.drop_last(), p)
    } else {
        s
    }
}

pub open spec fn space_pred() -> spec_fn(char) -> bool {
    |c: char| is_space_char(c)
}

/// What `str::trim` yields: both ends stripped of whitespace.
pub open spec fn trim_spec(s: Seq<char>) -> Seq<char> {
    drop_trailing(drop_leading(s, space_pred()), space_pred())
}

pub proof fn lemma_drop_leading_skip(s: Seq<char>, p: spec_fn(char) -> bool, i: int)
    requires
        0 <= i <= s.len(),
        forall|k: int| 0 <= k < i ==> p(s[k]),
        i < s.len() ==> !p(s[i]),
    ensures
        drop_leading(s, p) == s.skip(i),
    decreases i,
{
    if i == 0 {
        assert(s.skip(0) =~= s);
    } else {
        assert(p(s[0]));
        lemma_drop_leading_skip(s.drop_first(), p, i - 1);
        assert(s.drop_first().skip(i - 1) =~= s.skip(i));
    }
}

pub proof fn lemma_drop_trailing_take(s: Seq<char>, p: spec_fn(char) -> bool, j: int)
    requires
        -1 <= j < s.len(),
        forall|k: int| j < k < s.len() ==> p(s[k]),
        j >= 0 ==> !p(s[j]),
    ensures
        drop_trailing(s, p) == s.take(j + 1),
    decreases s.len() - j,
{
    if j == s.len() - 1 {
        assert(s.take(s.len() as int) =~= s);
    } else {
        assert(p(s.last()));
        lemma_drop_trailing_take(s.drop_last(), p, j);
        assert(s.drop_last().take(j + 1) =~= s.take(j + 1));
    }
}

/// A string whose ends are not whitespace is already trimmed.
pub proof fn lemma_trim_noop(s: Seq<char>)
    requires
        s.len() == 0 || (!is_space_char(s[0]) && !is_space_char(s[s.len() - 1])),
    ensures
        trim_spec(s) == s,
{
    lemma_drop_leading_skip(s, space_pred(), 0);
    assert(s.skip(0) =~= s);
    lemma_drop_trailing_take(s, space_pred(), s.len() - 1);
    assert(s.take(s.len() as int) =~= s);
}

/// Trimming again changes nothing, and a nonempty trimmed string has
/// non-whitespace characters at both ends.
pub proof fn lemma_trim_props(s: Seq<char>)
    ensures
        trim_spec(trim_spec(s)) == trim_spec(s),
        trim_spec(s).len() > 0 ==> !is_space_char(trim_spec(s)[0]),
        trim_spec(s).len() > 0 ==> !is_space_char(trim_spec(s)[trim_spec(s).len() - 1]),
        trim_spec(s).len() <= s.len(),
    decreases s.len(),
{
    let t = drop_leading(s, space_pred());
    lemma_drop_leading_props(s, space_pred());
    lemma_drop_trailing_props(t, space_pred());
    lemma_trim_noop(trim_spec(s));
}

pub proof fn lemma_drop_leading_props(s: Seq<char>, p: spec_fn(char) -> bool)
    ensures
        drop_leading(s, p).len() > 0 ==> !p(drop_leading(s, p)[0]),
        drop_leading(s, p).len() <= s.len(),
        drop_leading(s, p).len() > 0 ==> drop_leading(s, p).last() == s.last(),
        drop_leading(s, p) =~= s.skip(s.len() - drop_leading(s, p).len()),
    decreases s.len(),
{
    if s.len() > 0 && p(s[0]) {
        lemma_drop_leading_props(s.drop_first(), p);
        let r = drop_leading(s, p);
        assert(s.drop_first().skip(s.len() - 1 - r.len()) =~= s.skip(s.len() - r.len()));
    }
}

pub proof fn lemma_drop_trailing_props(s: Seq<char>, p: spec_fn(char) -> bool)
    ensures
        drop_trailing(s, p).len() > 0 ==> !p(drop_trailing(s, p).last()),
        drop_trailing(s, p).len() <= s.len(),
        drop_trailing(s, p).len() > 0 ==> drop_trailing(s, p)[0] == s[0],
        drop_trailing(s, p) =~= s.take(drop_trailing(s, p).len() as int),
    decreases s.len(),
{
    if s.len() > 0 && p(s.last()) {
        lemma_drop_trailing_props(s.drop_last(), p);
        let r = drop_trailing(s, p);
        assert(s.drop_last().take(r.len() as int) =~= s.take(r.len() as int));
    }
}

/// Trims an exec string slice; the result is `trim_spec` of its view.
pub fn trim_str<'a>(s: &'a str) -> (r: &'a str)
    ensures
        r@ == trim_spec(s@),
{
    let n = s.unicode_len();
    let mut i: usize = 0;
    while i < n && is_space(s.get_char(i))
        invariant
            0 <= i <= n,
            n == s@.len(),
            forall|k: int| 0 <= k < i ==> is_space_char(s@[k]),
        decreases n - i,
    {
        i += 1;
    }
    if i == n {
        proof {
            lemma_drop_leading_skip(s@, space_pred(), n as int);
            assert(s@.skip(n as int) =~= Seq::<char>::empty());
            assert(drop_trailing(Seq::<char>::empty(), space_pred()) =~= Seq::<char>::empty());
        }
        let r = s.substring_char(n, n);
        proof {
            assert(r@ =~= trim_spec(s@));
        }
        r
    } else {
        let mut j: usize = n - 1;
        while j > i && is_space(s.get_char(j))
            invariant
                i <= j < n,
                n == s@.len(),
                !is_space_char(s@[i as int]),
                forall|k: int| j < k < n ==> is_space_char(s@[k]),
            decreases j,
        {
            j -= 1;
        }
        proof {
            lemma_drop_leading_skip(s@, space_pred(), i as int);
            let t = s@.skip(i as int);
            lemma_drop_trailing_take(t, space_pred(), j - i);
            assert(t.take(j - i + 1) =~= s@.subrange(i as int, j + 1));
        }
        s.substring_char(i, j + 1)
    }
}

/// True when `n` occurs in `h` as a contiguous run.
pub open spec fn contains_seq(h: Seq<char>, n: Seq<char>) -> bool {
    exists|i: int| 0 <= i <= h.len() - n.len() && #[trigger] h.subrange(i, i + n.len()) == n
}

fn matches_at(h: &Vec<char>, n: &str, i: usize, nl: usize) -> (r: bool)
    requires
        nl == n@.len(),
        i + nl <= h@.len(),
    ensures
        r == (h@.subrange(i as int, i + nl) == n@),
{
    let hl = h.len();
    let mut j: usize = 0;
    while j < nl
        invariant
            0 <= j <= nl,
            nl == n@.len(),
            i + nl <= h@.len(),
            h@.len() == hl,
            forall|t: int| 0 <= t < j ==> h@[i + t] == n@[t],
        decreases nl - j,
    {
        if h[i + j] != n.get_char(j) {
            proof {
                assert(h@.subrange(i as int, i + nl)[j as int] != n@[j as int]);
            }
            return false;
        }
        j += 1;
    }
    proof {
        assert(h@.subrange(i as int, i + nl) =~= n@);
    }
    true
}

/// Substring search: does `n` occur anywhere in `h`?
pub fn contains_sub(h: &Vec<char>, n: &str) -> (r: bool)
    ensures
        r == contains_seq(h@, n@),
{
    let nl = n.unicode_len();
    let hl = h.len();
    if nl > hl {
        return false;
    }
    if nl == 0 {
        proof {
            assert(h@.subrange(0, 0 + n@.len() as int) =~= n@);
        }
        return true;
    }
    let mut i: usize = 0;
    while i <= hl - nl
        invariant
            0 < nl <= hl,
            hl == h@.len(),
            nl == n@.len(),
            0 <= i <= hl - nl + 1,
            forall|k: int| 0 <= k < i ==> #[trigger] h@.subrange(k, k + nl) != n@,
        decreases hl - nl - i + 1,
    {
        if matches_at(h, n, i, nl) {
            return true;
        }
        i += 1;
    }
    false
}

/// Equality between a character vector and a string slice.
pub fn seq_eq_str(v: &Vec<char>, s: &str) -> (r: bool)
    ensures
        r == (v@ == s@),
{
    let n = s.unicode_len();
    if v.len() != n {
        return false;
    }
    let mut i: usize = 0;
    while i < n
        invariant
            n == s@.len(),
            v@.len() == n,
            0 <= i <= n,
            forall|k: int| 0 <= k < i ==> v@[k] == s@[k],
        decreases n - i,
    {
        if v[i] != s.get_char(i) {
            return false;
        }
        i += 1;
    }
    proof {
        assert(v@ =~= s@);
    }
    true
}

/// Relies on String::push: appends exactly the one given character.
#[verifier::external_body]
pub fn push_char(s: &mut String, c: char)
    ensures
        final(s)@ == old(s)@.push(c),
{
    s.push(c);
}

/// The character a 16-bit code unit denotes: every code point below
/// 0x10000 other than a surrogate is the character with that scalar value.
pub open spec fn char_of_u16(v: u16) -> Option<char> {
    if 0xD800 <= v < 0xE000 {
        Option::None
    } else {
        Option::Some(v as char)
    }
}

/// Relies on char::from_u32: a code point is a character unless it is a
/// surrogate or above the maximum; below 0x10000 only surrogates fail.
#[verifier::external_body]
pub fn char_from_u16(v: u16) -> (c: Option<char>)
    ensures
        c == char_of_u16(v),
{
    char::from_u32(v as u32)
}

/// Builds an owned string out of a character vector.
pub fn vec_to_string(v: &Vec<char>) -> (s: String)
    ensures
        s@ == v@,
{
    let mut s = String::new();
    let n = v.len();
    let mut i: usize = 0;
    while i < n
        invariant
            0 <= i <= n,
            n == v@.len(),
            s@ =~= v@.take(i as int),
        decreases n - i,
    {
        push_char(&mut s, v[i]);
        i += 1;
    }
    proof {
        assert(v@.take(n as int) =~= v@);
    }
    s
}

/// Trims a character vector, as `trim_spec` describes.
pub fn trim_vec(v: &Vec<char>) -> (r: Vec<char>)
    ensures
        r@ == trim_spec(v@),
{
    let n = v.len();
    let mut i: usize = 0;
    while i < n && is_space(v[i])
        invariant
            0 <= i <= n,
            n == v@.len(),
            forall|k: int| 0 <= k < i ==> is_space_char(v@[k]),
        decreases n - i,
    {
        i += 1;
    }
    if i == n {
        proof {
            lemma_drop_leading_skip(v@, space_pred(), n as int);
            assert(v@.skip(n as int) =~= Seq::<char>::empty());
            assert(trim_spec(v@) =~= Seq::<char>::empty());
        }
        Vec::new()
    } else {
        let mut j: usize = n - 1;
        while j > i && is_space(v[j])
            invariant
                i <= j < n,
                n == v@.len(),
                !is_space_char(v@[i as int]),
                forall|k: int| j < k < n ==> is_space_char(v@[k]),
            decreases j,
        {
            j -= 1;
        }
        proof {
            lemma_drop_leading_skip(v@, space_pred(), i as int);
            let t = v@.skip(i as int);
            lemma_drop_trailing_take(t, space_pred(), j - i);
            assert(t.take(j - i + 1) =~= v@.subrange(i as int, j + 1));
        }
        let mut r: Vec<char> = Vec::new();
        let mut k: usize = i;
        while k < j + 1
            invariant
                i <= k <= j + 1,
                j < n == v@.len(),
                r@ =~= v@.subrange(i as int, k as int),
            decreases j + 1 - k,
        {
            r.push(v[k]);
            k += 1;
        }
        proof {
            assert(r@ =~= trim_spec(v@));
        }
        r
    }
}

/// The decimal digit characters of a nonnegative number, most significant
/// first.
pub open spec fn dec_digit(d: int) -> char {
    if d == 0 {
        '0'
    } else if d == 1 {
        '1'
    } else if d == 2 {
        '2'
    } else if d == 3 {
        '3'
    } else if d == 4 {
        '4'
    } else if d == 5 {
        '5'
    } else if d == 6 {
        '6'
    } else if d == 7 {
        '7'
    } else if d == 8 {
        '8'
    } else {
        '9'
    }
}

pub open spec fn dec_str(n: int) -> Seq<char>
    decreases n,
{
    if n < 10 {
        seq![dec_digit(n)]
    } else {
        dec_str(n / 10).push(dec_digit(n % 10))
    }
}

fn digit_str(d: u64) -> (s: String)
    requires
        d < 10,
    ensures
        s@ == seq![dec_digit(d as int)],
{
    let s = match d {
        0 => String::from_str("0"),
        1 => String::from_str("1"),
        2 => String::from_str("2"),
        3 => String::from_str("3"),
        4 => String::from_str("4"),
        5 => String::from_str("5"),
        6 => String::from_str("6"),
        7 => String::from_str("7"),
        8 => String::from_str("8"),
        _ => String::from_str("9"),
    };
    proof {
        reveal_strlit("0");
        reveal_strlit("1");
        reveal_strlit("2");
        reveal_strlit("3");
        reveal_strlit("4");
        reveal_strlit("5");
        reveal_strlit("6");
        reveal_strlit("7");
        reveal_strlit("8");
        reveal_strlit("9");
        assert(s@ =~= seq![dec_digit(d as int)]);
    }
    s
}

/// Renders a number in decimal.
pub fn u64_to_string(n: u64) -> (s: String)
    ensures
        s@ == dec_str(n as int),
    decreases n,
{
    if n < 10 {
        digit_str(n)
    } else {
        let s = u64_to_string(n / 10);
        let d = digit_str(n % 10);
        let r = s.concat(d.as_str());
        proof {
            assert(r@ =~= dec_str(n as int));
        }
        r
    }
}

/// The index of the first occurrence of `c`, or -1 when `c` does not
/// occur.
pub open spec fn find_char(s: Seq<char>, c: char) -> int
    decreases s.len(),
{
    if s.len() == 0 {
        -1
    } else if s[0] == c {
        0
    } else {
        let r = find_char(s.drop_first(), c);
        if r == -1 {
            -1
        } else {
            r + 1
        }
    }
}

pub proof fn lemma_find_char_at(s: Seq<char>, c: char, i: int)
    requires
        0 <= i < s.len(),
        s[i] == c,
        forall|k: int| 0 <= k < i ==> s[k] != c,
    ensures
        find_char(s, c) == i,
    decreases i,
{
    if i > 0 {
        lemma_find_char_at(s.drop_first(), c, i - 1);
    }
}

pub proof fn lemma_find_char_none(s: Seq<char>, c: char)
    requires
        forall|k: int| 0 <= k < s.len() ==> s[k] != c,
    ensures
        find_char(s, c) == -1,
    decreases s.len(),
{
    if s.len() > 0 {
        lemma_find_char_none(s.drop_first(), c);
    }
}

/// What is left after the last occurrence of `ch`; the whole string when
/// `ch` does not occur.
pub open spec fn after_last(s: Seq<char>, ch: char) -> Seq<char>
    decreases s.len(),
{
    if s.len() == 0 {
        s
    } else if s.last() == ch {
        Seq::empty()
    } else {
        after_last(s.drop_last(), ch).push(s.last())
    }
}

proof fn lemma_after_last_none(s: Seq<char>, ch: char)
    requires
        forall|k: int| 0 <= k < s.len() ==> s[k] != ch,
    ensures
        after_last(s, ch) == s,
    decreases s.len(),
{
    if s.len() > 0 {
        lemma_after_last_none(s.drop_last(), ch);
        assert(s.drop_last().push(s.last()) =~= s);
    }
}

pub proof fn lemma_after_last(s: Seq<char>, ch: char, j: int)
    requires
        0 <= j < s.len(),
        s[j] == ch,
        forall|k: int| j < k < s.len() ==> s[k] != ch,
    ensures
        after_last(s, ch) == s.skip(j + 1),
    decreases s.len(),
{
    if j == s.len() - 1 {
        assert(s.skip(j + 1) =~= Seq::<char>::empty());
    } else {
        lemma_after_last(s.drop_last(), ch, j);
        assert(s.drop_last().skip(j + 1).push(s.last()) =~= s.skip(j + 1));
    }
}

/// The part of a string after its last occurrence of `ch`.
pub fn after_last_str<'a>(s: &'a str, ch: char) -> (r: &'a str)
    ensures
        r@ == after_last(s@, ch),
{
    let n = s.unicode_len();
    let mut j: usize = n;
    while j > 0
        invariant
            0 <= j <= n,
            n == s@.len(),
            forall|k: int| j <= k < n ==> s@[k] != ch,
        decreases j,
    {
        if s.get_char(j - 1) == ch {
            proof {
                lemma_after_last(s@, ch, j - 1);
            }
            return s.substring_char(j, n);
        }
        j -= 1;
    }
    proof {
        lemma_after_last_none(s@, ch);
    }
    s.substring_char(0, n)
}

/// The characters of a string slice, as a vector.
pub fn chars_of(s: &str) -> (v: Vec<char>)
    ensures
        v@ == s@,
{
    let n = s.unicode_len();
    let mut v: Vec<char> = Vec::new();
    let mut i: usize = 0;
    while i < n
        invariant
            0 <= i <= n,
            n == s@.len(),
            v@ =~= s@.take(i as int),
        decreases n - i,
    {
        v.push(s.get_char(i));
        i += 1;
    }
    proof {
        assert(s@.take(n as int) =~= s@);
    }
    v
}

/// Equality of two string slices, by characters.
pub fn str_eq(a: &str, b: &str) -> (r: bool)
    ensures
        r == (a@ == b@),
{
    let n = a.unicode_len();
    if b.unicode_len() != n {
        return false;
    }
    let mut i: usize = 0;
    while i < n
        invariant
            n == a@.len(),
            b@.len() == n,
            0 <= i <= n,
            forall|k: int| 0 <= k < i ==> a@[k] == b@[k],
        decreases n - i,
    {
        if a.get_char(i) != b.get_char(i) {
            return false;
        }
        i += 1;
    }
    proof {
        assert(a@ =~= b@);
    }
    true
}

} // verus!
