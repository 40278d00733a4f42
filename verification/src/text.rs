use vstd::prelude::*;
use vstd::string::*;

verus! {

broadcast use vstd::string::group_string_axioms;

/// Unicode `White_Space`, the property that `char::is_whitespace` tests.
pub open spec fn is_ws(c: char) -> bool {
    ||| ('\u{9}' <= c && c <= '\u{d}')
    ||| c == ' '
    ||| c == '\u{85}'
    ||| c == '\u{a0}'
    ||| c == '\u{1680}'
    ||| ('\u{2000}' <= c && c <= '\u{200a}')
    ||| c == '\u{2028}'
    ||| c == '\u{2029}'
    ||| c == '\u{202f}'
    ||| c == '\u{205f}'
    ||| c == '\u{3000}'
}

/// `s` without its leading whitespace.
pub open spec fn trim_start(s: Seq<char>) -> Seq<char>
    decreases s.len(),
{
    if s.len() > 0 && is_ws(s[0]) {
        trim_start(s.drop_first())
    } else {
        s
    }
}

/// `s` without its trailing whitespace.
pub open spec fn trim_end(s: Seq<char>) -> Seq<char>
    decreases s.len(),
{
    if s.len() > 0 && is_ws(s.last()) {
        trim_end(s.drop_last())
    } else {
        s
    }
}

/// `s` without leading and trailing whitespace, as `str::trim` gives it.
pub open spec fn trimmed(s: Seq<char>) -> Seq<char> {
    trim_end(trim_start(s))
}

/// The ASCII lower-case form of a character, as `char::to_ascii_lowercase` gives it.
pub open spec fn ascii_lower(c: char) -> char {
    if 'A' <= c && c <= 'Z' {
        ((c as u32) + 32) as char
    } else {
        c
    }
}

/// The ASCII upper-case form of a character, as `char::to_ascii_uppercase` gives it.
pub open spec fn ascii_upper(c: char) -> char {
    if 'a' <= c && c <= 'z' {
        ((c as u32) - 32) as char
    } else {
        c
    }
}

pub open spec fn lower_seq(s: Seq<char>) -> Seq<char> {
    s.map_values(|c: char| ascii_lower(c))
}

pub open spec fn upper_seq(s: Seq<char>) -> Seq<char> {
    s.map_values(|c: char| ascii_upper(c))
}

/// Whether `needle` occurs in `hay` at position `i`.
pub open spec fn occurs_at(hay: Seq<char>, needle: Seq<char>, i: int) -> bool {
    0 <= i && i + needle.len() <= hay.len() && hay.subrange(i, i + needle.len()) == needle
}

/// Whether `needle` occurs anywhere in `hay`, as `str::contains` with a string pattern.
pub open spec fn contains_seq(hay: Seq<char>, needle: Seq<char>) -> bool {
    exists|i: int| occurs_at(hay, needle, i)
}

/// Whether `hay` starts with `prefix`.
pub open spec fn starts_with(hay: Seq<char>, prefix: Seq<char>) -> bool {
    prefix.len() <= hay.len() && hay.subrange(0, prefix.len() as int) == prefix
}

/// Appends one character to a string.
/// Calls `String::push`, which appends the character at the end of the string.
#[verifier::external_body]
pub(crate) fn push_char(s: &mut String, c: char)
    ensures
        final(s)@ == old(s)@.push(c),
{
    s.push(c);
}

/// Appends a string slice to a string.
pub fn push_str(s: &mut String, t: &str)
    ensures
        final(s)@ == old(s)@ + t@,
{
    s.append(t);
}

proof fn lemma_trim_start_skip(s: Seq<char>, i: int)
    requires
        0 <= i <= s.len(),
        forall|j: int| 0 <= j < i ==> is_ws(#[trigger] s[j]),
    ensures
        trim_start(s) == trim_start(s.subrange(i, s.len() as int)),
    decreases i,
{
    if i > 0 {
        assert(is_ws(s[0]));
        assert(s.drop_first() == s.subrange(1, s.len() as int));
        assert forall|j: int| 0 <= j < i - 1 implies is_ws(#[trigger] s.drop_first()[j]) by {
            assert(s.drop_first()[j] == s[j + 1]);
        }
        lemma_trim_start_skip(s.drop_first(), i - 1);
        assert(s.drop_first().subrange(i - 1, s.drop_first().len() as int) == s.subrange(
            i,
            s.len() as int,
        ));
    } else {
        assert(s.subrange(0, s.len() as int) == s);
    }
}

proof fn lemma_trim_end_skip(s: Seq<char>, k: int)
    requires
        0 <= k <= s.len(),
        forall|j: int| k <= j < s.len() ==> is_ws(#[trigger] s[j]),
    ensures
        trim_end(s) == trim_end(s.subrange(0, k)),
    decreases s.len() - k,
{
    if k < s.len() {
        lemma_trim_end_skip(s.drop_last(), k);
        assert(s.drop_last().subrange(0, k) == s.subrange(0, k));
    } else {
        assert(s.subrange(0, k) == s);
    }
}

/// The position of the first character that is not whitespace, or the length.
fn first_non_ws(s: &str) -> (i: usize)
    ensures
        i <= s@.len(),
        forall|j: int| 0 <= j < i ==> is_ws(#[trigger] s@[j]),
        i < s@.len() ==> !is_ws(s@[i as int]),
{
    let n = s.unicode_len();
    let mut i: usize = 0;
    while i < n
        invariant
            n == s@.len(),
            i <= n,
            forall|j: int| 0 <= j < i ==> is_ws(#[trigger] s@[j]),
        decreases n - i,
    {
        let c = s.get_char(i);
        if !is_ws_char(c) {
            return i;
        }
        i = i + 1;
    }
    i
}

/// Whether `c` is whitespace.
pub fn is_ws_char(c: char) -> (b: bool)
    ensures
        b == is_ws(c),
{
    ('\u{9}' <= c && c <= '\u{d}') || c == ' ' || c == '\u{85}' || c == '\u{a0}' || c
        == '\u{1680}' || ('\u{2000}' <= c && c <= '\u{200a}') || c == '\u{2028}' || c
        == '\u{2029}' || c == '\u{202f}' || c == '\u{205f}' || c == '\u{3000}'
}

/// `s` with leading and trailing whitespace removed.
pub fn trim(s: &str) -> (t: &str)
    ensures
        t@ == trimmed(s@),
{
    let n = s.unicode_len();
    let start = first_non_ws(s);
    let mut end: usize = n;
    while end > start && is_ws_char(s.get_char(end - 1))
        invariant
            n == s@.len(),
            start <= end <= n,
            forall|j: int| end <= j < n ==> is_ws(#[trigger] s@[j]),
            start < n ==> !is_ws(s@[start as int]),
        decreases end,
    {
        end = end - 1;
    }
    proof {
        lemma_trim_start_skip(s@, start as int);
        let rest = s@.subrange(start as int, n as int);
        if start < n {
            assert(rest.len() > 0 && !is_ws(rest[0]));
            assert(trim_start(rest) == rest);
            assert(end > start);
            lemma_trim_end_skip(rest, end - start);
            assert(rest.subrange(0, end - start) == s@.subrange(start as int, end as int));
            let r = s@.subrange(start as int, end as int);
            assert(!is_ws(r.last()));
            assert(trim_end(r) == r);
        } else {
            assert(rest.len() == 0);
            assert(trim_start(rest) == rest);
            assert(end == start);
            assert(trim_end(rest) == rest);
            assert(rest == s@.subrange(start as int, end as int));
        }
    }
    s.substring_char(start, end)
}

/// Whether `t` occurs in `s`.
pub fn contains(s: &str, t: &str) -> (b: bool)
    ensures
        b == contains_seq(s@, t@),
{
    let n = s.unicode_len();
    let m = t.unicode_len();
    if m > n {
        proof {
            assert forall|i: int| !occurs_at(s@, t@, i) by {}
        }
        return false;
    }
    if m == 0 {
        proof {
            assert(s@.subrange(0, 0) == t@);
            assert(occurs_at(s@, t@, 0));
        }
        return true;
    }
    let mut i: usize = 0;
    while i <= n - m
        invariant
            n == s@.len(),
            m == t@.len(),
            0 < m <= n,
            i <= n - m + 1,
            forall|k: int| 0 <= k < i ==> !occurs_at(s@, t@, k),
        decreases n - m + 1 - i,
    {
        if occurs_at_exec(s, t, i) {
            return true;
        }
        i = i + 1;
    }
    proof {
        assert forall|k: int| !occurs_at(s@, t@, k) by {
            if 0 <= k && k + m <= n {
                assert(k < i);
            }
        }
    }
    false
}

/// Whether `t` occurs in `s` at character position `i`.
fn occurs_at_exec(s: &str, t: &str, i: usize) -> (b: bool)
    requires
        i + t@.len() <= s@.len(),
    ensures
        b == occurs_at(s@, t@, i as int),
{
    let n = s.unicode_len();
    let m = t.unicode_len();
    let mut j: usize = 0;
    while j < m
        invariant
            n == s@.len(),
            m == t@.len(),
            i + m <= s@.len(),
            j <= m,
            forall|k: int| 0 <= k < j ==> s@[i + k] == t@[k],
        decreases m - j,
    {
        if s.get_char(i + j) != t.get_char(j) {
            proof {
                assert(s@.subrange(i as int, i + m)[j as int] != t@[j as int]);
            }
            return false;
        }
        j = j + 1;
    }
    proof {
        assert(s@.subrange(i as int, i + m) == t@);
    }
    true
}

/// Whether `s` starts with `p`.
pub fn starts_with_exec(s: &str, p: &str) -> (b: bool)
    ensures
        b == starts_with(s@, p@),
{
    let n = s.unicode_len();
    let m = p.unicode_len();
    if m > n {
        return false;
    }
    let b = occurs_at_exec(s, p, 0);
    proof {
        assert(occurs_at(s@, p@, 0) == starts_with(s@, p@));
    }
    b
}

/// `s` without `p` at its start, or `None` where it does not start with `p`.
pub fn strip_prefix<'a>(s: &'a str, p: &str) -> (r: Option<&'a str>)
    ensures
        r is Some <==> starts_with(s@, p@),
        r matches Some(rest) ==> rest@ == s@.subrange(p@.len() as int, s@.len() as int),
{
    if starts_with_exec(s, p) {
        let n = s.unicode_len();
        let m = p.unicode_len();
        Some(s.substring_char(m, n))
    } else {
        None
    }
}

/// `s` with ASCII letters turned to lower case, as `str::to_ascii_lowercase` gives it.
pub fn to_ascii_lowercase(s: &str) -> (r: String)
    ensures
        r@ == lower_seq(s@),
{
    let n = s.unicode_len();
    let mut r = String::new();
    let mut i: usize = 0;
    while i < n
        invariant
            n == s@.len(),
            i <= n,
            r@ == lower_seq(s@.subrange(0, i as int)),
        decreases n - i,
    {
        let c = s.get_char(i);
        let l = if 'A' <= c && c <= 'Z' {
            char_from_ascii_offset(c, true)
        } else {
            c
        };
        push_char(&mut r, l);
        proof {
            assert(s@.subrange(0, i + 1) == s@.subrange(0, i as int).push(c));
        }
        i = i + 1;
    }
    proof {
        assert(s@.subrange(0, n as int) == s@);
    }
    r
}

/// `s` with ASCII letters turned to upper case, as `str::to_ascii_uppercase` gives it.
pub fn to_ascii_uppercase(s: &str) -> (r: String)
    ensures
        r@ == upper_seq(s@),
{
    let n = s.unicode_len();
    let mut r = String::new();
    let mut i: usize = 0;
    while i < n
        invariant
            n == s@.len(),
            i <= n,
            r@ == upper_seq(s@.subrange(0, i as int)),
        decreases n - i,
    {
        let c = s.get_char(i);
        let u = if 'a' <= c && c <= 'z' {
            char_from_ascii_offset(c, false)
        } else {
            c
        };
        push_char(&mut r, u);
        proof {
            assert(s@.subrange(0, i + 1) == s@.subrange(0, i as int).push(c));
        }
        i = i + 1;
    }
    proof {
        assert(s@.subrange(0, n as int) == s@);
    }
    r
}

/// The other case of an ASCII letter.
fn char_from_ascii_offset(c: char, to_lower: bool) -> (r: char)
    requires
        to_lower ==> 'A' <= c && c <= 'Z',
        !to_lower ==> 'a' <= c && c <= 'z',
    ensures
        to_lower ==> r == ascii_lower(c),
        !to_lower ==> r == ascii_upper(c),
{
    let code = c as u32;
    let shifted: u32 = if to_lower { code + 32 } else { code - 32 };
    char_from_ascii(shifted)
}

/// The character of an ASCII code.
pub fn char_from_ascii(code: u32) -> (c: char)
    requires
        code < 128,
    ensures
        c == code as char,
{
    let b: u8 = code as u8;
    b as char
}

/// The decimal digit of `d`.
pub open spec fn digit_char(d: nat) -> char {
    (('0' as u32) + d) as char
}

/// The decimal text of `n`, as `Display` writes an unsigned integer.
pub open spec fn decimal(n: nat) -> Seq<char>
    decreases n,
{
    if n < 10 {
        seq![digit_char(n)]
    } else {
        decimal(n / 10).push(digit_char(n % 10))
    }
}

/// The decimal text of `n`.
pub fn u64_to_decimal(n: u64) -> (r: String)
    ensures
        r@ == decimal(n as nat),
{
    // digits[k] is the k-th digit counted from the least significant one
    let mut digits: Vec<char> = Vec::new();
    let mut rest: u64 = n;
    let ghost mut divs: Seq<nat> = seq![n as nat];
    while rest >= 10
        invariant
            digits@.len() + 1 == divs.len(),
            divs[0] == n as nat,
            divs.last() == rest as nat,
            forall|k: int| 0 <= k < digits@.len() ==> #[trigger] digits@[k] == digit_char(divs[k] % 10),
            forall|k: int| #![trigger divs[k]] 0 <= k < digits@.len() ==> divs[k] >= 10,
            forall|k: int| #![trigger divs[k]] 0 <= k < digits@.len() ==> divs[k + 1] == divs[k] / 10,
        decreases rest,
    {
        let d = (rest % 10) as u32;
        let ghost old_divs = divs;
        let ghost old_digits = digits@;
        digits.push(crate::text::char_from_ascii(48 + d));
        proof {
            divs = divs.push((rest / 10) as nat);
            assert forall|k: int| 0 <= k < digits@.len() implies divs[k] >= 10 && divs[k + 1]
                == divs[k] / 10 && #[trigger] digits@[k] == digit_char(divs[k] % 10) by {
                if k < old_digits.len() {
                    assert(digits@[k] == old_digits[k]);
                    assert(divs[k] == old_divs[k]);
                    assert(divs[k + 1] == old_divs[k + 1]);
                } else {
                    assert(k == old_digits.len());
                    assert(divs[k] == rest as nat);
                    assert(divs[k + 1] == (rest / 10) as nat);
                    assert(d as nat == (rest as nat) % 10);
                    assert(digits@[k] == ((48 + d) as u32) as char);
                    assert(('0' as u32) == 48);
                }
            }
        }
        rest = rest / 10;
    }
    let mut r = String::new();
    push_char(&mut r, crate::text::char_from_ascii(48 + rest as u32));
    let mut k: usize = digits.len();
    proof {
        assert(r@ == decimal(divs[k as int]));
    }
    while k > 0
        invariant
            k <= digits@.len(),
            digits@.len() + 1 == divs.len(),
            forall|j: int| 0 <= j < digits@.len() ==> divs[j] >= 10 && divs[j + 1] == divs[j] / 10
                && #[trigger] digits@[j] == digit_char(divs[j] % 10),
            r@ == decimal(divs[k as int]),
        decreases k,
    {
        k = k - 1;
        push_char(&mut r, digits[k]);
        proof {
            assert(digits@[k as int] == digit_char(divs[k as int] % 10));
            assert(divs[k + 1] == divs[k as int] / 10);
        }
    }
    r
}

} // verus!
