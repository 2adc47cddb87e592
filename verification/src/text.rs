//! Text utilities: trimming, character classes, lowercasing, and decimal
//! rendering of numbers.
//!
//! Category names are trimmed before use and profile ids are slugs built
//! from lowercased names. The Unicode character classes and the lowercase
//! mapping belong to the standard library; they are named here and every
//! rule built on top of them is verified.

use vstd::prelude::*;

verus! {

/// Whether a character counts as whitespace, as `char::is_whitespace`
/// decides it.
pub uninterp spec fn is_space_char(c: char) -> bool;

/// Whether a character counts as alphanumeric, as `char::is_alphanumeric`
/// decides it.
pub uninterp spec fn is_alnum_char(c: char) -> bool;

/// The lowercase form of a text, as `str::to_lowercase` maps it.
pub uninterp spec fn lower_of(s: Seq<char>) -> Seq<char>;

/// Relies on `char::is_whitespace`: the result depends on the character
/// alone.
#[verifier::external_body]
pub fn char_is_space(c: char) -> (r: bool)
    ensures
        r == is_space_char(c),
{
    c.is_whitespace()
}

/// Relies on `char::is_alphanumeric`: the result depends on the character
/// alone.
#[verifier::external_body]
pub fn char_is_alnum(c: char) -> (r: bool)
    ensures
        r == is_alnum_char(c),
{
    c.is_alphanumeric()
}

/// Relies on `str::to_lowercase`: the result depends on the characters
/// alone, and an empty text stays empty.
#[verifier::external_body]
pub fn to_lowercase(s: &str) -> (r: String)
    ensures
        r@ == lower_of(s@),
        s@.len() == 0 ==> r@.len() == 0,
{
    s.to_lowercase()
}

/// Relies on `String::push`: appends one character at the end.
pub assume_specification[ String::push ](s: &mut String, ch: char)
    ensures
        final(s)@ == old(s)@ + seq![ch],
;

/// Character-for-character equality of two texts.
pub fn str_eq(a: &str, b: &str) -> (r: bool)
    ensures
        r == (a@ == b@),
{
    let n = a.unicode_len();
    if n != b.unicode_len() {
        return false;
    }
    let mut i: usize = 0;
    while i < n
        invariant
            0 <= i <= n,
            n == a@.len(),
            n == b@.len(),
            forall|j: int| 0 <= j < i ==> a@[j] == b@[j],
        decreases n - i,
    {
        if a.get_char(i) != b.get_char(i) {
            return false;
        }
        i = i + 1;
    }
    proof {
        assert(a@ =~= b@);
    }
    true
}

/// The text without its longest prefix of characters matching `pred`.
pub open spec fn drop_leading_while(s: Seq<char>, pred: spec_fn(char) -> bool) -> Seq<char>
    decreases s.len(),
{
    if s.len() == 0 {
        s
    } else if pred(s[0]) {
        drop_leading_while(s.drop_first(), pred)
    } else {
        s
    }
}

/// The text without its longest suffix of characters matching `pred`.
pub open spec fn drop_trailing_while(s: Seq<char>, pred: spec_fn(char) -> bool) -> Seq<char>
    decreases s.len(),
{
    if s.len() == 0 {
        s
    } else if pred(s.last()) {
        drop_trailing_while(s.drop_last(), pred)
    } else {
        s
    }
}

/// The text trimmed of matching characters on both sides.
pub open spec fn trim_while(s: Seq<char>, pred: spec_fn(char) -> bool) -> Seq<char> {
    drop_trailing_while(drop_leading_while(s, pred), pred)
}

/// The text without leading and trailing whitespace, as `str::trim`
/// returns it.
pub open spec fn trim_spec(s: Seq<char>) -> Seq<char> {
    trim_while(s, |c: char| is_space_char(c))
}

proof fn lemma_drop_leading_subrange(s: Seq<char>, pred: spec_fn(char) -> bool, i: int)
    requires
        0 <= i <= s.len(),
        forall|j: int| 0 <= j < i ==> pred(s[j]),
        i < s.len() ==> !pred(s[i]),
    ensures
        drop_leading_while(s, pred) =~= s.subrange(i, s.len() as int),
    decreases i,
{
    if i == 0 {
        if s.len() == 0 {
        } else {
            assert(s.subrange(0, s.len() as int) =~= s);
        }
    } else {
        assert(pred(s[0]));
        lemma_drop_leading_subrange(s.drop_first(), pred, i - 1);
        assert(s.drop_first().subrange(i - 1, s.drop_first().len() as int) =~= s.subrange(
            i,
            s.len() as int,
        ));
    }
}

proof fn lemma_drop_trailing_subrange(s: Seq<char>, pred: spec_fn(char) -> bool, i: int)
    requires
        0 <= i <= s.len(),
        forall|j: int| i <= j < s.len() ==> pred(s[j]),
        i > 0 ==> !pred(s[i - 1]),
    ensures
        drop_trailing_while(s, pred) =~= s.subrange(0, i),
    decreases s.len() - i,
{
    if i == s.len() {
        if s.len() == 0 {
        } else {
            assert(s.subrange(0, s.len() as int) =~= s);
        }
    } else {
        assert(pred(s.last()));
        lemma_drop_trailing_subrange(s.drop_last(), pred, i);
        assert(s.drop_last().subrange(0, i) =~= s.subrange(0, i));
    }
}

/// The input without leading and trailing whitespace.
pub fn trim(s: &str) -> (r: String)
    ensures
        r@ == trim_spec(s@),
{
    let ghost pred = |c: char| is_space_char(c);
    let n = s.unicode_len();
    let mut start: usize = 0;
    while start < n && char_is_space(s.get_char(start))
        invariant
            0 <= start <= n,
            n == s@.len(),
            forall|j: int| 0 <= j < start ==> is_space_char(s@[j]),
        decreases n - start,
    {
        start = start + 1;
    }
    proof {
        lemma_drop_leading_subrange(s@, pred, start as int);
    }
    let ghost led = s@.subrange(start as int, s@.len() as int);
    let mut end: usize = n;
    while end > start && char_is_space(s.get_char(end - 1))
        invariant
            start <= end <= n,
            n == s@.len(),
            forall|j: int| 0 <= j < start ==> is_space_char(s@[j]),
            start < s@.len() ==> !is_space_char(s@[start as int]),
            forall|j: int| end <= j < n ==> is_space_char(s@[j]),
        decreases end,
    {
        end = end - 1;
    }
    proof {
        lemma_drop_trailing_subrange(led, pred, end - start);
        assert(led.subrange(0, end - start) =~= s@.subrange(start as int, end as int));
    }
    let out = s.substring_char(start, end);
    out.to_owned()
}

/// The input without leading and trailing hyphens.
pub fn trim_dashes(s: &str) -> (r: String)
    ensures
        r@ == trim_while(s@, |c: char| c == '-'),
{
    let ghost pred = |c: char| c == '-';
    let n = s.unicode_len();
    let mut start: usize = 0;
    while start < n && s.get_char(start) == '-'
        invariant
            0 <= start <= n,
            n == s@.len(),
            forall|j: int| 0 <= j < start ==> s@[j] == '-',
        decreases n - start,
    {
        start = start + 1;
    }
    proof {
        lemma_drop_leading_subrange(s@, pred, start as int);
    }
    let ghost led = s@.subrange(start as int, s@.len() as int);
    let mut end: usize = n;
    while end > start && s.get_char(end - 1) == '-'
        invariant
            start <= end <= n,
            n == s@.len(),
            forall|j: int| 0 <= j < start ==> s@[j] == '-',
            start < s@.len() ==> s@[start as int] != '-',
            forall|j: int| end <= j < n ==> s@[j] == '-',
        decreases end,
    {
        end = end - 1;
    }
    proof {
        lemma_drop_trailing_subrange(led, pred, end - start);
        assert(led.subrange(0, end - start) =~= s@.subrange(start as int, end as int));
    }
    let out = s.substring_char(start, end);
    out.to_owned()
}

/// The character of one decimal digit.
pub open spec fn dec_digit(d: int) -> char {
    if d == 0 {
        '0'
    } else if d == 1 {
        '1'
    } else if d == 2 {
        '2'
    } else if d == 3 {
        '3'
    } else if d == 4 {
        '4'
    } else if d == 5 {
        '5'
    } else if d == 6 {
        '6'
    } else if d == 7 {
        '7'
    } else if d == 8 {
        '8'
    } else {
        '9'
    }
}

/// The decimal rendering of a number, most significant digit first.
pub open spec fn dec_str(n: nat) -> Seq<char>
    decreases n,
{
    if n < 10 {
        seq![dec_digit(n as int)]
    } else {
        dec_str(n / 10) + seq![dec_digit((n % 10) as int)]
    }
}

/// A decimal rendering is never empty.
pub proof fn lemma_dec_str_len(n: nat)
    ensures
        dec_str(n).len() >= 1,
    decreases n,
{
    if n >= 10 {
        lemma_dec_str_len(n / 10);
    }
}

/// Distinct numbers render to distinct texts.
pub proof fn lemma_dec_str_injective(a: nat, b: nat)
    requires
        dec_str(a) == dec_str(b),
    ensures
        a == b,
    decreases a,
{
    if a < 10 && b < 10 {
        assert(dec_str(a)[0] == dec_digit(a as int));
        assert(dec_str(b)[0] == dec_digit(b as int));
    } else if a < 10 {
        lemma_dec_str_len(b / 10);
        assert(dec_str(b).len() >= 2);
    } else if b < 10 {
        lemma_dec_str_len(a / 10);
        assert(dec_str(a).len() >= 2);
    } else {
        assert(dec_str(a).last() == dec_digit((a % 10) as int));
        assert(dec_str(b).last() == dec_digit((b % 10) as int));
        assert(a % 10 == b % 10);
        assert(dec_str(a).drop_last() =~= dec_str(a / 10));
        assert(dec_str(b).drop_last() =~= dec_str(b / 10));
        lemma_dec_str_injective(a / 10, b / 10);
    }
}

fn digit_char(d: u64) -> (r: char)
    requires
        d < 10,
    ensures
        r == dec_digit(d as int),
{
    match d {
        0 => '0',
        1 => '1',
        2 => '2',
        3 => '3',
        4 => '4',
        5 => '5',
        6 => '6',
        7 => '7',
        8 => '8',
        _ => '9',
    }
}

/// The decimal rendering of a number.
pub fn u64_to_string(n: u64) -> (r: String)
    ensures
        r@ == dec_str(n as nat),
{
    let mut digits: Vec<char> = Vec::new();
    let mut m = n;
    loop
        invariant
            m > 0 ==> dec_str(n as nat) =~= dec_str(m as nat) + digits@.reverse(),
            m == 0 ==> (digits@.len() > 0 && dec_str(n as nat) =~= digits@.reverse()) || (
            digits@.len() == 0 && n == 0),
        ensures
            dec_str(n as nat) =~= digits@.reverse() || (digits@.len() == 0 && n == 0),
        decreases m,
    {
        if m == 0 {
            break ;
        }
        let ghost prev = digits@;
        digits.push(digit_char(m % 10));
        proof {
            assert(digits@.reverse() =~= seq![dec_digit((m % 10) as int)] + prev.reverse());
            if m >= 10 {
                assert(dec_str(m as nat) =~= dec_str((m / 10) as nat) + seq![
                    dec_digit((m % 10) as int),
                ]);
                assert(dec_str((m / 10) as nat) + digits@.reverse() =~= dec_str(m as nat)
                    + prev.reverse());
            } else {
                assert(dec_str(m as nat) =~= seq![dec_digit(m as int)]);
            }
        }
        m = m / 10;
    }
    let mut out = String::new();
    if digits.len() == 0 {
        out.push('0');
        proof {
            assert(out@ =~= dec_str(0));
        }
        return out;
    }
    let mut i: usize = digits.len();
    while i > 0
        invariant
            0 <= i <= digits@.len(),
            dec_str(n as nat) =~= digits@.reverse(),
            out@ =~= digits@.subrange(i as int, digits@.len() as int).reverse(),
        decreases i,
    {
        let ghost prev = out@;
        out.push(digits[i - 1]);
        proof {
            assert(digits@.subrange(i - 1, digits@.len() as int).reverse() =~= prev + seq![
                digits@[i - 1],
            ]);
        }
        i = i - 1;
    }
    proof {
        assert(digits@.subrange(0, digits@.len() as int) =~= digits@);
    }
    out
}

/// An amount of cents rendered as dollars and two decimal places.
pub open spec fn money_text(cents: u64) -> Seq<char> {
    dec_str((cents / 100) as nat) + seq!['.'] + (if cents % 100 < 10 {
        seq!['0']
    } else {
        Seq::empty()
    }) + dec_str((cents % 100) as nat)
}

/// Renders an amount of cents as dollars with two decimal places.
pub fn format_cents(cents: u64) -> (r: String)
    ensures
        r@ == money_text(cents),
{
    let mut out = u64_to_string(cents / 100);
    out.push('.');
    if cents % 100 < 10 {
        out.push('0');
    }
    let frac = u64_to_string(cents % 100);
    out.append(frac.as_str());
    proof {
        assert(out@ =~= money_text(cents));
    }
    out
}

} // verus!
