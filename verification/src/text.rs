//! String helpers with exact character-level contracts.

use vstd::prelude::*;
use vstd::string::*;

verus! {

/// `true` when `prefix` starts `s`.
pub open spec fn has_prefix(s: Seq<char>, prefix: Seq<char>) -> bool {
    prefix.len() <= s.len() && s.subrange(0, prefix.len() as int) == prefix
}

/// Compares two string slices character by character.
pub fn str_eq(a: &str, b: &str) -> (res: bool)
    ensures
        res == (a@ == b@),
{
    let a_owned = String::from_str(a);
    let b_owned = String::from_str(b);
    a_owned == b_owned
}

/// Builds an owned copy of `s`.
pub fn owned(s: &str) -> (res: String)
    ensures
        res@ == s@,
{
    String::from_str(s)
}

/// Concatenates two string slices into a new string.
pub fn join2(a: &str, b: &str) -> (res: String)
    ensures
        res@ == a@ + b@,
{
    let mut s = String::from_str(a);
    s.append(b);
    s
}

/// Removes `prefix` from the start of `s`, or returns `None` when `s` does
/// not start with it.
pub fn strip_prefix<'a>(s: &'a str, prefix: &str) -> (res: Option<&'a str>)
    ensures
        has_prefix(s@, prefix@) ==> (res matches Some(r) && r@ == s@.skip(prefix@.len() as int)),
        !has_prefix(s@, prefix@) ==> res is None,
{
    let s_len = s.unicode_len();
    let p_len = prefix.unicode_len();
    if p_len > s_len {
        return None;
    }
    let head = s.substring_char(0, p_len);
    if str_eq(head, prefix) {
        Some(s.substring_char(p_len, s_len))
    } else {
        None
    }
}

/// `s` with every leading and trailing `':'` removed.
pub open spec fn trim_colons_spec(s: Seq<char>) -> Seq<char>
    decreases s.len(),
{
    if s.len() > 0 && s[0] == ':' {
        trim_colons_spec(s.drop_first())
    } else if s.len() > 0 && s[s.len() - 1] == ':' {
        trim_colons_spec(s.drop_last())
    } else {
        s
    }
}

proof fn lemma_trim_colons_trailing(s: Seq<char>)
    requires
        s.len() > 0,
        s[s.len() - 1] == ':',
    ensures
        trim_colons_spec(s) == trim_colons_spec(s.drop_last()),
    decreases s.len(),
{
    if s[0] == ':' {
        if s.len() == 1 {
            assert(s.drop_first().len() == 0);
            assert(s.drop_last().len() == 0);
            assert(s.drop_first() =~= s.drop_last());
        } else {
            let t = s.drop_first();
            lemma_trim_colons_trailing(t);
            assert(t.drop_last() =~= s.drop_last().drop_first());
            assert(s.drop_last()[0] == ':');
        }
    }
}

/// Removes every leading and trailing `':'` from `s`.
pub fn trim_colons(s: &str) -> (res: &str)
    ensures
        res@ == trim_colons_spec(s@),
{
    let len = s.unicode_len();
    let mut lo: usize = 0;
    assert(s@.subrange(0, len as int) =~= s@);
    while lo < len && s.get_char(lo) == ':'
        invariant
            len == s@.len(),
            lo <= len,
            trim_colons_spec(s@) == trim_colons_spec(s@.subrange(lo as int, len as int)),
        decreases len - lo,
    {
        assert(s@.subrange(lo as int, len as int).drop_first() =~= s@.subrange(lo + 1, len as int));
        lo = lo + 1;
    }
    let mut hi: usize = len;
    while hi > lo && s.get_char(hi - 1) == ':'
        invariant
            len == s@.len(),
            lo <= hi <= len,
            lo < len ==> s@[lo as int] != ':',
            trim_colons_spec(s@) == trim_colons_spec(s@.subrange(lo as int, hi as int)),
        decreases hi - lo,
    {
        let ghost t = s@.subrange(lo as int, hi as int);
        proof {
            lemma_trim_colons_trailing(t);
        }
        assert(t.drop_last() =~= s@.subrange(lo as int, hi - 1));
        hi = hi - 1;
    }
    let res = s.substring_char(lo, hi);
    proof {
        let t = s@.subrange(lo as int, hi as int);
        if t.len() > 0 {
            assert(t[0] == s@[lo as int]);
        }
    }
    res
}

/// The decimal digit character for `d < 10`.
pub open spec fn digit_char(d: nat) -> char {
    if d == 0 { '0' }
    else if d == 1 { '1' }
    else if d == 2 { '2' }
    else if d == 3 { '3' }
    else if d == 4 { '4' }
    else if d == 5 { '5' }
    else if d == 6 { '6' }
    else if d == 7 { '7' }
    else if d == 8 { '8' }
    else { '9' }
}

/// The decimal notation of `n`, with no sign and no leading zeros.
pub open spec fn decimal_spec(n: nat) -> Seq<char>
    decreases n,
{
    if n < 10 {
        seq![digit_char(n)]
    } else {
        decimal_spec(n / 10).push(digit_char(n % 10))
    }
}

fn digit_str(d: u64) -> (res: &'static str)
    requires
        d < 10,
    ensures
        res@ == seq![digit_char(d as nat)],
{
    proof {
        reveal_strlit("0");
        reveal_strlit("1");
        reveal_strlit("2");
        reveal_strlit("3");
        reveal_strlit("4");
        reveal_strlit("5");
        reveal_strlit("6");
        reveal_strlit("7");
        reveal_strlit("8");
        reveal_strlit("9");
    }
    let r = if d == 0 { "0" }
    else if d == 1 { "1" }
    else if d == 2 { "2" }
    else if d == 3 { "3" }
    else if d == 4 { "4" }
    else if d == 5 { "5" }
    else if d == 6 { "6" }
    else if d == 7 { "7" }
    else if d == 8 { "8" }
    else { "9" };
    assert(r@ =~= seq![digit_char(d as nat)]);
    r
}

/// Writes `n` in decimal.
pub fn decimal(n: u64) -> (res: String)
    ensures
        res@ == decimal_spec(n as nat),
    decreases n,
{
    if n < 10 {
        owned(digit_str(n))
    } else {
        let mut s = decimal(n / 10);
        s.append(digit_str(n % 10));
        assert(s@ =~= decimal_spec(n as nat));
        s
    }
}

/// `true` for the characters `'0'` to `'9'`.
pub open spec fn is_digit(c: char) -> bool {
    '0' <= c && c <= '9'
}

/// The value of the digit character `c`.
pub open spec fn digit_value(c: char) -> nat {
    (c as int - '0' as int) as nat
}

/// The value of a string of decimal digits.
pub open spec fn digits_value(s: Seq<char>) -> nat
    decreases s.len(),
{
    if s.len() == 0 {
        0
    } else {
        digits_value(s.drop_last()) * 10 + digit_value(s[s.len() - 1])
    }
}

/// `true` when every character of `s` is a decimal digit.
pub open spec fn all_digits(s: Seq<char>) -> bool {
    forall|i: int| 0 <= i < s.len() ==> is_digit(#[trigger] s[i])
}

/// `s` without one leading `'+'`, if it has one.
pub open spec fn unsigned_body(s: Seq<char>) -> Seq<char> {
    if s.len() > 0 && s[0] == '+' { s.drop_first() } else { s }
}

/// What `str::parse::<u16>` gives: an optional `'+'` followed by one or more
/// decimal digits whose value fits in a `u16`; anything else is refused.
pub open spec fn parse_u16_spec(s: Seq<char>) -> Option<u16> {
    let body = unsigned_body(s);
    if body.len() > 0 && all_digits(body) && digits_value(body) <= u16::MAX {
        Some(digits_value(body) as u16)
    } else {
        None
    }
}

proof fn lemma_digits_value_grows(s: Seq<char>, i: int, j: int)
    requires
        0 <= i <= j <= s.len(),
        all_digits(s),
    ensures
        digits_value(s.subrange(0, i)) <= digits_value(s.subrange(0, j)),
    decreases j - i,
{
    if i < j {
        lemma_digits_value_grows(s, i, j - 1);
        assert(s.subrange(0, j).drop_last() =~= s.subrange(0, j - 1));
    }
}

/// Parses a decimal `u16` the way `str::parse::<u16>` does.
pub fn parse_u16(s: &str) -> (res: Option<u16>)
    ensures
        res == parse_u16_spec(s@),
{
    let len = s.unicode_len();
    let mut start: usize = 0;
    if len > 0 && s.get_char(0) == '+' {
        start = 1;
    }
    let ghost body = unsigned_body(s@);
    assert(body =~= s@.subrange(start as int, len as int));
    if start == len {
        return None;
    }
    let mut acc: u32 = 0;
    let mut i: usize = start;
    while i < len
        invariant
            len == s@.len(),
            start <= i <= len,
            start < len,
            body == s@.subrange(start as int, len as int),
            body == unsigned_body(s@),
            forall|k: int| start <= k < i ==> is_digit(#[trigger] s@[k]),
            acc as nat == digits_value(body.subrange(0, i - start)),
            acc <= u16::MAX,
        decreases len - i,
    {
        let c = s.get_char(i);
        if !('0' <= c && c <= '9') {
            assert(body[i - start] == c);
            assert(!is_digit(body[i - start]));
            assert(!all_digits(body));
            assert(parse_u16_spec(s@) is None);
            return None;
        }
        let d: u32 = (c as u32) - ('0' as u32);
        let ghost prefix = body.subrange(0, i + 1 - start);
        assert(prefix.drop_last() =~= body.subrange(0, i - start));
        assert(prefix[prefix.len() - 1] == c);
        let next: u32 = acc * 10 + d;
        assert(d == digit_value(c));
        assert(digits_value(prefix) == next);
        if next > 65535 {
            proof {
                assert forall|k: int| 0 <= k < prefix.len() implies is_digit(#[trigger] prefix[k]) by {
                    assert(prefix[k] == s@[start + k]);
                }
                if all_digits(body) {
                    lemma_digits_value_grows(body, i + 1 - start, body.len() as int);
                    assert(body.subrange(0, body.len() as int) =~= body);
                    assert(digits_value(body) > 65535);
                }
                assert(parse_u16_spec(s@) is None);
            }
            return None;
        }
        acc = next;
        i = i + 1;
    }
    assert(body.subrange(0, len - start) =~= body);
    assert forall|k: int| 0 <= k < body.len() implies is_digit(#[trigger] body[k]) by {
        assert(body[k] == s@[start + k]);
    }
    Some(acc as u16)
}

/// Trimming leaves no `':'` at either end, and only removes colons from
/// the ends: the result is a contiguous piece of `s`.
pub proof fn lemma_trim_colons_result(s: Seq<char>)
    ensures
        trim_colons_spec(s).len() > 0 ==> trim_colons_spec(s)[0] != ':'
            && trim_colons_spec(s)[trim_colons_spec(s).len() - 1] != ':',
        exists|lo: int, hi: int| 0 <= lo <= hi <= s.len() && trim_colons_spec(s) == s.subrange(lo, hi),
    decreases s.len(),
{
    if s.len() > 0 && s[0] == ':' {
        let t = s.drop_first();
        lemma_trim_colons_result(t);
        let (lo, hi) = choose|lo: int, hi: int| 0 <= lo <= hi <= t.len() && trim_colons_spec(t) == t.subrange(lo, hi);
        assert(t.subrange(lo, hi) =~= s.subrange(lo + 1, hi + 1));
    } else if s.len() > 0 && s[s.len() - 1] == ':' {
        let t = s.drop_last();
        lemma_trim_colons_result(t);
        let (lo, hi) = choose|lo: int, hi: int| 0 <= lo <= hi <= t.len() && trim_colons_spec(t) == t.subrange(lo, hi);
        assert(t.subrange(lo, hi) =~= s.subrange(lo, hi));
    } else {
        assert(s.subrange(0, s.len() as int) =~= s);
    }
}

/// A name without colons at its ends is left as it is, so trimming twice
/// is trimming once.
pub proof fn lemma_trim_colons_idempotent(s: Seq<char>)
    ensures
        (s.len() == 0 || (s[0] != ':' && s[s.len() - 1] != ':')) ==> trim_colons_spec(s) == s,
        trim_colons_spec(trim_colons_spec(s)) == trim_colons_spec(s),
{
    lemma_trim_colons_result(s);
}

/// The decimal text of any number is a non-empty string of digits whose
/// value is that number.
pub proof fn lemma_decimal_digits(n: nat)
    ensures
        decimal_spec(n).len() > 0,
        all_digits(decimal_spec(n)),
        digits_value(decimal_spec(n)) == n,
    decreases n,
{
    assert(digit_value(digit_char(n % 10)) == n % 10 && is_digit(digit_char(n % 10)));
    if n < 10 {
        assert(decimal_spec(n).drop_last() =~= Seq::<char>::empty());
        assert(digits_value(decimal_spec(n)) == digits_value(Seq::<char>::empty()) * 10 + digit_value(digit_char(n)));
    } else {
        lemma_decimal_digits(n / 10);
        let d = decimal_spec(n);
        assert(d.drop_last() =~= decimal_spec(n / 10));
        assert(d[d.len() - 1] == digit_char(n % 10));
        assert(digits_value(d) == digits_value(decimal_spec(n / 10)) * 10 + digit_value(digit_char(n % 10)));
        assert((n / 10) * 10 + n % 10 == n);
        assert forall|i: int| 0 <= i < d.len() implies is_digit(#[trigger] d[i]) by {
            if i < d.len() - 1 {
                assert(d[i] == decimal_spec(n / 10)[i]);
            }
        }
    }
}

/// A port number written in decimal reads back as the same port.
pub proof fn lemma_decimal_parses_back(n: u16)
    ensures
        parse_u16_spec(decimal_spec(n as nat)) == Some(n),
{
    lemma_decimal_digits(n as nat);
    let d = decimal_spec(n as nat);
    assert(d[0] != '+') by {
        assert(is_digit(d[0]));
    }
    assert(unsigned_body(d) == d);
}

/// A text holding a character that is not a digit, other than one leading
/// `'+'`, or with no digit at all, or whose digits are worth more than
/// 65535, is not a port number.
pub proof fn lemma_parse_u16_refuses(s: Seq<char>)
    ensures
        unsigned_body(s).len() == 0 ==> parse_u16_spec(s) is None,
        (exists|i: int| 0 <= i < unsigned_body(s).len() && !is_digit(#[trigger] unsigned_body(s)[i]))
            ==> parse_u16_spec(s) is None,
        digits_value(unsigned_body(s)) > 65535 ==> parse_u16_spec(s) is None,
        parse_u16_spec(s) matches Some(p) ==> p as nat == digits_value(unsigned_body(s)),
{
}

} // verus!
