//! Text helpers shared by the chat service: decimal numbers as they are
//! written to and read back from the counter store, and identifiers with
//! their dashes taken out.
use vstd::prelude::*;
use vstd::string::*;

verus! {

/// Whether `c` is one of the ASCII digits `0`..`9`.
pub open spec fn is_decimal_digit(c: char) -> bool {
    '0' <= c <= '9'
}

/// The value of an ASCII digit.
pub open spec fn digit_value(c: char) -> int {
    c as int - '0' as int
}

/// Whether every character of `s` is an ASCII digit.
pub open spec fn all_decimal_digits(s: Seq<char>) -> bool {
    forall|i: int| 0 <= i < s.len() ==> is_decimal_digit(#[trigger] s[i])
}

/// The value of a string of digits read in base ten (most significant first).
pub open spec fn digits_value(s: Seq<char>) -> int
    decreases s.len(),
{
    if s.len() == 0 {
        0
    } else {
        digits_value(s.drop_last()) * 10 + digit_value(s.last())
    }
}

/// The integer that `str::parse::<i32>` reads from `s`: an optional `+` or
/// `-`, then at least one ASCII digit and nothing else, with the value in
/// the range of `i32`.
pub open spec fn spec_parse_i32(s: Seq<char>) -> Option<i32> {
    let negative = s.len() > 0 && s[0] == '-';
    let signed = s.len() > 0 && (s[0] == '-' || s[0] == '+');
    let body = if signed { s.drop_first() } else { s };
    let value = if negative { -digits_value(body) } else { digits_value(body) };
    if body.len() > 0 && all_decimal_digits(body) && i32::MIN <= value <= i32::MAX {
        Some(value as i32)
    } else {
        None
    }
}

/// The character of a digit value `0..=9`.
pub open spec fn digit_char(d: int) -> char {
    ('0' as int + d) as char
}

/// The decimal digits of a natural number, without leading zeros.
pub open spec fn nat_decimal(n: nat) -> Seq<char>
    decreases n,
{
    if n < 10 {
        seq![digit_char(n as int)]
    } else {
        nat_decimal(n / 10).push(digit_char((n % 10) as int))
    }
}

/// The decimal form of an integer, as `format!("{}", n)` writes it.
pub open spec fn int_decimal(n: int) -> Seq<char> {
    if n < 0 {
        seq!['-'] + nat_decimal((-n) as nat)
    } else {
        nat_decimal(n as nat)
    }
}

/// `s` with every `-` taken out, the other characters kept in order.
pub open spec fn without_dashes(s: Seq<char>) -> Seq<char>
    decreases s.len(),
{
    if s.len() == 0 {
        Seq::empty()
    } else if s.last() == '-' {
        without_dashes(s.drop_last())
    } else {
        without_dashes(s.drop_last()).push(s.last())
    }
}

/// Appends one character to a `String` (`String::push`).
#[verifier::external_body]
pub(crate) fn push_char(s: &mut String, c: char)
    ensures
        final(s)@ == old(s)@.push(c),
{
    s.push(c)
}

proof fn lemma_digit_char(d: int)
    requires
        0 <= d < 10,
    ensures
        is_decimal_digit(digit_char(d)),
        digit_value(digit_char(d)) == d,
        digit_char(d) != '-',
        digit_char(d) != '+',
{
}

/// The decimal digits of `n` are digits, and read back as `n`.
pub proof fn lemma_nat_decimal(n: nat)
    ensures
        nat_decimal(n).len() > 0,
        all_decimal_digits(nat_decimal(n)),
        digits_value(nat_decimal(n)) == n,
    decreases n,
{
    if n < 10 {
        lemma_digit_char(n as int);
        assert(nat_decimal(n).drop_last() =~= Seq::<char>::empty());
        assert(digits_value(Seq::<char>::empty()) == 0);
        assert(digits_value(nat_decimal(n)) == digits_value(nat_decimal(n).drop_last()) * 10
            + digit_value(nat_decimal(n).last()));
    } else {
        lemma_nat_decimal(n / 10);
        lemma_digit_char((n % 10) as int);
        assert(n == (n / 10) * 10 + n % 10);
        let s = nat_decimal(n);
        assert(s.drop_last() =~= nat_decimal(n / 10));
        assert(digits_value(s) == digits_value(s.drop_last()) * 10 + digit_value(s.last()));
        assert forall|i: int| 0 <= i < s.len() implies is_decimal_digit(#[trigger] s[i]) by {
            if i < s.len() - 1 {
                assert(s[i] == nat_decimal(n / 10)[i]);
            }
        }
    }
}

/// The decimal text of a number has no leading zero: it starts with a
/// non-zero digit, except the text of zero, which is `0`.
pub proof fn lemma_nat_decimal_no_leading_zero(n: nat)
    ensures
        n == 0 ==> nat_decimal(n) == seq!['0'],
        n > 0 ==> nat_decimal(n)[0] != '0',
    decreases n,
{
    if n >= 10 {
        lemma_nat_decimal_no_leading_zero(n / 10);
        lemma_nat_decimal(n / 10);
        assert(nat_decimal(n)[0] == nat_decimal(n / 10)[0]);
    }
}

/// A string of digits is worth at least its first digit.
proof fn lemma_digits_value_at_least_first(s: Seq<char>)
    requires
        s.len() > 0,
        all_decimal_digits(s),
    ensures
        digits_value(s) >= digit_value(s[0]),
    decreases s.len(),
{
    if s.len() > 1 {
        let p = s.drop_last();
        assert(all_decimal_digits(p)) by {
            assert forall|i: int| 0 <= i < p.len() implies is_decimal_digit(#[trigger] p[i]) by {
                assert(p[i] == s[i]);
            }
        }
        lemma_digits_value_at_least_first(p);
        assert(p[0] == s[0]);
        assert(is_decimal_digit(s.last()));
        assert(digits_value(p) >= 0) by {
            assert(digit_value(p[0]) >= 0);
        }
    } else {
        assert(s.drop_last() =~= Seq::<char>::empty());
        assert(digits_value(Seq::<char>::empty()) == 0);
        assert(s.last() == s[0]);
    }
}

/// The decimal text of a number is the only way to write it in digits
/// without a leading zero: any non-empty digit string of value `n` that
/// starts with a non-zero digit (or is a single digit) is `nat_decimal(n)`.
pub proof fn lemma_decimal_is_unique(s: Seq<char>, n: nat)
    requires
        s.len() > 0,
        all_decimal_digits(s),
        s[0] != '0' || s.len() == 1,
        digits_value(s) == n,
    ensures
        s == nat_decimal(n),
    decreases s.len(),
{
    let c = s.last();
    assert(is_decimal_digit(c));
    assert(digit_char(digit_value(c)) == c);
    if s.len() == 1 {
        assert(s.drop_last() =~= Seq::<char>::empty());
        assert(digits_value(Seq::<char>::empty()) == 0);
        assert(n == digit_value(c));
        assert(s =~= seq![c]);
    } else {
        let p = s.drop_last();
        assert(all_decimal_digits(p)) by {
            assert forall|i: int| 0 <= i < p.len() implies is_decimal_digit(#[trigger] p[i]) by {
                assert(p[i] == s[i]);
            }
        }
        assert(p[0] == s[0]);
        lemma_digits_value_at_least_first(p);
        assert(is_decimal_digit(p[0]));
        let v = digits_value(p);
        assert(v >= 1);
        let d = digit_value(c);
        assert(n == v * 10 + d);
        vstd::arithmetic::div_mod::lemma_fundamental_div_mod_converse(n as int, 10, v, d);
        assert(n >= 10);
        lemma_decimal_is_unique(p, v as nat);
        assert(nat_decimal(n) == nat_decimal(n / 10).push(digit_char((n % 10) as int)));
        assert(s =~= p.push(c));
    }
}

/// The decimal form of an integer is `-` before the decimal text of its
/// magnitude when it is negative, and that text alone otherwise; the text is
/// digits without a leading zero, worth the magnitude.
pub proof fn lemma_int_decimal_is_canonical(n: int)
    ensures
        n < 0 ==> int_decimal(n) == seq!['-'] + nat_decimal((-n) as nat),
        n >= 0 ==> int_decimal(n) == nat_decimal(n as nat),
        all_decimal_digits(nat_decimal(if n < 0 { -n } else { n } as nat)),
        digits_value(nat_decimal(if n < 0 { -n } else { n } as nat)) == if n < 0 { -n } else { n },
        (if n < 0 { -n } else { n }) > 0 ==> nat_decimal(if n < 0 { -n } else { n } as nat)[0] != '0',
{
    let m = if n < 0 { -n } else { n };
    lemma_nat_decimal(m as nat);
    lemma_nat_decimal_no_leading_zero(m as nat);
}

/// A number in the range of `i32`, written in decimal, is read back as
/// itself by `str::parse::<i32>`.
pub proof fn lemma_parse_i32_of_decimal(n: i32)
    ensures
        spec_parse_i32(int_decimal(n as int)) == Some(n),
{
    let s = int_decimal(n as int);
    if n < 0 {
        let m = (-(n as int)) as nat;
        lemma_nat_decimal(m);
        let body = nat_decimal(m);
        assert(s.drop_first() =~= body);
        assert(s[0] == '-');
    } else {
        lemma_nat_decimal(n as nat);
        let body = nat_decimal(n as nat);
        assert(is_decimal_digit(body[0]));
        assert(s[0] != '-' && s[0] != '+');
    }
}

/// Appends the decimal digits of `n` to `out`.
fn push_nat_decimal(out: &mut String, n: u64)
    ensures
        final(out)@ == old(out)@ + nat_decimal(n as nat),
    decreases n,
{
    if n >= 10 {
        push_nat_decimal(out, n / 10);
    }
    let d = (n % 10) as u32;
    let c = char_of_digit(d);
    push_char(out, c);
    proof {
        if n >= 10 {
            assert(nat_decimal(n as nat) == nat_decimal((n / 10) as nat).push(digit_char((n % 10) as int)));
        } else {
            assert(nat_decimal(n as nat) == seq![digit_char(n as int)]);
        }
    }
}

/// The character of a digit value.
fn char_of_digit(d: u32) -> (c: char)
    requires
        d < 10,
    ensures
        c == digit_char(d as int),
{
    match d {
        0 => '0',
        1 => '1',
        2 => '2',
        3 => '3',
        4 => '4',
        5 => '5',
        6 => '6',
        7 => '7',
        8 => '8',
        _ => '9',
    }
}

/// Appends the decimal form of `n` to `out`, as `format!("{}", n)` writes it.
pub fn push_i64_decimal(out: &mut String, n: i64)
    ensures
        final(out)@ == old(out)@ + int_decimal(n as int),
{
    if n < 0 {
        push_char(out, '-');
        let magnitude: u64 = (-(n + 1)) as u64 + 1;
        push_nat_decimal(out, magnitude);
        proof {
            assert(magnitude as int == -(n as int));
        }
        assert(out@ =~= old(out)@ + int_decimal(n as int));
    } else {
        push_nat_decimal(out, n as u64);
    }
}

/// Reads an `i32` the way `str::parse::<i32>` does; `None` where it fails.
pub fn parse_i32(s: &str) -> (r: Option<i32>)
    ensures
        r == spec_parse_i32(s@),
{
    let len = s.unicode_len();
    let mut negative = false;
    let mut start: usize = 0;
    if len > 0 {
        let first = s.get_char(0);
        if first == '-' {
            negative = true;
            start = 1;
        } else if first == '+' {
            start = 1;
        }
    }
    let ghost body = s@.subrange(start as int, len as int);
    proof {
        if start == 1 {
            assert(body =~= s@.drop_first());
        } else {
            assert(body =~= s@);
        }
    }
    if start >= len {
        return None;
    }
    // Values above this bound cannot be in range; larger ones are kept at it.
    let cap: i64 = 2147483649;
    let mut acc: i64 = 0;
    let mut i: usize = start;
    while i < len
        invariant
            start <= i <= len,
            len == s@.len(),
            body == s@.subrange(start as int, len as int),
            body == (if s@.len() > 0 && (s@[0] == '-' || s@[0] == '+') {
                s@.drop_first()
            } else {
                s@
            }),
            negative == (s@.len() > 0 && s@[0] == '-'),
            all_decimal_digits(s@.subrange(start as int, i as int)),
            acc == if digits_value(s@.subrange(start as int, i as int)) < cap {
                digits_value(s@.subrange(start as int, i as int))
            } else {
                cap as int
            },
            cap == 2147483649,
            0 <= acc <= cap,
        decreases len - i,
    {
        let c = s.get_char(i);
        let ghost prefix = s@.subrange(start as int, i as int);
        let ghost next = s@.subrange(start as int, i + 1);
        assert(next.drop_last() =~= prefix);
        assert(next.last() == c);
        if c < '0' || c > '9' {
            assert(body[i - start] == c);
            assert(!is_decimal_digit(body[i - start]));
            return None;
        }
        let d = (c as u32 - '0' as u32) as i64;
        assert(d == digit_value(c));
        assert(digits_value(next) == digits_value(prefix) * 10 + d);
        if acc >= cap || acc * 10 + d >= cap {
            acc = cap;
        } else {
            acc = acc * 10 + d;
        }
        assert forall|j: int| 0 <= j < next.len() implies is_decimal_digit(#[trigger] next[j]) by {
            if j < prefix.len() {
                assert(next[j] == prefix[j]);
            }
        }
        i = i + 1;
    }
    assert(s@.subrange(start as int, len as int) =~= body);
    if negative {
        if acc <= 2147483648 {
            Some((-acc) as i32)
        } else {
            None
        }
    } else {
        if acc <= 2147483647 {
            Some(acc as i32)
        } else {
            None
        }
    }
}

/// `without_dashes` distributes over concatenation.
pub proof fn lemma_without_dashes_concat(a: Seq<char>, b: Seq<char>)
    ensures
        without_dashes(a + b) == without_dashes(a) + without_dashes(b),
    decreases b.len(),
{
    if b.len() == 0 {
        assert(a + b =~= a);
        assert(without_dashes(b) =~= Seq::<char>::empty());
        assert(without_dashes(a) + without_dashes(b) =~= without_dashes(a));
    } else {
        lemma_without_dashes_concat(a, b.drop_last());
        assert((a + b).drop_last() =~= a + b.drop_last());
        assert((a + b).last() == b.last());
        if b.last() == '-' {
        } else {
            assert(without_dashes(a) + without_dashes(b.drop_last()).push(b.last())
                =~= (without_dashes(a) + without_dashes(b.drop_last())).push(b.last()));
        }
    }
}

/// A string without dashes is left as it is.
pub proof fn lemma_without_dashes_none(s: Seq<char>)
    requires
        forall|i: int| 0 <= i < s.len() ==> #[trigger] s[i] != '-',
    ensures
        without_dashes(s) == s,
    decreases s.len(),
{
    if s.len() > 0 {
        assert forall|i: int| 0 <= i < s.drop_last().len() implies #[trigger] s.drop_last()[i] != '-' by {
            assert(s.drop_last()[i] == s[i]);
        }
        lemma_without_dashes_none(s.drop_last());
        assert(s.last() == s[s.len() - 1]);
        assert(s.drop_last().push(s.last()) =~= s);
    }
}

/// Copies `s` with every `-` taken out (`s.replace("-", "")`).
pub fn remove_dashes(s: &str) -> (r: String)
    ensures
        r@ == without_dashes(s@),
{
    let len = s.unicode_len();
    let mut out = String::new();
    let mut i: usize = 0;
    while i < len
        invariant
            i <= len,
            len == s@.len(),
            out@ == without_dashes(s@.subrange(0, i as int)),
        decreases len - i,
    {
        let c = s.get_char(i);
        let ghost prefix = s@.subrange(0, i as int);
        let ghost next = s@.subrange(0, i + 1);
        assert(next.drop_last() =~= prefix);
        assert(next.last() == c);
        if c != '-' {
            push_char(&mut out, c);
        }
        i = i + 1;
    }
    assert(s@.subrange(0, len as int) =~= s@);
    out
}

} // verus!
