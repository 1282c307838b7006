//! Base-10 integer text: a specification of what a decimal numeral means,
//! an executable parser proved against it, and a renderer going the other way.

use vstd::prelude::*;

verus! {

pub open spec fn is_dec_digit(c: char) -> bool {
    '0' <= c && c <= '9'
}

pub open spec fn digit_value(c: char) -> int {
    c as int - '0' as int
}

pub open spec fn all_dec_digits(s: Seq<char>) -> bool {
    forall|i: int| 0 <= i < s.len() ==> is_dec_digit(#[trigger] s[i])
}

/// Numeric value of a digit string, most significant digit first.
pub open spec fn dec_value(s: Seq<char>) -> int
    decreases s.len(),
{
    if s.len() == 0 {
        0
    } else {
        dec_value(s.drop_last()) * 10 + digit_value(s.last())
    }
}

pub open spec fn pow10(n: nat) -> int
    decreases n,
{
    if n == 0 {
        1
    } else {
        10 * pow10((n - 1) as nat)
    }
}

/// The integer denoted by a piece of text: an optional `+` or `-` sign
/// followed by one or more decimal digits, and nothing else.
pub open spec fn parse_int_spec(s: Seq<char>) -> Option<int> {
    if s.len() > 0 && (s[0] == '+' || s[0] == '-') {
        let ds = s.subrange(1, s.len() as int);
        if ds.len() > 0 && all_dec_digits(ds) {
            Some(if s[0] == '-' { -dec_value(ds) } else { dec_value(ds) })
        } else {
            None
        }
    } else {
        if s.len() > 0 && all_dec_digits(s) {
            Some(dec_value(s))
        } else {
            None
        }
    }
}

pub proof fn lemma_dec_value_bounds(s: Seq<char>)
    requires
        all_dec_digits(s),
    ensures
        0 <= dec_value(s) < pow10(s.len()),
    decreases s.len(),
{
    if s.len() > 0 {
        assert(all_dec_digits(s.drop_last())) by {
            assert(forall|i: int|
                0 <= i < s.len() - 1 ==> is_dec_digit(#[trigger] s.drop_last()[i]));
        }
        lemma_dec_value_bounds(s.drop_last());
        assert(is_dec_digit(s.last()));
    }
}

pub proof fn lemma_dec_value_drop_leading_zero(s: Seq<char>)
    requires
        s.len() > 0,
        s[0] == '0',
    ensures
        dec_value(s) == dec_value(s.drop_first()),
    decreases s.len(),
{
    if s.len() == 1 {
        assert(s.drop_first().len() == 0);
        assert(dec_value(s) == dec_value(s.drop_last()) * 10 + digit_value(s.last()));
        assert(s.drop_last().len() == 0);
        assert(s.last() == '0');
    } else {
        lemma_dec_value_drop_leading_zero(s.drop_last());
        assert(s.drop_last().drop_first() =~= s.drop_first().drop_last());
        assert(s.drop_first().last() == s.last());
    }
}

pub proof fn lemma_dec_value_strip_zeros(s: Seq<char>, k: int)
    requires
        0 <= k <= s.len(),
        forall|j: int| 0 <= j < k ==> s[j] == '0',
    ensures
        dec_value(s) == dec_value(s.subrange(k, s.len() as int)),
    decreases k,
{
    if k == 0 {
        assert(s.subrange(0, s.len() as int) =~= s);
    } else {
        lemma_dec_value_drop_leading_zero(s);
        assert(s.drop_first() =~= s.subrange(1, s.len() as int));
        lemma_dec_value_strip_zeros(s.drop_first(), k - 1);
        assert(s.drop_first().subrange(k - 1, s.drop_first().len() as int)
            =~= s.subrange(k, s.len() as int));
    }
}

pub proof fn lemma_dec_value_first_nonzero(s: Seq<char>)
    requires
        all_dec_digits(s),
        s.len() > 0,
        s[0] != '0',
    ensures
        dec_value(s) >= pow10((s.len() - 1) as nat),
    decreases s.len(),
{
    if s.len() == 1 {
        assert(s.drop_last().len() == 0);
        assert(is_dec_digit(s.last()));
    } else {
        assert(all_dec_digits(s.drop_last())) by {
            assert(forall|i: int|
                0 <= i < s.len() - 1 ==> is_dec_digit(#[trigger] s.drop_last()[i]));
        }
        lemma_dec_value_first_nonzero(s.drop_last());
        assert(is_dec_digit(s.last()));
        assert(dec_value(s.drop_last()) * 10 >= pow10((s.len() - 2) as nat) * 10) by (nonlinear_arith)
            requires dec_value(s.drop_last()) >= pow10((s.len() - 2) as nat);
        assert(pow10((s.len() - 1) as nat) == 10 * pow10((s.len() - 2) as nat));
    }
}

/// Parses optionally signed base-10 integer text, exactly as
/// [`parse_int_spec`] reads it; magnitudes above `u64::MAX` are
/// reported as out of range (`None`), which every caller in this
/// crate treats the same as a failed parse of its narrower target.
pub fn parse_int_str(s: &str) -> (r: Option<i128>)
    ensures
        parse_int_spec(s@) is None ==> r is None,
        parse_int_spec(s@) matches Some(v) ==> {
            if -(u64::MAX as int) <= v <= u64::MAX as int {
                r matches Some(x) && x as int == v
            } else {
                r is None
            }
        },
{
    let n = s.unicode_len();
    if n == 0 {
        return None;
    }
    let first = s.get_char(0);
    let negative = first == '-';
    let has_sign = negative || first == '+';
    let start: usize = if has_sign { 1 } else { 0 };
    if start == n {
        return None;
    }
    let ghost ds: Seq<char> = if has_sign { s@.subrange(1, n as int) } else { s@ };
    assert(forall|j: int| 0 <= j < ds.len() ==> ds[j] == s@[j + start]);

    // Skip leading zeros so that the magnitude bound below is a digit-count bound.
    let mut i: usize = start;
    while i < n && s.get_char(i) == '0'
        invariant
            start <= i <= n,
            n == s@.len(),
            forall|j: int| start <= j < i ==> s@[j] == '0',
        decreases n - i,
    {
        i = i + 1;
    }

    // More than 20 significant digits cannot fit in a u64 magnitude.
    if n - i > 20 {
        proof {
            if all_dec_digits(ds) {
                let zs = s@.subrange(i as int, n as int);
                lemma_dec_value_strip_zeros(ds, i - start);
                assert(ds.subrange(i - start, ds.len() as int) =~= zs);
                assert(all_dec_digits(zs));
                assert(zs[0] == s@[i as int]);
                assert(zs[0] != '0');
                lemma_dec_value_first_nonzero(zs);
                lemma_pow10_increases(20, (zs.len() - 1) as nat);
                assert(pow10(20) > u64::MAX as int) by {
                    reveal_with_fuel(pow10, 21);
                }
            }
        }
        return None;
    }

    let mut acc: u128 = 0;
    let mut j: usize = i;
    while j < n
        invariant
            start <= i <= j <= n,
            n == s@.len(),
            n - i <= 20,
            start == (if has_sign { 1int } else { 0int }),
            has_sign == (s@[0] == '+' || s@[0] == '-'),
            ds == (if has_sign { s@.subrange(1, n as int) } else { s@ }),
            all_dec_digits(s@.subrange(i as int, j as int)),
            acc == dec_value(s@.subrange(i as int, j as int)),
            acc < pow10((j - i) as nat),
        decreases n - j,
    {
        let c = s.get_char(j);
        if c < '0' || c > '9' {
            proof {
                assert(ds[j - start] == s@[j as int]);
                assert(!is_dec_digit(ds[j - start]));
                assert(!all_dec_digits(ds));
            }
            return None;
        }
        let d: u8 = char_digit(c);
        proof {
            let prefix = s@.subrange(i as int, j as int);
            let next = s@.subrange(i as int, j + 1 as int);
            assert(next.drop_last() =~= prefix);
            assert(next.last() == s@[j as int]);
            lemma_pow10_increases((j + 1 - i) as nat, 20);
            assert(pow10(20) < u128::MAX as int / 10) by {
                reveal_with_fuel(pow10, 21);
            }
            assert(acc * 10 + 9 < pow10((j + 1 - i) as nat)) by (nonlinear_arith)
                requires
                    acc < pow10((j - i) as nat),
                    pow10((j + 1 - i) as nat) == 10 * pow10((j - i) as nat);
        }
        acc = acc * 10 + (d as u128);
        j = j + 1;
    }

    proof {
        let zs = s@.subrange(i as int, n as int);
        assert(forall|j2: int| 0 <= j2 < ds.len() ==>
            (if j2 < i - start { ds[j2] == '0' } else { ds[j2] == zs[j2 - (i - start)] }));
        assert(all_dec_digits(ds));
        lemma_dec_value_strip_zeros(ds, i - start);
        assert(ds.subrange(i - start, ds.len() as int) =~= zs);
        assert(parse_int_spec(s@) matches Some(v)
            && (if negative { v == -dec_value(zs) } else { v == dec_value(zs) }));
        lemma_dec_value_bounds(zs);
    }

    if acc > u64::MAX as u128 {
        return None;
    }
    if negative {
        Some(-(acc as i128))
    } else {
        Some(acc as i128)
    }
}

fn char_digit(c: char) -> (d: u8)
    requires
        is_dec_digit(c),
    ensures
        d as int == digit_value(c),
        d < 10,
{
    (c as u8) - ('0' as u8)
}

pub proof fn lemma_pow10_pos(a: nat)
    ensures
        pow10(a) >= 1,
    decreases a,
{
    if a > 0 {
        lemma_pow10_pos((a - 1) as nat);
    }
}

pub proof fn lemma_pow10_increases(a: nat, b: nat)
    requires
        a <= b,
    ensures
        pow10(a) <= pow10(b),
    decreases b,
{
    lemma_pow10_pos(a);
    if a < b {
        lemma_pow10_increases(a, (b - 1) as nat);
        lemma_pow10_pos((b - 1) as nat);
        assert(pow10(b) == 10 * pow10((b - 1) as nat));
    }
}

// ---------------------------------------------------------------------------
// Rendering integers back to decimal text.
// ---------------------------------------------------------------------------

pub open spec fn digit_char(d: int) -> char {
    if d == 0 { '0' }
    else if d == 1 { '1' }
    else if d == 2 { '2' }
    else if d == 3 { '3' }
    else if d == 4 { '4' }
    else if d == 5 { '5' }
    else if d == 6 { '6' }
    else if d == 7 { '7' }
    else if d == 8 { '8' }
    else { '9' }
}

/// Decimal text of a non-negative integer, no leading zeros.
pub open spec fn dec_digits_of(n: int) -> Seq<char>
    decreases n,
{
    if n < 10 {
        seq![digit_char(n)]
    } else {
        dec_digits_of(n / 10).push(digit_char(n % 10))
    }
}

/// Decimal text of an integer: a `-` sign for negative values.
pub open spec fn int_text_of(n: int) -> Seq<char> {
    if n < 0 {
        seq!['-'].add(dec_digits_of(-n))
    } else {
        dec_digits_of(n)
    }
}

fn digit_str(d: u64) -> (r: &'static str)
    requires
        d < 10,
    ensures
        r@ =~= seq![digit_char(d as int)],
{
    proof {
        reveal_strlit("0");
        reveal_strlit("1");
        reveal_strlit("2");
        reveal_strlit("3");
        reveal_strlit("4");
        reveal_strlit("5");
        reveal_strlit("6");
        reveal_strlit("7");
        reveal_strlit("8");
        reveal_strlit("9");
    }
    match d {
        0 => "0",
        1 => "1",
        2 => "2",
        3 => "3",
        4 => "4",
        5 => "5",
        6 => "6",
        7 => "7",
        8 => "8",
        _ => "9",
    }
}

pub fn u64_to_dec_string(n: u64) -> (r: String)
    ensures
        r@ == dec_digits_of(n as int),
    decreases n,
{
    if n < 10 {
        digit_str(n).to_owned()
    } else {
        let mut prefix = u64_to_dec_string(n / 10);
        prefix.append(digit_str(n % 10));
        prefix
    }
}

pub fn usize_to_dec_string(n: usize) -> (r: String)
    ensures
        r@ == dec_digits_of(n as int),
{
    u64_to_dec_string(n as u64)
}

pub fn i64_to_dec_string(n: i64) -> (r: String)
    ensures
        r@ == int_text_of(n as int),
{
    if n >= 0 {
        u64_to_dec_string(n as u64)
    } else {
        let magnitude: u64 = if n == i64::MIN {
            9223372036854775808u64
        } else {
            (-n) as u64
        };
        proof {
            reveal_strlit("-");
        }
        let mut out = "-".to_owned();
        out.append(u64_to_dec_string(magnitude).as_str());
        out
    }
}

} // verus!
