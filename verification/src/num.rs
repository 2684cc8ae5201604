use vstd::prelude::*;

verus! {

/// JSON stores every numeric field as a number token. The crate keeps such
/// tokens verbatim as text, and this module gives them their meaning:
/// the token grammar, the value of integer tokens, and a verified
/// integer-token printer and reader that invert each other.
pub open spec fn is_digit(c: char) -> bool {
    '0' <= c && c <= '9'
}

pub open spec fn digit_val(c: char) -> int {
    (c as u32) as int - ('0' as u32) as int
}

pub open spec fn is_digit_seq(s: Seq<char>) -> bool {
    s.len() > 0 && forall|i: int| 0 <= i < s.len() ==> is_digit(#[trigger] s[i])
}

/// Digit runs as a JSON integer part writes them: no leading zero except
/// for the single token `0`.
pub open spec fn is_canon_digits(s: Seq<char>) -> bool {
    is_digit_seq(s) && (s[0] == '0' ==> s.len() == 1)
}

/// Value of a digit run, most significant digit first.
pub open spec fn digits_value(s: Seq<char>) -> int
    decreases s.len(),
{
    if s.len() == 0 {
        0
    } else {
        digits_value(s.drop_last()) * 10 + digit_val(s.last())
    }
}

/// An integer token as written for a whole-number JSON value: an optional
/// minus sign followed by a canonical digit run, and never `-0`.
pub open spec fn is_int_lit(s: Seq<char>) -> bool {
    if s.len() > 0 && s[0] == '-' {
        is_canon_digits(s.skip(1)) && s.skip(1) != seq!['0']
    } else {
        is_canon_digits(s)
    }
}

pub open spec fn int_lit_value(s: Seq<char>) -> int {
    if s.len() > 0 && s[0] == '-' {
        -digits_value(s.skip(1))
    } else {
        digits_value(s)
    }
}

/// Length of the leading digit run.
pub open spec fn digit_prefix_len(s: Seq<char>) -> int
    decreases s.len(),
{
    if s.len() > 0 && is_digit(s[0]) {
        1 + digit_prefix_len(s.skip(1))
    } else {
        0
    }
}

/// Exponent part of a JSON number token: empty, or `e`/`E`, an optional
/// sign, and at least one digit.
pub open spec fn is_exp_part(s: Seq<char>) -> bool {
    if s.len() == 0 {
        true
    } else if s[0] == 'e' || s[0] == 'E' {
        let t = if s.len() > 1 && (s[1] == '+' || s[1] == '-') {
            s.skip(2)
        } else {
            s.skip(1)
        };
        is_digit_seq(t) && digit_prefix_len(t) == t.len()
    } else {
        false
    }
}

/// Fraction-then-exponent tail of a JSON number token.
pub open spec fn is_frac_exp_part(s: Seq<char>) -> bool {
    if s.len() == 0 {
        true
    } else if s[0] == '.' {
        let n = digit_prefix_len(s.skip(1));
        n > 0 && is_exp_part(s.skip(1 + n))
    } else {
        is_exp_part(s)
    }
}

/// The complete JSON number token grammar.
pub open spec fn is_number_lit(s: Seq<char>) -> bool {
    let t = if s.len() > 0 && s[0] == '-' {
        s.skip(1)
    } else {
        s
    };
    let n = digit_prefix_len(t);
    n > 0 && (t[0] == '0' ==> n == 1) && is_frac_exp_part(t.skip(n))
}

/// True when the token denotes a value strictly below zero: it carries a
/// minus sign and some digit of its mantissa is not `0`.
pub open spec fn has_nonzero_before_exp(s: Seq<char>) -> bool
    decreases s.len(),
{
    if s.len() == 0 {
        false
    } else if s[0] == 'e' || s[0] == 'E' {
        false
    } else if '1' <= s[0] && s[0] <= '9' {
        true
    } else {
        has_nonzero_before_exp(s.skip(1))
    }
}

pub open spec fn num_lit_is_negative(s: Seq<char>) -> bool {
    s.len() > 0 && s[0] == '-' && has_nonzero_before_exp(s.skip(1))
}

/// Reports whether the number token in `v` denotes a value strictly below
/// zero.
pub fn lit_is_negative(v: &Vec<char>) -> (r: bool)
    ensures
        r == num_lit_is_negative(v@),
{
    if v.len() == 0 || v[0] != '-' {
        return false;
    }
    let mut i: usize = 1;
    loop
        invariant
            1 <= i <= v.len(),
            v@[0] == '-',
            v@.len() > 0,
            has_nonzero_before_exp(v@.skip(1)) == has_nonzero_before_exp(v@.skip(i as int)),
        ensures
            has_nonzero_before_exp(v@.skip(1)) == (i < v@.len() && '1' <= v@[i as int] && v@[i as int] <= '9'),
        decreases v.len() - i,
    {
        if i == v.len() {
            assert(v@.skip(i as int).len() == 0);
            break ;
        }
        let c = v[i];
        assert(v@.skip(i as int)[0] == c);
        if c == 'e' || c == 'E' {
            break ;
        }
        if '1' <= c && c <= '9' {
            break ;
        }
        assert(v@.skip(i as int).skip(1) =~= v@.skip(i as int + 1));
        i += 1;
    }
    i < v.len() && '1' <= v[i] && v[i] <= '9'
}

pub open spec fn pow10(n: nat) -> int
    decreases n,
{
    if n == 0 {
        1
    } else {
        10 * pow10((n - 1) as nat)
    }
}

proof fn lemma_pow10_pos(n: nat)
    ensures
        pow10(n) >= 1,
    decreases n,
{
    if n > 0 {
        lemma_pow10_pos((n - 1) as nat);
    }
}

proof fn lemma_pow10_mono(a: nat, b: nat)
    requires
        a <= b,
    ensures
        pow10(a) <= pow10(b),
    decreases b,
{
    if a < b {
        lemma_pow10_mono(a, (b - 1) as nat);
        lemma_pow10_pos((b - 1) as nat);
    }
}

proof fn lemma_pow10_18()
    ensures
        pow10(18) == 1000000000000000000,
{
    reveal_with_fuel(pow10, 20);
}

proof fn lemma_digits_value_bounds(s: Seq<char>)
    requires
        is_digit_seq(s),
    ensures
        0 <= digits_value(s),
        s[0] != '0' ==> digits_value(s) >= pow10((s.len() - 1) as nat),
    decreases s.len(),
{
    lemma_pow10_pos((s.len() - 1) as nat);
    if s.len() == 1 {
        assert(s.drop_last() =~= Seq::<char>::empty());
        assert(digits_value(s.drop_last()) == 0);
        assert(s.last() == s[0]);
        assert(digits_value(s) == digit_val(s[0]));
    } else {
        let t = s.drop_last();
        assert(is_digit_seq(t));
        assert(t[0] == s[0]);
        lemma_digits_value_bounds(t);
    }
}

/// Any canonical digit run of nineteen or more digits denotes a value of at
/// least `10^18`.
proof fn lemma_long_digits_large(s: Seq<char>)
    requires
        is_canon_digits(s),
        s.len() >= 19,
    ensures
        digits_value(s) >= 1000000000000000000,
{
    lemma_digits_value_bounds(s);
    assert(s[0] != '0');
    lemma_pow10_mono(18, (s.len() - 1) as nat);
    lemma_pow10_18();
}

/// Reads an integer token, accepting exactly the tokens `is_int_lit`
/// describes whose value lies in `lo ..= hi`.
pub fn parse_int_lit(v: &Vec<char>, lo: i64, hi: i64) -> (r: Option<i64>)
    requires
        -1000000000000000000 < lo as int,
        lo as int <= hi as int,
        (hi as int) < 1000000000000000000,
    ensures
        (r is Some) == (is_int_lit(v@) && lo as int <= int_lit_value(v@) && int_lit_value(v@)
            <= hi as int),
        r is Some ==> r->0 as int == int_lit_value(v@),
{
    let neg = v.len() > 0 && v[0] == '-';
    let start: usize = if neg {
        1
    } else {
        0
    };
    let ghost d = if neg {
        v@.skip(1)
    } else {
        v@
    };
    if v.len() == start {
        assert(!is_int_lit(v@));
        return None;
    }
    // reject a leading zero on a multi-digit run, and `-0`
    if v[start] == '0' && (v.len() > start + 1 || neg) {
        assert(d[0] == '0');
        assert(!is_int_lit(v@)) by {
            if is_int_lit(v@) {
                if neg {
                    assert(is_canon_digits(d) && d != seq!['0']);
                    assert(d.len() == 1);
                    assert(d =~= seq!['0']);
                } else {
                    assert(v@.len() == 1);
                }
            }
        }
        return None;
    }
    if v.len() - start >= 19 {
        // too many digits for the permitted range, or not digits at all
        let all_digits = is_int_lit_exec_check(v, start);
        proof {
            assert(v@.skip(start as int) =~= d);
            if all_digits {
                assert(d[0] == v@[start as int]);
                assert(is_canon_digits(d));
                lemma_long_digits_large(d);
            } else {
                assert(!is_int_lit(v@));
            }
        }
        return None;
    }
    let mut i: usize = start;
    let mut acc: i64 = 0;
    while i < v.len()
        invariant
            start <= i <= v.len(),
            start < v.len(),
            v.len() - start < 19,
            d == if neg {
                v@.skip(1)
            } else {
                v@
            },
            neg == (v@.len() > 0 && v@[0] == '-'),
            start == if neg {
                1int
            } else {
                0int
            },
            forall|j: int| start <= j < i ==> is_digit(#[trigger] v@[j]),
            acc as int == digits_value(v@.subrange(start as int, i as int)),
            0 <= acc as int,
            (acc as int) < pow10((i - start) as nat),
        decreases v.len() - i,
    {
        let c = v[i];
        if c < '0' || c > '9' {
            proof {
                assert(d[i - start] == v@[i as int]);
                assert(!is_digit(d[i - start]));
                assert(!is_digit_seq(d));
                assert(!is_canon_digits(d));
                assert(!is_int_lit(v@));
            }
            return None;
        }
        proof {
            lemma_pow10_mono((i - start) as nat, 17);
            lemma_pow10_mono(17, 18);
            lemma_pow10_18();
            assert(pow10(((i + 1) - start) as nat) == 10 * pow10((i - start) as nat));
        }
        let dv: i64 = (c as u32 as i64) - ('0' as u32 as i64);
        assert(0 <= dv <= 9);
        acc = acc * 10 + dv;
        proof {
            let pre = v@.subrange(start as int, i as int);
            let post = v@.subrange(start as int, i as int + 1);
            assert(post.drop_last() =~= pre);
            assert(post.last() == v@[i as int]);
        }
        i += 1;
    }
    assert(v@.subrange(start as int, v@.len() as int) =~= d);
    assert(is_canon_digits(d));
    assert(is_int_lit(v@)) by {
        if neg {
            assert(d[0] != '0');
            assert(d != seq!['0']);
        }
    }
    let value: i64 = if neg {
        assert(digits_value(d) > 0) by {
            lemma_digits_value_bounds(d);
            lemma_pow10_pos((d.len() - 1) as nat);
        }
        -acc
    } else {
        acc
    };
    assert(value as int == int_lit_value(v@));
    if value < lo || value > hi {
        return None;
    }
    Some(value)
}

/// Helper for the long-token case of `parse_int_lit`: reports whether the
/// characters from `start` on are all digits.
fn is_int_lit_exec_check(v: &Vec<char>, start: usize) -> (r: bool)
    requires
        start < v.len(),
    ensures
        r == is_digit_seq(v@.skip(start as int)),
{
    let mut i: usize = start;
    while i < v.len()
        invariant
            start <= i <= v.len(),
            start < v.len(),
            forall|j: int| start <= j < i ==> is_digit(#[trigger] v@[j]),
        decreases v.len() - i,
    {
        let c = v[i];
        if c < '0' || c > '9' {
            assert(v@.skip(start as int)[i - start] == v@[i as int]);
            return false;
        }
        i += 1;
    }
    assert(forall|j: int|
        0 <= j < v@.skip(start as int).len() ==> is_digit(#[trigger] v@.skip(start as int)[j]));
    true
}

/// The decimal digits of `n`, most significant first.
pub open spec fn spec_digits_of(n: nat) -> Seq<char>
    decreases n,
{
    if n < 10 {
        seq![spec_digit_char(n as int)]
    } else {
        spec_digits_of(n / 10).push(spec_digit_char((n % 10) as int))
    }
}

pub open spec fn spec_digit_char(d: int) -> char {
    if d == 0 {
        '0'
    } else if d == 1 {
        '1'
    } else if d == 2 {
        '2'
    } else if d == 3 {
        '3'
    } else if d == 4 {
        '4'
    } else if d == 5 {
        '5'
    } else if d == 6 {
        '6'
    } else if d == 7 {
        '7'
    } else if d == 8 {
        '8'
    } else {
        '9'
    }
}

/// The integer token that serialization writes for `v`.
pub open spec fn spec_int_lit_of(v: int) -> Seq<char> {
    if v < 0 {
        seq!['-'] + spec_digits_of((-v) as nat)
    } else {
        spec_digits_of(v as nat)
    }
}

pub proof fn lemma_digits_of_canon(n: nat)
    ensures
        is_canon_digits(spec_digits_of(n)),
        digits_value(spec_digits_of(n)) == n,
        spec_digits_of(n)[0] == '0' <==> n == 0,
    decreases n,
{
    if n < 10 {
        let s = spec_digits_of(n);
        assert(s =~= seq![spec_digit_char(n as int)]);
        assert(is_digit(spec_digit_char(n as int)));
        assert(digit_val(spec_digit_char(n as int)) == n);
        assert(s.drop_last() =~= Seq::<char>::empty());
        assert(s.last() == spec_digit_char(n as int));
        assert(digits_value(s) == digits_value(s.drop_last()) * 10 + digit_val(s.last()));
        assert(digits_value(s.drop_last()) == 0);
    } else {
        lemma_digits_of_canon(n / 10);
        let t = spec_digits_of(n / 10);
        let s = t.push(spec_digit_char((n % 10) as int));
        assert(s.drop_last() =~= t);
        assert(s.last() == spec_digit_char((n % 10) as int));
        assert(digit_val(s.last()) == n % 10);
        assert(s[0] == t[0]);
        assert(n / 10 > 0);
        assert(forall|i: int| 0 <= i < s.len() ==> is_digit(#[trigger] s[i])) by {
            assert(forall|i: int| 0 <= i < t.len() ==> is_digit(#[trigger] t[i]));
            assert(forall|i: int|
                0 <= i < s.len() ==> s[i] == if i < t.len() {
                    t[i]
                } else {
                    s.last()
                });
        }
    }
}

/// The printed form of any machine integer reads back as itself.
pub proof fn lemma_int_lit_round_trip(v: int)
    ensures
        is_int_lit(spec_int_lit_of(v)),
        int_lit_value(spec_int_lit_of(v)) == v,
{
    if v < 0 {
        lemma_digits_of_canon((-v) as nat);
        let d = spec_digits_of((-v) as nat);
        let s = seq!['-'] + d;
        assert(s[0] == '-');
        assert(s.skip(1) =~= d);
        assert(d[0] != '0');
        assert(d != seq!['0']) by {
            if d == seq!['0'] {
                assert(d[0] == '0');
            }
        }
    } else {
        lemma_digits_of_canon(v as nat);
        let d = spec_digits_of(v as nat);
        assert(d[0] == '-' ==> false) by {
            assert(is_digit(d[0]));
        }
    }
}

/// Appends the decimal digits of `n` to `s`.
fn push_digits(s: &mut String, n: u64)
    ensures
        final(s)@ == old(s)@ + spec_digits_of(n as nat),
    decreases n,
{
    if n < 10 {
        let c = digit_char_exec(n);
        crate::ext::push_char(s, c);
        assert(old(s)@ + spec_digits_of(n as nat) =~= old(s)@.push(spec_digit_char(n as int)));
    } else {
        push_digits(s, n / 10);
        let c = digit_char_exec(n % 10);
        crate::ext::push_char(s, c);
        assert(old(s)@ + spec_digits_of(n as nat) =~= (old(s)@ + spec_digits_of((n / 10) as nat)).push(
            spec_digit_char((n % 10) as int),
        ));
    }
}

fn digit_char_exec(d: u64) -> (c: char)
    requires
        d < 10,
    ensures
        c == spec_digit_char(d as int),
{
    if d == 0 {
        '0'
    } else if d == 1 {
        '1'
    } else if d == 2 {
        '2'
    } else if d == 3 {
        '3'
    } else if d == 4 {
        '4'
    } else if d == 5 {
        '5'
    } else if d == 6 {
        '6'
    } else if d == 7 {
        '7'
    } else if d == 8 {
        '8'
    } else {
        '9'
    }
}

/// Writes the integer token for `v`.
pub fn int_lit_of(v: i64) -> (r: String)
    ensures
        r@ == spec_int_lit_of(v as int),
{
    let mut s = String::new();
    if v < 0 {
        crate::ext::push_char(&mut s, '-');
        let m: u64 = if v == -9223372036854775807i64 - 1i64 {
            9223372036854775808u64
        } else {
            (-v) as u64
        };
        assert(m as int == -(v as int));
        push_digits(&mut s, m);
        assert(s@ =~= seq!['-'] + spec_digits_of(m as nat));
    } else {
        push_digits(&mut s, v as u64);
        assert(s@ =~= spec_digits_of(v as nat));
    }
    s
}

} // verus!
