//! Decimal and hexadecimal rendering and parsing of integers.
use vstd::prelude::*;

verus! {

/// The ASCII digit for `d` in base 16 (lower case), `d < 16`.
pub open spec fn digit_char(d: nat) -> char {
    if d < 10 {
        ((d + 48) as u32) as char
    } else {
        ((d + 87) as u32) as char
    }
}

/// The lower-case hexadecimal rendering of `n` without leading zeros
/// (`format!("{:x}", n)`).
pub open spec fn hex_text(n: nat) -> Seq<char>
    decreases n,
{
    if n < 16 {
        seq![digit_char(n)]
    } else {
        hex_text(n / 16).push(digit_char(n % 16))
    }
}

/// The decimal rendering of `n` without leading zeros (`n.to_string()`).
pub open spec fn dec_text(n: nat) -> Seq<char>
    decreases n,
{
    if n < 10 {
        seq![digit_char(n)]
    } else {
        dec_text(n / 10).push(digit_char(n % 10))
    }
}

/// Whether `c` is an ASCII decimal digit.
pub open spec fn is_digit(c: char) -> bool {
    '0' <= c && c <= '9'
}

/// The value of an ASCII decimal digit.
pub open spec fn digit_value(c: char) -> nat {
    ((c as u32) - 48) as nat
}

/// The number written by the decimal digits `s` (most significant first).
pub open spec fn digits_value(s: Seq<char>) -> nat
    decreases s.len(),
{
    if s.len() == 0 {
        0
    } else {
        digits_value(s.drop_last()) * 10 + digit_value(s.last())
    }
}

/// Whether every character of `s` is an ASCII decimal digit.
pub open spec fn all_digits(s: Seq<char>) -> bool {
    forall|i: int| 0 <= i < s.len() ==> #[trigger] is_digit(s[i])
}

/// The unsigned value written by `s` with an optional leading `+`, as
/// `str::parse::<u64>`: `None` for an empty digit run, a character that is not
/// a digit, or a value above `u64::MAX`.
pub open spec fn parse_u64_spec(s: Seq<char>) -> Option<u64> {
    let digits = if s.len() > 0 && s[0] == '+' {
        s.drop_first()
    } else {
        s
    };
    if digits.len() == 0 || !all_digits(digits) || digits_value(digits) > u64::MAX {
        None
    } else {
        Some(digits_value(digits) as u64)
    }
}

/// The signed value written by `s` with an optional leading `+` or `-`, as
/// `str::parse::<i64>`.
pub open spec fn parse_i64_spec(s: Seq<char>) -> Option<i64> {
    if s.len() > 0 && s[0] == '-' {
        let digits = s.drop_first();
        if digits.len() == 0 || !all_digits(digits) || digits_value(digits) > 0x8000_0000_0000_0000 {
            None
        } else {
            Some((0 - digits_value(digits)) as i64)
        }
    } else {
        let digits = if s.len() > 0 && s[0] == '+' {
            s.drop_first()
        } else {
            s
        };
        if digits.len() == 0 || !all_digits(digits) || digits_value(digits) > i64::MAX {
            None
        } else {
            Some(digits_value(digits) as i64)
        }
    }
}

proof fn lemma_digits_value_monotone(s: Seq<char>, j: int)
    requires
        0 <= j <= s.len(),
        all_digits(s),
    ensures
        digits_value(s.take(j)) <= digits_value(s),
    decreases s.len() - j,
{
    if j < s.len() {
        lemma_digits_value_monotone(s, j + 1);
        assert(s.take(j + 1).drop_last() =~= s.take(j));
        assert(is_digit(s[j]));
        assert(digits_value(s.take(j + 1)) == digits_value(s.take(j)) * 10 + digit_value(
            s.take(j + 1).last(),
        ));
    } else {
        assert(s.take(j) =~= s);
    }
}

fn digit_of(d: u64) -> (c: char)
    requires
        d < 16,
    ensures
        c == digit_char(d as nat),
{
    if d < 10 {
        let b: u8 = (d as u8) + 48;
        b as char
    } else {
        let b: u8 = (d as u8) + 87;
        b as char
    }
}

/// The characters of `rev` in reverse order.
fn reversed(rev: &Vec<char>) -> (res: Vec<char>)
    ensures
        res@ == rev@.reverse(),
{
    let mut out: Vec<char> = Vec::new();
    let mut i: usize = rev.len();
    while i > 0
        invariant
            i <= rev.len(),
            out@ == rev@.skip(i as int).reverse(),
        decreases i,
    {
        i = i - 1;
        out.push(rev[i]);
        assert(out@ =~= rev@.skip(i as int).reverse());
    }
    assert(rev@.skip(0) =~= rev@);
    out
}

proof fn lemma_text_len_pos(n: nat, base: nat)
    requires
        base == 10 || base == 16,
    ensures
        base == 10 ==> dec_text(n).len() >= 1,
        base == 16 ==> hex_text(n).len() >= 1,
    decreases n,
{
    if base == 10 && n >= 10 {
        lemma_text_len_pos(n / 10, base);
    }
    if base == 16 && n >= 16 {
        lemma_text_len_pos(n / 16, base);
    }
}

/// The digits of `n` in `base` (10 or 16), most significant first.
fn digits_in_base(n: u64, base: u64) -> (res: Vec<char>)
    requires
        base == 10 || base == 16,
    ensures
        base == 10 ==> res@ == dec_text(n as nat),
        base == 16 ==> res@ == hex_text(n as nat),
{
    // `rev` holds the digits of `n % base^k`, least significant first; `m` is `n / base^k`.
    let mut rev: Vec<char> = Vec::new();
    let mut m: u64 = n;
    let ghost mut tail: Seq<char> = Seq::empty();
    rev.push(digit_of(m % base));
    proof {
        tail = seq![digit_char((m % base) as nat)];
    }
    m = m / base;
    assert(rev@.reverse() =~= tail);
    // Invariant: text(n) == text(m) ++ tail when m > 0, and text(n) == tail when m == 0.
    assert(base == 10 ==> (n >= 10 ==> dec_text(n as nat) == dec_text(m as nat).push(
        digit_char((n % base) as nat),
    )));
    while m > 0
        invariant
            base == 10 || base == 16,
            rev@.reverse() == tail,
            m > 0 ==> (base == 10 ==> dec_text(n as nat) == dec_text(m as nat) + tail),
            m > 0 ==> (base == 16 ==> hex_text(n as nat) == hex_text(m as nat) + tail),
            m == 0 ==> (base == 10 ==> dec_text(n as nat) == tail),
            m == 0 ==> (base == 16 ==> hex_text(n as nat) == tail),
        decreases m,
    {
        let d = m % base;
        rev.push(digit_of(d));
        let ghost old_tail = tail;
        proof {
            tail = seq![digit_char(d as nat)] + old_tail;
            if base == 10 {
                if m >= 10 {
                    assert(dec_text(m as nat) == dec_text((m / 10) as nat).push(digit_char(d as nat)));
                    assert(dec_text(n as nat) =~= dec_text((m / 10) as nat) + tail);
                } else {
                    assert(dec_text(m as nat) == seq![digit_char(d as nat)]);
                    assert(dec_text(n as nat) =~= tail);
                }
            } else {
                if m >= 16 {
                    assert(hex_text(m as nat) == hex_text((m / 16) as nat).push(digit_char(d as nat)));
                    assert(hex_text(n as nat) =~= hex_text((m / 16) as nat) + tail);
                } else {
                    assert(hex_text(m as nat) == seq![digit_char(d as nat)]);
                    assert(hex_text(n as nat) =~= tail);
                }
            }
        }
        assert(rev@.reverse() =~= tail);
        m = m / base;
    }
    reversed(&rev)
}

/// `format!("{:x}", n)` as characters.
pub fn hex_chars(n: u64) -> (res: Vec<char>)
    ensures
        res@ == hex_text(n as nat),
{
    digits_in_base(n, 16)
}

/// `n.to_string()` as characters.
pub fn dec_chars(n: u64) -> (res: Vec<char>)
    ensures
        res@ == dec_text(n as nat),
{
    digits_in_base(n, 10)
}

fn all_digits_exec(s: &[char]) -> (res: bool)
    ensures
        res == all_digits(s@),
{
    let mut i: usize = 0;
    while i < s.len()
        invariant
            i <= s.len(),
            forall|k: int| 0 <= k < i ==> #[trigger] is_digit(s@[k]),
        decreases s.len() - i,
    {
        if !('0' <= s[i] && s[i] <= '9') {
            assert(!is_digit(s@[i as int]));
            return false;
        }
        i = i + 1;
    }
    true
}

/// The value of the decimal digits `s`, or `None` when it exceeds `limit`.
fn digits_value_upto(s: &[char], limit: u64) -> (res: Option<u64>)
    requires
        all_digits(s@),
    ensures
        match res {
            Some(v) => v == digits_value(s@) && v <= limit,
            None => digits_value(s@) > limit,
        },
{
    let mut acc: u64 = 0;
    let mut i: usize = 0;
    while i < s.len()
        invariant
            all_digits(s@),
            i <= s.len(),
            acc == digits_value(s@.take(i as int)),
            acc <= limit,
        decreases s.len() - i,
    {
        assert(s@.take(i + 1).drop_last() =~= s@.take(i as int));
        assert(is_digit(s@[i as int]));
        let d: u64 = ((s[i] as u32) - 48) as u64;
        if d > limit {
            proof {
                lemma_digits_value_monotone(s@, i + 1);
            }
            return None;
        }
        if acc > (limit - d) / 10 {
            proof {
                assert(acc * 10 + d > limit) by (nonlinear_arith)
                    requires
                        acc > (limit - d) / 10,
                        d <= 9,
                        d <= limit,
                ;
                lemma_digits_value_monotone(s@, i + 1);
            }
            return None;
        }
        proof {
            assert(acc * 10 + d <= limit) by (nonlinear_arith)
                requires
                    acc <= (limit - d) / 10,
                    d <= limit,
            ;
        }
        acc = acc * 10 + d;
        i = i + 1;
    }
    assert(s@.take(s.len() as int) =~= s@);
    Some(acc)
}

/// `str::parse::<u64>` on the characters `s`.
pub fn parse_u64(s: &[char]) -> (res: Option<u64>)
    ensures
        res == parse_u64_spec(s@),
{
    let start: usize = if s.len() > 0 && s[0] == '+' {
        1
    } else {
        0
    };
    let digits = crate::text::suffix_from(s, start);
    assert(start == 1 ==> digits@ =~= s@.drop_first());
    assert(start == 0 ==> digits@ =~= s@);
    if digits.len() == 0 || !all_digits_exec(&digits) {
        return None;
    }
    digits_value_upto(&digits, u64::MAX)
}

/// `str::parse::<i64>` on the characters `s`.
pub fn parse_i64(s: &[char]) -> (res: Option<i64>)
    ensures
        res == parse_i64_spec(s@),
{
    if s.len() > 0 && s[0] == '-' {
        let digits = crate::text::suffix_from(s, 1);
        assert(digits@ =~= s@.drop_first());
        if digits.len() == 0 || !all_digits_exec(&digits) {
            return None;
        }
        match digits_value_upto(&digits, 0x8000_0000_0000_0000u64) {
            Some(v) => {
                if v == 0x8000_0000_0000_0000u64 {
                    Some(i64::MIN)
                } else {
                    Some(-(v as i64))
                }
            },
            None => None,
        }
    } else {
        let start: usize = if s.len() > 0 && s[0] == '+' {
            1
        } else {
            0
        };
        let digits = crate::text::suffix_from(s, start);
        assert(start == 1 ==> digits@ =~= s@.drop_first());
        assert(start == 0 ==> digits@ =~= s@);
        if digits.len() == 0 || !all_digits_exec(&digits) {
            return None;
        }
        match digits_value_upto(&digits, i64::MAX as u64) {
            Some(v) => Some(v as i64),
            None => None,
        }
    }
}

/// The decimal rendering of a signed integer (`n.to_string()`).
pub open spec fn signed_dec_text(n: int) -> Seq<char> {
    if n < 0 {
        seq!['-'] + dec_text((-n) as nat)
    } else {
        dec_text(n as nat)
    }
}

/// `n.to_string()` for a signed integer, as characters.
pub fn signed_dec_chars(n: i64) -> (res: Vec<char>)
    ensures
        res@ == signed_dec_text(n as int),
{
    if n < 0 {
        let m: u64 = if n == i64::MIN {
            0x8000_0000_0000_0000u64
        } else {
            (-n) as u64
        };
        let digits = dec_chars(m);
        let mut out: Vec<char> = Vec::new();
        out.push('-');
        let r = crate::text::concat_chars(&out, &digits);
        assert(r@ =~= seq!['-'] + dec_text((-(n as int)) as nat));
        r
    } else {
        dec_chars(n as u64)
    }
}

/// Reading back the decimal rendering of `n` gives `n`: it is a non-empty
/// run of digits whose value is `n`.
pub proof fn lemma_dec_round_trip(n: nat)
    ensures
        dec_text(n).len() >= 1,
        all_digits(dec_text(n)),
        digits_value(dec_text(n)) == n,
    decreases n,
{
    let d = n % 10;
    let c = digit_char(d);
    assert(c == ((d + 48) as u32) as char);
    assert((c as u32) == d + 48);
    assert(is_digit(c));
    assert(digit_value(c) == d);
    if n >= 10 {
        lemma_dec_round_trip(n / 10);
        let t = dec_text(n / 10);
        assert(dec_text(n) == t.push(c));
        assert(dec_text(n).drop_last() =~= t);
        assert(dec_text(n).last() == c);
        assert(digits_value(dec_text(n)) == digits_value(t) * 10 + digit_value(c));
        assert((n / 10) * 10 + n % 10 == n);
        assert forall|i: int| 0 <= i < dec_text(n).len() implies #[trigger] is_digit(dec_text(n)[i]) by {
            if i < t.len() {
                assert(dec_text(n)[i] == t[i]);
            }
        }
    } else {
        assert(dec_text(n) == seq![c]);
        assert(dec_text(n).drop_last() =~= Seq::<char>::empty());
        assert(digits_value(dec_text(n)) == digits_value(Seq::<char>::empty()) * 10 + digit_value(c));
    }
}

/// `str::parse::<i64>` reads back the decimal rendering of any `i64` from 0 up.
pub proof fn law_parse_i64_of_dec(n: i64)
    requires
        n >= 0,
    ensures
        parse_i64_spec(dec_text(n as nat)) == Some(n),
{
    lemma_dec_round_trip(n as nat);
    assert(is_digit(dec_text(n as nat)[0]));
}

} // verus!
