//! Decimal numerals: writing an integer as text and reading one back.

use vstd::prelude::*;
use crate::text::{chars_of, first_of, scan, CharClass};

verus! {

/// The numeral of a digit value below ten.
pub open spec fn digit_char(d: nat) -> char {
    if d == 0 {
        '0'
    } else if d == 1 {
        '1'
    } else if d == 2 {
        '2'
    } else if d == 3 {
        '3'
    } else if d == 4 {
        '4'
    } else if d == 5 {
        '5'
    } else if d == 6 {
        '6'
    } else if d == 7 {
        '7'
    } else if d == 8 {
        '8'
    } else {
        '9'
    }
}

/// `c` is one of the ten ASCII digits.
pub open spec fn is_digit(c: char) -> bool {
    '0' <= c <= '9'
}

/// The value of an ASCII digit.
pub open spec fn digit_value(c: char) -> nat {
    (c as u32 - '0' as u32) as nat
}

/// The decimal numeral of `n`, without sign or leading zeros.
pub open spec fn decimal_digits(n: nat) -> Seq<char>
    decreases n,
{
    if n < 10 {
        seq![digit_char(n)]
    } else {
        decimal_digits(n / 10).push(digit_char(n % 10))
    }
}

/// The decimal numeral of `i`, with `-` in front of a negative number.
pub open spec fn signed_decimal_digits(i: int) -> Seq<char> {
    if i < 0 {
        seq!['-'] + decimal_digits((-i) as nat)
    } else {
        decimal_digits(i as nat)
    }
}

/// Every character of `s` is an ASCII digit.
pub open spec fn all_digits(s: Seq<char>) -> bool {
    forall|i: int| 0 <= i < s.len() ==> is_digit(#[trigger] s[i])
}

/// The number that a run of digits spells.
pub open spec fn digits_value(s: Seq<char>) -> nat
    decreases s.len(),
{
    if s.len() == 0 {
        0
    } else {
        digits_value(s.drop_last()) * 10 + digit_value(s.last())
    }
}

/// The number that `s` spells as an unsigned integer of at most `max`: an
/// optional `+`, then at least one digit and nothing else.
pub open spec fn unsigned_of(s: Seq<char>, max: nat) -> Option<nat> {
    let body = if s.len() > 0 && s[0] == '+' {
        s.drop_first()
    } else {
        s
    };
    if body.len() > 0 && all_digits(body) && digits_value(body) <= max {
        Some(digits_value(body))
    } else {
        None
    }
}

/// A longer run of digits spells no smaller a number than its prefix.
pub proof fn lemma_prefix_value_le(s: Seq<char>, k: int)
    requires
        0 <= k <= s.len(),
    ensures
        digits_value(s.take(k)) <= digits_value(s),
    decreases s.len(),
{
    if k == s.len() {
        assert(s.take(k) =~= s);
    } else {
        lemma_prefix_value_le(s.drop_last(), k);
        assert(s.drop_last().take(k) =~= s.take(k));
    }
}

/// A digit's numeral as a one-character string.
fn digit_text(d: u128) -> (r: &'static str)
    requires
        d < 10,
    ensures
        r@ == seq![digit_char(d as nat)],
{
    proof {
        reveal_strlit("0");
        reveal_strlit("1");
        reveal_strlit("2");
        reveal_strlit("3");
        reveal_strlit("4");
        reveal_strlit("5");
        reveal_strlit("6");
        reveal_strlit("7");
        reveal_strlit("8");
        reveal_strlit("9");
    }
    let r = if d == 0 {
        "0"
    } else if d == 1 {
        "1"
    } else if d == 2 {
        "2"
    } else if d == 3 {
        "3"
    } else if d == 4 {
        "4"
    } else if d == 5 {
        "5"
    } else if d == 6 {
        "6"
    } else if d == 7 {
        "7"
    } else if d == 8 {
        "8"
    } else {
        "9"
    };
    assert(r@ =~= seq![digit_char(d as nat)]);
    r
}

/// Writes `n` in decimal.
pub fn decimal(n: u128) -> (r: String)
    ensures
        r@ == decimal_digits(n as nat),
    decreases n,
{
    if n < 10 {
        String::from_str(digit_text(n))
    } else {
        let head = decimal(n / 10);
        let r = head.concat(digit_text(n % 10));
        assert(r@ =~= decimal_digits((n / 10) as nat).push(digit_char((n % 10) as nat)));
        r
    }
}

/// Writes `i` in decimal, with `-` in front of a negative number.
pub fn signed_decimal(i: i64) -> (r: String)
    ensures
        r@ == signed_decimal_digits(i as int),
{
    if i < 0 {
        proof {
            reveal_strlit("-");
        }
        let magnitude: u128 = if i == i64::MIN {
            9223372036854775808u128
        } else {
            (-i) as u128
        };
        let r = String::from_str("-").concat(decimal(magnitude).as_str());
        assert("-"@ =~= seq!['-']);
        r
    } else {
        decimal(i as u128)
    }
}

/// Reads `s[from..to]` as an unsigned integer of at most `max`.
pub fn parse_unsigned(s: &Vec<char>, from: usize, to: usize, max: u64) -> (r: Option<u64>)
    requires
        from <= to <= s.len(),
    ensures
        r matches Some(v) ==> unsigned_of(s@.subrange(from as int, to as int), max as nat) == Some(
            v as nat,
        ),
        r is None ==> unsigned_of(s@.subrange(from as int, to as int), max as nat) is None,
{
    let ghost whole = s@.subrange(from as int, to as int);
    let mut at: usize = from;
    if from < to && s[from] == '+' {
        at = from + 1;
        assert(whole[0] == '+');
    }
    let start: usize = at;
    let ghost body = s@.subrange(start as int, to as int);
    assert(body =~= if whole.len() > 0 && whole[0] == '+' {
        whole.drop_first()
    } else {
        whole
    });
    if start == to {
        return None;
    }
    let mut value: u64 = 0;
    while at < to
        invariant
            start <= at <= to <= s.len(),
            from <= to,
            whole == s@.subrange(from as int, to as int),
            body == s@.subrange(start as int, to as int),
            body == if whole.len() > 0 && whole[0] == '+' {
                whole.drop_first()
            } else {
                whole
            },
            body.len() > 0,
            all_digits(body.take(at - start)),
            value as nat == digits_value(body.take(at - start)),
            value <= max,
        decreases to - at,
    {
        let c = s[at];
        assert(body[at - start] == c);
        if !(c >= '0' && c <= '9') {
            assert(!is_digit(body[at - start]));
            return None;
        }
        let d: u64 = (c as u32 - '0' as u32) as u64;
        let ghost next = body.take(at - start + 1);
        assert(next.drop_last() =~= body.take(at - start));
        assert(next.last() == c);
        assert(digits_value(next) == value * 10 + d);
        assert(all_digits(next)) by {
            assert forall|i: int| 0 <= i < next.len() implies is_digit(#[trigger] next[i]) by {
                if i < at - start {
                    assert(next[i] == body.take(at - start)[i]);
                }
            }
        }
        if d > max || value > (max - d) / 10 {
            proof {
                if d <= max {
                    assert(value * 10 + d > max) by (nonlinear_arith)
                        requires
                            value > (max - d) / 10,
                            d <= max,
                    ;
                }
                if all_digits(body) {
                    lemma_prefix_value_le(body, at - start + 1);
                }
            }
            return None;
        }
        assert(value * 10 + d <= max) by (nonlinear_arith)
            requires
                value <= (max - d) / 10,
                d <= max,
        ;
        value = value * 10 + d;
        at += 1;
    }
    assert(body.take(at - start) =~= body);
    Some(value)
}

/// The thousandths that the digits after a decimal point spell: the first
/// three count, and a missing one counts as zero.
pub open spec fn thousandths_of(frac: Seq<char>) -> nat {
    (if frac.len() > 0 {
        digit_value(frac[0]) * 100
    } else {
        0
    }) + (if frac.len() > 1 {
        digit_value(frac[1]) * 10
    } else {
        0
    }) + (if frac.len() > 2 {
        digit_value(frac[2])
    } else {
        0
    })
}

/// The number that `s` spells, in thousandths and rounded down: an unsigned
/// integer, then optionally a point and digits. `None` where `s` is not of
/// that form or the number is above `u64::MAX` thousandths.
pub open spec fn thousandths_reading(s: Seq<char>) -> Option<nat> {
    let dot = first_of(s, CharClass::Point);
    let frac = if dot < s.len() {
        s.skip(dot + 1)
    } else {
        Seq::<char>::empty()
    };
    match unsigned_of(s.take(dot), u64::MAX as nat) {
        Some(whole) => if all_digits(frac) && whole * 1000 + thousandths_of(frac) <= u64::MAX {
            Some(whole * 1000 + thousandths_of(frac))
        } else {
            None
        },
        None => None,
    }
}

/// Reads a number given with a decimal point, in thousandths.
pub fn parse_thousandths(text: &str) -> (r: Option<u64>)
    ensures
        r matches Some(v) ==> thousandths_reading(text@) == Some(v as nat),
        r is None ==> thousandths_reading(text@) is None,
{
    let s = chars_of(text);
    assert(s@.subrange(0, s@.len() as int) =~= s@);
    let dot = scan(&s, 0, s.len(), CharClass::Point);
    assert(s@.subrange(0, dot as int) =~= s@.take(dot as int));
    let whole = match parse_unsigned(&s, 0, dot, u64::MAX) {
        Some(w) => w,
        None => {
            return None;
        },
    };
    let ghost frac = if dot < s.len() {
        s@.skip(dot + 1)
    } else {
        Seq::<char>::empty()
    };
    let mut millis: u64 = 0;
    if dot < s.len() {
        let mut i: usize = dot + 1;
        while i < s.len()
            invariant
                dot + 1 <= i <= s.len(),
                s@ == text@,
                first_of(s@, CharClass::Point) == dot,
                frac == s@.skip(dot + 1),
                all_digits(frac.take(i - dot - 1)),
                millis as nat == thousandths_of(frac.take(i - dot - 1)),
                millis <= 999,
            decreases s.len() - i,
        {
            let c = s[i];
            assert(frac[i - dot - 1] == c);
            if !(c >= '0' && c <= '9') {
                assert(!is_digit(frac[i - dot - 1]));
                return None;
            }
            let d: u64 = (c as u32 - '0' as u32) as u64;
            let k: usize = i - dot - 1;
            let ghost before = frac.take(k as int);
            let ghost after = frac.take(k + 1);
            assert(all_digits(after)) by {
                assert forall|j: int| 0 <= j < after.len() implies is_digit(#[trigger] after[j]) by {
                    if j < k {
                        assert(after[j] == before[j]);
                    }
                }
            }
            assert(forall|j: int| 0 <= j < k ==> after[j] == before[j]);
            if k == 0 {
                millis = millis + d * 100;
            } else if k == 1 {
                millis = millis + d * 10;
            } else if k == 2 {
                millis = millis + d;
            }
            i += 1;
        }
        assert(frac.take(i - dot - 1) =~= frac);
    }
    if whole > (u64::MAX - millis) / 1000 {
        assert(whole * 1000 + millis > u64::MAX) by (nonlinear_arith)
            requires
                whole > (u64::MAX - millis) / 1000,
                millis <= 999,
        ;
        return None;
    }
    assert(whole * 1000 + millis <= u64::MAX) by (nonlinear_arith)
        requires
            whole <= (u64::MAX - millis) / 1000,
            millis <= 999,
    ;
    Some(whole * 1000 + millis)
}

} // verus!
