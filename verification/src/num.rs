//! Decimal rendering and reading of the integers that the protocol carries.
use vstd::prelude::*;
use crate::text::str_to_chars;

verus! {

pub open spec fn is_digit(c: char) -> bool {
    '0' <= c && c <= '9'
}

pub open spec fn digit_val(c: char) -> int {
    c as int - '0' as int
}

pub open spec fn digit_char(n: int) -> char {
    if n == 0 {
        '0'
    } else if n == 1 {
        '1'
    } else if n == 2 {
        '2'
    } else if n == 3 {
        '3'
    } else if n == 4 {
        '4'
    } else if n == 5 {
        '5'
    } else if n == 6 {
        '6'
    } else if n == 7 {
        '7'
    } else if n == 8 {
        '8'
    } else {
        '9'
    }
}

/// The decimal digits of `n`, most significant first, no sign, no leading
/// zero except for zero itself.
pub open spec fn dec_digits(n: nat) -> Seq<char>
    decreases n,
{
    if n < 10 {
        seq![digit_char(n as int)]
    } else {
        dec_digits(n / 10) + seq![digit_char((n % 10) as int)]
    }
}

/// The decimal rendering of a signed value.
pub open spec fn dec_int(v: int) -> Seq<char> {
    if v < 0 {
        seq!['-'] + dec_digits((-v) as nat)
    } else {
        dec_digits(v as nat)
    }
}

/// The value of a pure digit string, most significant first.
pub open spec fn digits_val(t: Seq<char>) -> nat
    decreases t.len(),
{
    if t.len() == 0 {
        0
    } else {
        digits_val(t.subrange(0, t.len() - 1)) * 10 + (
        if 0 <= digit_val(t.last()) <= 9 {
            digit_val(t.last())
        } else {
            0
        }) as nat
    }
}

pub open spec fn all_digits(t: Seq<char>) -> bool {
    forall|i: int| 0 <= i < t.len() ==> is_digit(#[trigger] t[i])
}

pub fn digit_char_e(n: u64) -> (c: char)
    requires
        n < 10,
    ensures
        c == digit_char(n as int),
{
    if n == 0 {
        '0'
    } else if n == 1 {
        '1'
    } else if n == 2 {
        '2'
    } else if n == 3 {
        '3'
    } else if n == 4 {
        '4'
    } else if n == 5 {
        '5'
    } else if n == 6 {
        '6'
    } else if n == 7 {
        '7'
    } else if n == 8 {
        '8'
    } else {
        '9'
    }
}

/// Append the decimal digits of `n`.
pub fn push_dec_u64(n: u64, out: &mut Vec<char>)
    ensures
        final(out)@ == old(out)@ + dec_digits(n as nat),
    decreases n,
{
    if n < 10 {
        out.push(digit_char_e(n));
        assert(out@ =~= old(out)@ + dec_digits(n as nat));
    } else {
        push_dec_u64(n / 10, out);
        out.push(digit_char_e(n % 10));
        assert(out@ =~= old(out)@ + dec_digits(n as nat));
    }
}

/// Append the decimal rendering of a signed value.
pub fn push_dec_i64(v: i64, out: &mut Vec<char>)
    ensures
        final(out)@ == old(out)@ + dec_int(v as int),
{
    if v < 0 {
        out.push('-');
        let m: u64 = if v == i64::MIN {
            9223372036854775808u64
        } else {
            (-v) as u64
        };
        assert(m as nat == (-(v as int)) as nat);
        push_dec_u64(m, out);
        assert(out@ =~= old(out)@ + dec_int(v as int));
    } else {
        push_dec_u64(v as u64, out);
    }
}

/// The value of the digits `t[from..to]` if they are all digits and the value
/// is at most `cap`; nothing otherwise.
pub open spec fn capped_val(t: Seq<char>, cap: nat) -> Option<nat> {
    if all_digits(t) && digits_val(t) <= cap {
        Some(digits_val(t))
    } else {
        None
    }
}

proof fn lemma_digits_val_step(t: Seq<char>, k: int)
    requires
        0 <= k < t.len(),
    ensures
        digits_val(t.subrange(0, k + 1)) == digits_val(t.subrange(0, k)) * 10 + (
        if 0 <= digit_val(t[k]) <= 9 {
            digit_val(t[k])
        } else {
            0
        }),
{
    let s = t.subrange(0, k + 1);
    assert(s.subrange(0, s.len() - 1) =~= t.subrange(0, k));
    assert(s.last() == t[k]);
}

/// The signed integer a pure integer token stands for: an optional minus
/// sign followed by digits, nothing else.
pub open spec fn int_token_val(t: Seq<char>) -> Option<int> {
    let neg = t.len() > 0 && t[0] == '-';
    let ds = if neg {
        t.subrange(1, t.len() as int)
    } else {
        t
    };
    if ds.len() > 0 && all_digits(ds) {
        Some(
            if neg {
                -(digits_val(ds) as int)
            } else {
                digits_val(ds) as int
            },
        )
    } else {
        None
    }
}

/// The correlation value of a numeric token: its integer value when it is a
/// pure integer in signed 64-bit range, and zero otherwise.
pub open spec fn token_as_i64(t: Seq<char>) -> i64 {
    match int_token_val(t) {
        Some(v) => if i64::MIN <= v <= i64::MAX {
            v as i64
        } else {
            0
        },
        None => 0,
    }
}

/// The unsigned 32-bit value of a token, when it is one.
pub open spec fn token_as_u32(t: Seq<char>) -> Option<u32> {
    if t.len() > 0 && all_digits(t) && digits_val(t) <= 0xFFFF_FFFF {
        Some(digits_val(t) as u32)
    } else {
        None
    }
}

/// The signed 32-bit value of a token, when it is one.
pub open spec fn token_as_i32(t: Seq<char>) -> Option<i32> {
    match int_token_val(t) {
        Some(v) => if i32::MIN <= v <= i32::MAX {
            Some(v as i32)
        } else {
            None
        },
        None => None,
    }
}

/// Read a token as `token_as_i64` says.
pub fn token_to_i64(t: &str) -> (r: i64)
    ensures
        r == token_as_i64(t@),
{
    let cs = str_to_chars(t);
    let n = cs.len();
    if n == 0 {
        return 0;
    }
    let neg = cs[0] == '-';
    let from: usize = if neg {
        1
    } else {
        0
    };
    if from >= n {
        return 0;
    }
    let ghost ds = if neg {
        t@.subrange(1, t@.len() as int)
    } else {
        t@
    };
    assert(ds =~= cs@.subrange(from as int, n as int));
    if neg {
        match digits_value_capped(&cs, 1, n, 9223372036854775808u64) {
            Some(m) => {
                if m == 9223372036854775808u64 {
                    i64::MIN
                } else {
                    -(m as i64)
                }
            },
            None => 0,
        }
    } else {
        match digits_value_capped(&cs, 0, n, 9223372036854775807u64) {
            Some(m) => m as i64,
            None => 0,
        }
    }
}

/// Read a token as `token_as_u32` says.
pub fn token_to_u32(t: &str) -> (r: Option<u32>)
    ensures
        r == token_as_u32(t@),
{
    let cs = str_to_chars(t);
    let n = cs.len();
    if n == 0 {
        return None;
    }
    assert(cs@.subrange(0, n as int) =~= t@);
    match digits_value_capped(&cs, 0, n, 0xFFFF_FFFFu64) {
        Some(v) => Some(v as u32),
        None => None,
    }
}

/// Read a token as `token_as_i32` says.
pub fn token_to_i32(t: &str) -> (r: Option<i32>)
    ensures
        r == token_as_i32(t@),
{
    let cs = str_to_chars(t);
    let n = cs.len();
    if n == 0 {
        return None;
    }
    let neg = cs[0] == '-';
    let from: usize = if neg {
        1
    } else {
        0
    };
    if from >= n {
        return None;
    }
    let ghost ds = if neg {
        t@.subrange(1, t@.len() as int)
    } else {
        t@
    };
    assert(ds =~= cs@.subrange(from as int, n as int));
    if neg {
        match digits_value_capped(&cs, 1, n, 2147483648u64) {
            Some(m) => {
                if m == 2147483648u64 {
                    Some(i32::MIN)
                } else {
                    Some(-(m as i32))
                }
            },
            None => None,
        }
    } else {
        match digits_value_capped(&cs, 0, n, 2147483647u64) {
            Some(m) => Some(m as i32),
            None => None,
        }
    }
}

/// Read `t[from..to]` as a decimal number of value at most `cap`.
pub fn digits_value_capped(t: &Vec<char>, from: usize, to: usize, cap: u64) -> (r: Option<u64>)
    requires
        from <= to <= t@.len(),
    ensures
        r matches Some(v) ==> capped_val(t@.subrange(from as int, to as int), cap as nat)
            == Some(v as nat) && v <= cap,
        r is None ==> capped_val(t@.subrange(from as int, to as int), cap as nat) is None,
    decreases to - from,
{
    let ghost whole = t@.subrange(from as int, to as int);
    let mut acc: u64 = 0;
    let mut over: bool = false;
    let mut k: usize = from;
    while k < to
        invariant
            from <= k <= to <= t@.len(),
            whole == t@.subrange(from as int, to as int),
            all_digits(t@.subrange(from as int, k as int)),
            !over ==> acc as nat == digits_val(t@.subrange(from as int, k as int)) && acc <= cap,
            over ==> digits_val(t@.subrange(from as int, k as int)) > cap,
        decreases to - k,
    {
        let c = t[k];
        if !('0' <= c && c <= '9') {
            proof {
                assert(whole[k - from] == t@[k as int]);
                assert(!all_digits(whole));
            }
            return None;
        }
        let d: u64 = (c as u32 as u64) - ('0' as u32 as u64);
        assert(d as int == digit_val(c));
        proof {
            lemma_digits_val_step(t@.subrange(from as int, to as int), k - from);
            assert(t@.subrange(from as int, to as int).subrange(0, k - from + 1) =~= t@.subrange(
                from as int,
                k as int + 1,
            ));
            assert(t@.subrange(from as int, to as int).subrange(0, k - from) =~= t@.subrange(
                from as int,
                k as int,
            ));
            assert(t@.subrange(from as int, to as int)[k - from] == t@[k as int]);
        }
        if over {
            proof {
                assert(digits_val(t@.subrange(from as int, k as int + 1)) >= 10 * digits_val(
                    t@.subrange(from as int, k as int),
                ));
            }
        } else {
            if acc > cap / 10 || (acc == cap / 10 && d > cap % 10) {
                over = true;
                proof {
                    assert(acc * 10 + d > cap) by (nonlinear_arith)
                        requires
                            acc > cap / 10 || (acc == cap / 10 && d > cap % 10),
                            cap / 10 == (cap - cap % 10) / 10,
                            0 <= cap % 10 < 10,
                            cap as int == (cap / 10) * 10 + cap % 10,
                            d >= 0,
                    ;
                }
            } else {
                proof {
                    assert(acc * 10 + d <= cap) by (nonlinear_arith)
                        requires
                            acc <= cap / 10,
                            !(acc == cap / 10 && d > cap % 10),
                            0 <= d <= 9,
                            cap as int == (cap / 10) * 10 + cap % 10,
                            0 <= cap % 10 < 10,
                    ;
                }
                acc = acc * 10 + d;
            }
        }
        assert(all_digits(t@.subrange(from as int, k as int + 1)));
        k = k + 1;
    }
    assert(t@.subrange(from as int, k as int) =~= whole);
    if over {
        None
    } else {
        Some(acc)
    }
}

} // verus!
