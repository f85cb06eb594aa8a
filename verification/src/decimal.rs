//! Decimal numerals: what a run of digits denotes, how it is read without
//! overflow, and how a number is written out again.

use vstd::prelude::*;
use vstd::string::*;
use crate::text::chars_of;

verus! {

/// `c` is one of the ten decimal digits.
pub open spec fn is_digit(c: char) -> bool {
    '0' <= c <= '9'
}

/// The number that the digit `c` stands for.
pub open spec fn digit_value(c: char) -> nat {
    (c as int - '0' as int) as nat
}

/// The digit that stands for `d`, where `d` is below ten.
pub open spec fn digit_char(d: nat) -> char {
    (d + '0' as nat) as char
}

/// `s` is a run of at least one decimal digit.
pub open spec fn is_digits(s: Seq<char>) -> bool {
    &&& s.len() > 0
    &&& forall|i: int| 0 <= i < s.len() ==> is_digit(#[trigger] s[i])
}

/// The number that a run of digits denotes in base ten.
pub open spec fn digits_value(s: Seq<char>) -> nat
    decreases s.len(),
{
    if s.len() == 0 {
        0
    } else {
        10 * digits_value(s.drop_last()) + digit_value(s.last())
    }
}

/// What a numeral without sign denotes: digits, which a `+` may precede.
pub open spec fn natural_of(raw: Seq<char>) -> Option<nat> {
    let digits = if raw.len() > 0 && raw[0] == '+' {
        raw.skip(1)
    } else {
        raw
    };
    if is_digits(digits) {
        Some(digits_value(digits))
    } else {
        None
    }
}

/// What a numeral with sign denotes, as its sign (`true` for `-`) and its
/// magnitude: digits, which a `+` or a `-` may precede.
pub open spec fn integer_of(raw: Seq<char>) -> Option<(bool, nat)> {
    let signed = raw.len() > 0 && (raw[0] == '+' || raw[0] == '-');
    let digits = if signed {
        raw.skip(1)
    } else {
        raw
    };
    if is_digits(digits) {
        Some((raw[0] == '-', digits_value(digits)))
    } else {
        None
    }
}

/// The shortest decimal numeral for `n`.
pub open spec fn decimal_text(n: nat) -> Seq<char>
    decreases n,
{
    if n < 10 {
        seq![digit_char(n)]
    } else {
        decimal_text(n / 10).push(digit_char(n % 10))
    }
}

/// The digits of the fraction `f / (10 * scale)`, from the first decimal
/// place to the last one that is not zero. `scale` is a power of ten and
/// `f` is below `10 * scale`.
pub open spec fn fraction_text(f: nat, scale: nat) -> Seq<char>
    decreases scale,
{
    if f == 0 || scale == 0 {
        Seq::empty()
    } else {
        seq![digit_char(f / scale)] + fraction_text(f % scale, scale / 10)
    }
}

/// A prefix of a numeral denotes no more than the numeral.
pub proof fn lemma_prefix_value(s: Seq<char>, k: int)
    requires
        0 <= k <= s.len(),
    ensures
        digits_value(s.take(k)) <= digits_value(s),
    decreases s.len() - k,
{
    if k < s.len() {
        lemma_prefix_value(s, k + 1);
        assert(s.take(k + 1).drop_last() =~= s.take(k));
    } else {
        assert(s.take(k) =~= s);
    }
}

/// The value of the digit `c`, or `None` where `c` is no digit.
pub(crate) fn digit_of(c: char) -> (d: Option<u64>)
    ensures
        d is Some == is_digit(c),
        d matches Some(v) ==> v == digit_value(c) && v < 10,
{
    match c {
        '0' => Some(0),
        '1' => Some(1),
        '2' => Some(2),
        '3' => Some(3),
        '4' => Some(4),
        '5' => Some(5),
        '6' => Some(6),
        '7' => Some(7),
        '8' => Some(8),
        '9' => Some(9),
        _ => None,
    }
}

/// The one-character text of the digit for `d`.
pub(crate) fn digit_text(d: u64) -> (t: &'static str)
    requires
        d < 10,
    ensures
        t@ == seq![digit_char(d as nat)],
{
    proof {
        reveal_strlit("0");
        reveal_strlit("1");
        reveal_strlit("2");
        reveal_strlit("3");
        reveal_strlit("4");
        reveal_strlit("5");
        reveal_strlit("6");
        reveal_strlit("7");
        reveal_strlit("8");
        reveal_strlit("9");
    }
    let t = match d {
        0 => "0",
        1 => "1",
        2 => "2",
        3 => "3",
        4 => "4",
        5 => "5",
        6 => "6",
        7 => "7",
        8 => "8",
        _ => "9",
    };
    assert(t@ =~= seq![digit_char(d as nat)]);
    t
}

/// Reads `s[from..]` as a run of digits. `None` where it is no such run or
/// denotes more than a `u64` holds.
pub(crate) fn read_digits(s: &Vec<char>, from: usize) -> (r: Option<u64>)
    requires
        from <= s@.len(),
    ensures
        match r {
            Some(v) => is_digits(s@.skip(from as int)) && digits_value(s@.skip(from as int)) == v,
            None => !is_digits(s@.skip(from as int)) || digits_value(s@.skip(from as int))
                > u64::MAX,
        },
{
    let n: usize = s.len();
    let ghost run = s@.skip(from as int);
    if from == n {
        return None;
    }
    let mut acc: u64 = 0;
    let mut i: usize = from;
    while i < n
        invariant
            from <= i <= n == s@.len(),
            run == s@.skip(from as int),
            forall|j: int| 0 <= j < i - from ==> is_digit(#[trigger] run[j]),
            acc == digits_value(run.take(i - from)),
        decreases n - i,
    {
        let ghost seen = run.take(i - from + 1);
        proof {
            assert(seen.drop_last() =~= run.take(i - from));
            assert(seen.last() == s@[i as int]);
            lemma_prefix_value(run, i - from + 1);
        }
        match digit_of(s[i]) {
            None => {
                assert(!is_digit(run[i - from]));
                return None;
            },
            Some(d) => {
                if acc > (u64::MAX - d) / 10 {
                    return None;
                }
                acc = 10 * acc + d;
            },
        }
        i += 1;
    }
    assert(run.take(n - from) =~= run);
    Some(acc)
}

/// Reads a numeral without sign: digits, which a `+` may precede.
/// `None` where `raw` is no such numeral or denotes more than a `usize`
/// holds.
pub fn read_natural(raw: &str) -> (r: Option<usize>)
    ensures
        match r {
            Some(v) => natural_of(raw@) == Some(v as nat),
            None => natural_of(raw@) matches Some(v) ==> v > usize::MAX,
        },
{
    let chars = chars_of(raw);
    let from: usize = if chars.len() > 0 && chars[0] == '+' {
        1
    } else {
        0
    };
    assert(chars@.skip(0) =~= chars@);
    match read_digits(&chars, from) {
        Some(v) => {
            if v <= usize::MAX as u64 {
                Some(v as usize)
            } else {
                None
            }
        },
        None => None,
    }
}

/// Reads a numeral with sign: digits, which a `+` or a `-` may precede.
/// Returns the sign (`true` for `-`) and the magnitude; `None` where `raw`
/// is no such numeral or its magnitude is more than a `u64` holds.
pub fn read_integer(raw: &str) -> (r: Option<(bool, u64)>)
    ensures
        match r {
            Some((negative, magnitude)) => integer_of(raw@) == Some((negative, magnitude as nat)),
            None => integer_of(raw@) matches Some((_, magnitude)) ==> magnitude > u64::MAX,
        },
{
    let chars = chars_of(raw);
    let signed = chars.len() > 0 && (chars[0] == '+' || chars[0] == '-');
    let from: usize = if signed {
        1
    } else {
        0
    };
    assert(chars@.skip(0) =~= chars@);
    match read_digits(&chars, from) {
        Some(v) => Some((signed && chars[0] == '-', v)),
        None => None,
    }
}

/// Appends the shortest decimal numeral for `n` to `out`.
pub fn append_decimal(out: &mut String, n: u64)
    ensures
        final(out)@ == old(out)@ + decimal_text(n as nat),
    decreases n,
{
    if n >= 10 {
        append_decimal(out, n / 10);
    }
    out.append(digit_text(n % 10));
    assert(out@ =~= old(out)@ + decimal_text(n as nat));
}

/// Appends to `out` the decimal places of `f` millionths, without the zeros
/// that would end them.
pub(crate) fn append_fraction(out: &mut String, f: u32)
    requires
        f < 1_000_000,
    ensures
        final(out)@ == old(out)@ + fraction_text(f as nat, 100_000),
{
    let mut rest: u32 = f;
    let mut scale: u32 = 100_000;
    while rest > 0 && scale > 0
        invariant
            rest == 0 || rest < 10 * scale,
            scale == 100_000 || scale == 10_000 || scale == 1_000 || scale == 100 || scale == 10
                || scale == 1 || scale == 0,
            out@ + fraction_text(rest as nat, scale as nat) == old(out)@ + fraction_text(
                f as nat,
                100_000,
            ),
        decreases scale,
    {
        let ghost before = out@;
        let d: u32 = rest / scale;
        assert(d < 10) by (nonlinear_arith)
            requires
                d == rest / scale,
                0 < scale,
                rest < 10 * scale,
        ;
        out.append(digit_text(d as u64));
        proof {
            assert(out@ + fraction_text((rest % scale) as nat, (scale / 10) as nat) =~= before
                + fraction_text(rest as nat, scale as nat));
        }
        rest = rest % scale;
        scale = scale / 10;
    }
    proof {
        assert(fraction_text(rest as nat, scale as nat) =~= Seq::<char>::empty());
        assert(out@ + Seq::<char>::empty() =~= out@);
    }
}

} // verus!
