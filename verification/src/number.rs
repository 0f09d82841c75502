//! Integer literal tokens: radix prefixes (`0x`, `0b`), unsigned and
//! long suffixes (`u`, `l`, in any case), and overflow handling that
//! falls back to an unsigned reading only for literals marked
//! unsigned.

use vstd::prelude::*;
use vstd::string::StringSliceAdditionalSpecFns;

verus! {

/// A parsed integer literal: signed, or unsigned for literals that
/// only fit above the signed range and carry an unsigned suffix.
#[derive(Clone, Copy, PartialEq, Eq, Structural, Debug)]
pub enum IntegerOrUnsigned {
    Int(i64),
    Uint(u64),
}

impl IntegerOrUnsigned {
    pub fn is_unsigned(&self) -> (r: bool)
        ensures
            r == (*self is Uint),
    {
        match self {
            IntegerOrUnsigned::Uint(_) => true,
            _ => false,
        }
    }

    pub fn is_signed(&self) -> (r: bool)
        ensures
            r == (*self is Int),
    {
        match self {
            IntegerOrUnsigned::Int(_) => true,
            _ => false,
        }
    }

    pub fn as_integer(&self) -> (r: Option<i64>)
        ensures
            *self matches IntegerOrUnsigned::Int(v) ==> r == Some(v),
            *self is Uint ==> r is None,
    {
        match self {
            IntegerOrUnsigned::Int(v) => Some(*v),
            IntegerOrUnsigned::Uint(_) => None,
        }
    }
}

/// What went wrong with a literal.
#[derive(Clone, Copy, PartialEq, Eq, Structural, Debug)]
pub enum LuaParseErrorKind {
    SyntaxError,
}

/// A parse failure report.
#[derive(Clone, Copy, PartialEq, Eq, Structural, Debug)]
pub struct LuaParseError {
    pub kind: LuaParseErrorKind,
    pub detail: LuaNumberErrorDetail,
}

/// Which failure a bad integer literal produced.
#[derive(Clone, Copy, PartialEq, Eq, Structural, Debug)]
pub enum LuaNumberErrorDetail {
    /// The unsigned fallback also failed: the literal fits nowhere.
    TooLargeUnsigned,
    /// Out of the signed range, and not marked unsigned.
    TooLargeSigned,
    /// Not a well-formed integer literal at all.
    Malformed,
}

/// Whether a byte is one of the literal suffix characters.
pub open spec fn spec_is_suffix_byte(c: u8) -> bool {
    c == 117u8 || c == 85u8 || c == 108u8 || c == 76u8  // u U l L
}

/// Number of trailing suffix bytes.
pub open spec fn spec_suffix_count(b: Seq<u8>) -> nat
    decreases b.len(),
{
    if b.len() > 0 && spec_is_suffix_byte(b.last()) {
        1 + spec_suffix_count(b.drop_last())
    } else {
        0
    }
}

/// Whether the trailing suffix run holds an unsigned marker.
pub open spec fn spec_has_unsigned_suffix(b: Seq<u8>) -> bool
    decreases b.len(),
{
    if b.len() > 0 && spec_is_suffix_byte(b.last()) {
        b.last() == 117u8 || b.last() == 85u8 || spec_has_unsigned_suffix(b.drop_last())
    } else {
        false
    }
}

/// The value of one digit byte under `radix`, if it is a digit
/// there; letters count from ten, in either case.
pub open spec fn spec_digit_val(c: u8, radix: int) -> Option<int> {
    let v: int = if 48 <= c <= 57 {
        c - 48
    } else if 97 <= c <= 122 {
        c - 87
    } else if 65 <= c <= 90 {
        c - 55
    } else {
        99
    };
    if v < radix {
        Some(v)
    } else {
        None
    }
}

/// Length of the leading run of valid digits.
pub open spec fn spec_valid_len(s: Seq<u8>, radix: int) -> nat
    decreases s.len(),
{
    if s.len() == 0 {
        0
    } else if spec_digit_val(s[0], radix) is Some {
        1 + spec_valid_len(s.drop_first(), radix)
    } else {
        0
    }
}

/// The value of a run of digits, all assumed valid.
pub open spec fn spec_digits_value(s: Seq<u8>, radix: int) -> int
    decreases s.len(),
{
    if s.len() == 0 {
        0
    } else {
        spec_digits_value(s.drop_last(), radix) * radix + (match spec_digit_val(
            s.last(),
            radix,
        ) {
            Some(d) => d,
            None => 0,
        })
    }
}

/// The sign byte of a body, if any: `(negative, digits)`.
pub open spec fn spec_split_sign(s: Seq<u8>) -> (bool, Seq<u8>) {
    if s.len() > 0 && s[0] == 45u8 {  // -
        (true, s.drop_first())
    } else if s.len() > 0 && s[0] == 43u8 {  // +
        (false, s.drop_first())
    } else {
        (false, s)
    }
}

/// The radix a literal announces: 16 under `0x`, 2 under `0b`, else
/// ten; prefixes are recognized in either case.
pub open spec fn spec_radix_of(b: Seq<u8>) -> int {
    if b.len() >= 2 && b[0] == 48u8 && (b[1] == 120u8 || b[1] == 88u8) {  // 0x 0X
        16
    } else if b.len() >= 2 && b[0] == 48u8 && (b[1] == 98u8 || b[1] == 66u8) {  // 0b 0B
        2
    } else {
        10
    }
}

/// The digit body of a literal: suffixes stripped, and the radix
/// prefix stripped where one is announced.
pub open spec fn spec_body_of(b: Seq<u8>) -> Seq<u8> {
    let core = b.take(b.len() - spec_suffix_count(b));
    if spec_radix_of(b) == 10 {
        core
    } else {
        core.skip(2)
    }
}

/// How a literal's digit body reads as a signed value: well-formed
/// and in range, out of range, or malformed. The whole digit run
/// must be valid; an out-of-range value is reported as overflow in
/// its sign's direction.
pub open spec fn spec_signed_read(body: Seq<u8>, radix: int) -> Result<i64, bool> {
    // Err(false): malformed; Err(true): out of range
    let (neg, digits) = spec_split_sign(body);
    let k = spec_valid_len(digits, radix);
    if digits.len() == 0 {
        Result::Err(false)
    } else if k == 0 {
        Result::Err(false)
    } else if neg && spec_digits_value(digits.take(k as int), radix) > 0x8000000000000000 {
        Result::Err(true)
    } else if !neg && spec_digits_value(digits.take(k as int), radix) > 0x7fffffffffffffff {
        Result::Err(true)
    } else if k < digits.len() {
        Result::Err(false)
    } else if neg {
        Result::Ok((-spec_digits_value(digits, radix)) as i64)
    } else {
        Result::Ok(spec_digits_value(digits, radix) as i64)
    }
}

/// How a literal's digit body reads as an unsigned value.
pub open spec fn spec_unsigned_read(body: Seq<u8>, radix: int) -> Option<u64> {
    let (neg, digits) = spec_split_sign(body);
    let k = spec_valid_len(digits, radix);
    if digits.len() == 0 || k < digits.len() || k == 0 {
        None
    } else if neg {
        if spec_digits_value(digits, radix) == 0 {
            Some(0u64)
        } else {
            None
        }
    } else if spec_digits_value(digits, radix) > 0xffffffffffffffff {
        None
    } else {
        Some(spec_digits_value(digits, radix) as u64)
    }
}

/// What `int_token_value` owes for a token text with bytes `b`.
pub open spec fn spec_int_token_result(b: Seq<u8>) -> Result<
    IntegerOrUnsigned,
    LuaNumberErrorDetail,
> {
    let radix = spec_radix_of(b);
    let body = spec_body_of(b);
    match spec_signed_read(body, radix) {
        Result::Ok(v) => Result::Ok(IntegerOrUnsigned::Int(v)),
        Result::Err(false) => Result::Err(LuaNumberErrorDetail::Malformed),
        Result::Err(true) => {
            let (neg, _) = spec_split_sign(body);
            if !neg && spec_has_unsigned_suffix(b) {
                match spec_unsigned_read(body, radix) {
                    Some(u) => Result::Ok(IntegerOrUnsigned::Uint(u)),
                    None => Result::Err(LuaNumberErrorDetail::TooLargeUnsigned),
                }
            } else {
                Result::Err(LuaNumberErrorDetail::TooLargeSigned)
            }
        },
    }
}

/// Read an integer literal token: strip `u`/`l` suffixes, honor a
/// `0x`/`0b` radix prefix, parse as signed, and fall back to an
/// unsigned reading only when the signed reading overflowed upward
/// and the literal carries an unsigned suffix.
#[verifier::rlimit(60)]
pub fn int_token_value(text: &str) -> (r: Result<IntegerOrUnsigned, LuaParseError>)
    ensures
        r matches Ok(v) ==> spec_int_token_result(text.spec_bytes()) == Result::<
            IntegerOrUnsigned,
            LuaNumberErrorDetail,
        >::Ok(v),
        r matches Err(e) ==> e.kind == LuaParseErrorKind::SyntaxError && spec_int_token_result(
            text.spec_bytes(),
        ) == Result::<IntegerOrUnsigned, LuaNumberErrorDetail>::Err(e.detail),
{
    let b: &[u8] = text.as_bytes();
    let n = b.len();

    // trailing suffix run
    let mut suffix: usize = 0;
    let mut has_u = false;
    proof {
        assert(b@.take(n as int) =~= b@);
    }
    while suffix < n && is_suffix_byte(b[n - 1 - suffix])
        invariant
            n == b@.len(),
            0 <= suffix <= n,
            suffix <= spec_suffix_count(b@),
            spec_suffix_count(b@.take(n - suffix)) == spec_suffix_count(b@) - suffix,
            spec_has_unsigned_suffix(b@) == (has_u || spec_has_unsigned_suffix(
                b@.take(n - suffix),
            )),
        decreases n - suffix,
    {
        proof {
            assert(b@.take(n - suffix).len() == n - suffix);
            assert(b@.take(n - suffix).last() == b@[n - 1 - suffix]);
            assert(b@.take(n - suffix).drop_last() =~= b@.take(n - suffix - 1));
        }
        if b[n - 1 - suffix] == 117u8 || b[n - 1 - suffix] == 85u8 {
            has_u = true;
        }
        suffix = suffix + 1;
    }
    proof {
        if suffix < n {
            assert(b@.take(n - suffix).last() == b@[n - 1 - suffix]);
        }
        assert(spec_suffix_count(b@.take(n - suffix)) == 0);
        assert(spec_suffix_count(b@) == suffix);
        assert(!spec_has_unsigned_suffix(b@.take(n - suffix)));
        assert(has_u == spec_has_unsigned_suffix(b@));
    }

    // radix prefix
    let radix: u64 = if n >= 2 && b[0] == 48u8 && (b[1] == 120u8 || b[1] == 88u8) {
        16
    } else if n >= 2 && b[0] == 48u8 && (b[1] == 98u8 || b[1] == 66u8) {
        2
    } else {
        10
    };
    let body_start: usize = if radix == 10 {
        0
    } else {
        2
    };
    let body_end: usize = n - suffix;
    let body_start = if body_start > body_end {
        body_end
    } else {
        body_start
    };
    proof {
        if radix != 10 {
            assert(!spec_is_suffix_byte(b@[1]));
            if body_end < 2 {
                lemma_suffix_run(b@, 1);
            }
            assert(body_end >= 2);
        }
        assert(b@.take(body_end as int).skip(body_start as int) =~= b@.subrange(
            body_start as int,
            body_end as int,
        ));
        assert(spec_body_of(b@) =~= b@.subrange(body_start as int, body_end as int));
    }

    // sign
    let mut i: usize = body_start;
    let mut neg = false;
    if i < body_end && b[i] == 45u8 {
        neg = true;
        i = i + 1;
    } else if i < body_end && b[i] == 43u8 {
        i = i + 1;
    }
    let digits_start = i;
    let ghost digits = spec_split_sign(spec_body_of(b@)).1;
    let ghost spec_neg = spec_split_sign(spec_body_of(b@)).0;
    proof {
        assert(digits =~= b@.subrange(digits_start as int, body_end as int));
        assert(neg == spec_neg);
    }

    if digits_start == body_end {
        return Err(
            LuaParseError {
                kind: LuaParseErrorKind::SyntaxError,
                detail: LuaNumberErrorDetail::Malformed,
            },
        );
    }

    // scan digits: validity run, mathematical value with saturation
    let mut val: u64 = 0;
    let mut over: bool = false;
    let mut j: usize = digits_start;
    while j < body_end && digit_val(b[j], radix) < 99
        invariant
            n == b@.len(),
            digits_start <= j <= body_end <= n,
            digits =~= b@.subrange(digits_start as int, body_end as int),
            2 <= radix <= 16,
            forall|q: int|
                0 <= q < j - digits_start ==> spec_digit_val(#[trigger] digits[q], radix as int)
                    is Some,
            spec_valid_len(digits, radix as int) >= j - digits_start,
            !over ==> val == spec_digits_value(digits.take(j - digits_start), radix as int),
            over ==> spec_digits_value(digits.take(j - digits_start), radix as int)
                > 0xffffffffffffffff,
        decreases body_end - j,
    {
        let d = digit_val(b[j], radix);
        proof {
            assert(digits[j - digits_start] == b@[j as int]);
            lemma_valid_len_step(digits, radix as int, j - digits_start);
            assert(digits.take(j - digits_start + 1).drop_last() =~= digits.take(
                j - digits_start,
            ));
            assert(digits.take(j - digits_start + 1).last() == digits[j - digits_start]);
        }
        if !over {
            proof {
                assert((val as int) * (radix as int) <= 0xffffffffffffffff * 16)
                    by (nonlinear_arith)
                    requires
                        val <= 0xffffffffffffffff,
                        radix <= 16,
                        val >= 0,
                        radix >= 0,
                ;
            }
            let nv: u128 = (val as u128) * (radix as u128) + (d as u128);
            if nv > 0xffffffffffffffffu128 {
                over = true;
            } else {
                val = nv as u64;
            }
            proof {
                let prev = spec_digits_value(digits.take(j - digits_start), radix as int);
                assert(spec_digits_value(digits.take(j - digits_start + 1), radix as int) == prev
                    * radix + d);
            }
        } else {
            proof {
                let prev = spec_digits_value(digits.take(j - digits_start), radix as int);
                assert(spec_digits_value(digits.take(j - digits_start + 1), radix as int) == prev
                    * radix + d);
                assert(prev * radix >= prev * 2) by (nonlinear_arith)
                    requires
                        radix >= 2,
                        prev >= 0,
                ;
                assert(prev * 2 > 0xffffffffffffffff) by (nonlinear_arith)
                    requires
                        prev > 0xffffffffffffffff,
                ;
            }
        }
        j = j + 1;
    }
    let valid_count = j - digits_start;
    proof {
        if j < body_end {
            assert(spec_digit_val(digits[j - digits_start], radix as int) is None);
        }
        lemma_valid_len_exact(digits, radix as int, valid_count as int);
    }

    if valid_count == 0 {
        return Err(
            LuaParseError {
                kind: LuaParseErrorKind::SyntaxError,
                detail: LuaNumberErrorDetail::Malformed,
            },
        );
    }

    // signed reading
    let signed_over = if neg {
        over || val > 0x8000000000000000u64
    } else {
        over || val > 0x7fffffffffffffffu64
    };
    if !signed_over {
        if j < body_end {
            return Err(
                LuaParseError {
                    kind: LuaParseErrorKind::SyntaxError,
                    detail: LuaNumberErrorDetail::Malformed,
                },
            );
        }
        proof {
            assert(digits.take(valid_count as int) =~= digits);
        }
        if neg {
            let v: i64 = if val == 0x8000000000000000u64 {
                i64::MIN
            } else {
                -((val) as i64)
            };
            return Ok(IntegerOrUnsigned::Int(v));
        } else {
            return Ok(IntegerOrUnsigned::Int(val as i64));
        }
    }

    // signed overflow
    if neg || !has_u {
        return Err(
            LuaParseError {
                kind: LuaParseErrorKind::SyntaxError,
                detail: LuaNumberErrorDetail::TooLargeSigned,
            },
        );
    }

    // unsigned fallback
    if j < body_end || over {
        proof {
            if j == body_end {
                assert(digits.take(valid_count as int) =~= digits);
            }
        }
        return Err(
            LuaParseError {
                kind: LuaParseErrorKind::SyntaxError,
                detail: LuaNumberErrorDetail::TooLargeUnsigned,
            },
        );
    }
    proof {
        assert(digits.take(valid_count as int) =~= digits);
    }
    Ok(IntegerOrUnsigned::Uint(val))
}

/// Exec mirror of `spec_is_suffix_byte`.
fn is_suffix_byte(c: u8) -> (r: bool)
    ensures
        r == spec_is_suffix_byte(c),
{
    c == 117u8 || c == 85u8 || c == 108u8 || c == 76u8
}

/// Exec digit value: 99 marks a non-digit.
fn digit_val(c: u8, radix: u64) -> (r: u64)
    requires
        2 <= radix <= 16,
    ensures
        spec_digit_val(c, radix as int) matches Some(v) ==> r == v && r < radix,
        spec_digit_val(c, radix as int) is None ==> r == 99,
{
    let v: u64 = if 48u8 <= c && c <= 57u8 {
        (c - 48u8) as u64
    } else if 97u8 <= c && c <= 122u8 {
        (c - 87u8) as u64
    } else if 65u8 <= c && c <= 90u8 {
        (c - 55u8) as u64
    } else {
        99
    };
    if v < radix {
        v
    } else {
        99
    }
}

/// Every byte inside the trailing suffix run is a suffix byte.
proof fn lemma_suffix_run(s: Seq<u8>, i: int)
    requires
        0 <= i < s.len(),
        s.len() - spec_suffix_count(s) <= i,
    ensures
        spec_is_suffix_byte(s[i]),
    decreases s.len(),
{
    if i == s.len() - 1 {
        assert(spec_suffix_count(s) >= 1);
    } else {
        assert(spec_is_suffix_byte(s.last()));
        assert(s.drop_last()[i] == s[i]);
        lemma_suffix_run(s.drop_last(), i);
    }
}

/// The valid run grows by one when the next byte is a digit.
proof fn lemma_valid_len_step(s: Seq<u8>, radix: int, i: int)
    requires
        0 <= i < s.len(),
        forall|q: int| 0 <= q < i ==> spec_digit_val(#[trigger] s[q], radix) is Some,
        spec_digit_val(s[i], radix) is Some,
    ensures
        spec_valid_len(s, radix) >= i + 1,
    decreases i,
{
    if i == 0 {
    } else {
        assert forall|q: int|
            0 <= q < i - 1 implies spec_digit_val(#[trigger] s.drop_first()[q], radix)
            is Some by {
            assert(s.drop_first()[q] == s[q + 1]);
        }
        assert(s.drop_first()[i - 1] == s[i]);
        lemma_valid_len_step(s.drop_first(), radix, i - 1);
    }
}

/// The valid run ends exactly where the first non-digit stands.
proof fn lemma_valid_len_exact(s: Seq<u8>, radix: int, k: int)
    requires
        0 <= k <= s.len(),
        forall|q: int| 0 <= q < k ==> spec_digit_val(#[trigger] s[q], radix) is Some,
        k < s.len() ==> spec_digit_val(s[k], radix) is None,
    ensures
        spec_valid_len(s, radix) == k,
    decreases k,
{
    if k == 0 {
    } else {
        assert forall|q: int|
            0 <= q < k - 1 implies spec_digit_val(#[trigger] s.drop_first()[q], radix)
            is Some by {
            assert(s.drop_first()[q] == s[q + 1]);
        }
        if k < s.len() {
            assert(s.drop_first()[k - 1] == s[k]);
        }
        lemma_valid_len_exact(s.drop_first(), radix, k - 1);
    }
}

} // verus!
