//! Parsing command-line value strings into field values.
//!
//! The command-line collaborator hands every value over as a string; these
//! functions interpret a string as a value of a field's type.  Unsigned
//! numbers are plain decimal digit strings and signed ones may carry one
//! leading `-`; booleans are the words `true` and `false`; text passes
//! through unchanged.

use vstd::prelude::*;
use vstd::string::StrSliceExecFns;

use crate::model::{FieldValue, FieldValueV, TypeTag};

verus! {

/// A decimal digit.
pub open spec fn is_digit(c: char) -> bool {
    '0' <= c <= '9'
}

/// The numeric value of a decimal digit.
pub open spec fn digit_val(c: char) -> int {
    c as int - '0' as int
}

/// Every character is a decimal digit.
pub open spec fn all_digits(s: Seq<char>) -> bool {
    forall|i: int| 0 <= i < s.len() ==> is_digit(#[trigger] s[i])
}

/// The number a digit string denotes, most significant digit first.
pub open spec fn dec_val(s: Seq<char>) -> int
    decreases s.len(),
{
    if s.len() == 0 {
        0
    } else {
        dec_val(s.drop_last()) * 10 + digit_val(s.last())
    }
}

/// A digit string denotes a non-negative number.
pub proof fn lemma_dec_val_nonneg(s: Seq<char>)
    requires
        all_digits(s),
    ensures
        dec_val(s) >= 0,
    decreases s.len(),
{
    if s.len() > 0 {
        assert(all_digits(s.drop_last())) by {
            assert(forall|i: int|
                0 <= i < s.len() - 1 ==> s.drop_last()[i] == #[trigger] s[i]);
        }
        lemma_dec_val_nonneg(s.drop_last());
    }
}

/// Extending a digit string cannot shrink its number.
pub proof fn lemma_dec_val_prefix_le(s: Seq<char>, j: int)
    requires
        all_digits(s),
        0 <= j <= s.len(),
    ensures
        dec_val(s.take(j)) <= dec_val(s),
    decreases s.len() - j,
{
    if j == s.len() {
        assert(s.take(j) =~= s);
    } else {
        assert(s.take(j + 1).drop_last() =~= s.take(j));
        assert(s.take(j + 1).last() == s[j]);
        assert(all_digits(s.take(j + 1))) by {
            assert(forall|i: int| 0 <= i < j + 1 ==> s.take(j + 1)[i] == #[trigger] s[i]);
        }
        lemma_dec_val_nonneg(s.take(j));
        assert(dec_val(s.take(j + 1)) == dec_val(s.take(j)) * 10 + digit_val(s[j]));
        assert(dec_val(s.take(j)) * 10 >= dec_val(s.take(j))) by (nonlinear_arith)
            requires dec_val(s.take(j)) >= 0;
        lemma_dec_val_prefix_le(s, j + 1);
    }
}

/// Parse a decimal digit string as a `u64`: the string's number, exactly
/// when the string is non-empty, all digits, and the number fits.
#[verifier::loop_isolation(false)]
pub fn parse_u64(s: &str) -> (r: Option<u64>)
    ensures
        (r is Some) <==> (s@.len() > 0 && all_digits(s@) && dec_val(s@) <= u64::MAX),
        r matches Some(x) ==> x == dec_val(s@),
{
    let n = s.unicode_len();
    if n == 0 {
        return None;
    }
    let mut acc: u64 = 0;
    let mut i: usize = 0;
    while i < n
        invariant
            0 < n == s@.len(),
            i <= n,
            all_digits(s@.take(i as int)),
            acc == dec_val(s@.take(i as int)),
        decreases n - i,
    {
        let c = s.get_char(i);
        if !('0' <= c && c <= '9') {
            proof {
                assert(s@[i as int] == c);
                assert(!is_digit(s@[i as int]));
            }
            return None;
        }
        let d: u64 = (c as u32 - '0' as u32) as u64;
        proof {
            assert(s@[i as int] == c);
            assert(d == digit_val(s@[i as int]));
            assert(s@.take(i as int + 1).drop_last() =~= s@.take(i as int));
            assert(s@.take(i as int + 1).last() == s@[i as int]);
            assert(all_digits(s@.take(i as int + 1))) by {
                assert(forall|k: int|
                    0 <= k < i as int + 1 ==> s@.take(i as int + 1)[k] == #[trigger] s@[k]);
            }
        }
        let shifted = match acc.checked_mul(10) {
            Some(x) => x,
            None => {
                proof {
                    overflow_means_no_fit(s@, i as int, acc, d);
                }
                return None;
            },
        };
        let next = match shifted.checked_add(d) {
            Some(x) => x,
            None => {
                proof {
                    overflow_means_no_fit(s@, i as int, acc, d);
                }
                return None;
            },
        };
        acc = next;
        i += 1;
    }
    proof {
        assert(s@.take(n as int) =~= s@);
    }
    Some(acc)
}

/// When one more digit pushes the accumulated number past `u64::MAX`, the
/// whole string's number cannot fit either.
proof fn overflow_means_no_fit(s: Seq<char>, i: int, acc: u64, d: u64)
    requires
        0 <= i < s.len(),
        all_digits(s.take(i)),
        is_digit(s[i]),
        acc == dec_val(s.take(i)),
        d == digit_val(s[i]),
        acc * 10 + d > u64::MAX,
    ensures
        all_digits(s) ==> dec_val(s) > u64::MAX,
{
    if all_digits(s) {
        assert(s.take(i + 1).drop_last() =~= s.take(i));
        assert(s.take(i + 1).last() == s[i]);
        assert(dec_val(s.take(i + 1)) == acc * 10 + d);
        lemma_dec_val_prefix_le(s, i + 1);
    }
}

/// Parse a decimal digit string as a `u32`.
pub fn parse_u32(s: &str) -> (r: Option<u32>)
    ensures
        (r is Some) <==> (s@.len() > 0 && all_digits(s@) && dec_val(s@) <= u32::MAX),
        r matches Some(x) ==> x == dec_val(s@),
{
    match parse_u64(s) {
        Some(x) => if x <= u32::MAX as u64 {
            Some(x as u32)
        } else {
            None
        },
        None => None,
    }
}

/// The signed number a string denotes: an optional leading `-`, then
/// decimal digits; defined exactly when the digits are non-empty and the
/// number fits `i64`.
pub open spec fn spec_parse_i64(s: Seq<char>) -> Option<i64> {
    if s.len() > 0 && s[0] == '-' {
        let t = s.drop_first();
        if t.len() > 0 && all_digits(t) && dec_val(t) <= 0x8000000000000000 {
            Some((-dec_val(t)) as i64)
        } else {
            None
        }
    } else if s.len() > 0 && all_digits(s) && dec_val(s) <= i64::MAX as u64 {
        Some(dec_val(s) as i64)
    } else {
        None
    }
}

/// Parse a decimal digit string with an optional leading `-` as an `i64`.
pub fn parse_i64(s: &str) -> (r: Option<i64>)
    ensures
        r == spec_parse_i64(s@),
{
    let n = s.unicode_len();
    if n == 0 {
        return None;
    }
    if s.get_char(0) == '-' {
        let rest = s.substring_char(1, n);
        proof {
            assert(rest@ =~= s@.drop_first());
        }
        match parse_u64(rest) {
            Some(x) => {
                if x <= i64::MAX as u64 {
                    Some(-(x as i64))
                } else if x == 9223372036854775808u64 {
                    Some(i64::MIN)
                } else {
                    None
                }
            },
            None => None,
        }
    } else {
        match parse_u64(s) {
            Some(x) => if x <= i64::MAX as u64 {
                Some(x as i64)
            } else {
                None
            },
            None => None,
        }
    }
}

/// Decide whether two strings hold the same characters.
fn text_eq(a: &str, b: &str) -> (r: bool)
    ensures
        r == (a@ == b@),
{
    let sa: String = a.to_owned();
    let sb: String = b.to_owned();
    sa == sb
}

/// Parse a boolean: exactly the words `true` and `false`.
pub fn parse_bool(s: &str) -> (r: Option<bool>)
    ensures
        r == (if s@ == "true"@ {
            Some(true)
        } else if s@ == "false"@ {
            Some(false)
        } else {
            None::<bool>
        }),
{
    if text_eq(s, "true") {
        Some(true)
    } else if text_eq(s, "false") {
        Some(false)
    } else {
        None
    }
}

/// Interpret a command-line value string as a value of a field's type.
pub open spec fn spec_parse_value(s: Seq<char>, t: TypeTag) -> Option<FieldValueV> {
    match t {
        TypeTag::U32 => if s.len() > 0 && all_digits(s) && dec_val(s) <= u32::MAX {
            Some(FieldValueV::U32(dec_val(s) as u32))
        } else {
            None
        },
        TypeTag::U64 => if s.len() > 0 && all_digits(s) && dec_val(s) <= u64::MAX {
            Some(FieldValueV::U64(dec_val(s) as u64))
        } else {
            None
        },
        TypeTag::I64 => match spec_parse_i64(s) {
            Some(x) => Some(FieldValueV::I64(x)),
            None => None,
        },
        TypeTag::Bool => if s == "true"@ {
            Some(FieldValueV::Bool(true))
        } else if s == "false"@ {
            Some(FieldValueV::Bool(false))
        } else {
            None
        },
        TypeTag::Text => Some(FieldValueV::Text(s)),
    }
}

/// Interpret a command-line value string as a value of a field's type.
pub fn parse_value(s: &str, t: TypeTag) -> (r: Option<FieldValue>)
    ensures
        r.deep_view() == spec_parse_value(s@, t),
{
    match t {
        TypeTag::U32 => match parse_u32(s) {
            Some(x) => Some(FieldValue::U32(x)),
            None => None,
        },
        TypeTag::U64 => match parse_u64(s) {
            Some(x) => Some(FieldValue::U64(x)),
            None => None,
        },
        TypeTag::I64 => match parse_i64(s) {
            Some(x) => Some(FieldValue::I64(x)),
            None => None,
        },
        TypeTag::Bool => match parse_bool(s) {
            Some(b) => Some(FieldValue::Bool(b)),
            None => None,
        },
        TypeTag::Text => Some(FieldValue::Text(s.to_owned())),
    }
}

} // verus!
