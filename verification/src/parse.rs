//! Decimal parsing of option and command arguments, verified against the
//! sequence-level definition of decimal value below.
//!
//! Accepted shapes match the standard integer parsers: an optional sign
//! (`+` for unsigned types, `+` or `-` for signed ones) followed by at
//! least one digit, rejecting any value outside the target type's range.

use vstd::prelude::*;
use vstd::string::StrSliceExecFns;

verus! {

/// The character is a decimal digit.
pub open spec fn is_digit(c: char) -> bool {
    '0' <= c && c <= '9'
}

/// The digit's numeric value.
pub open spec fn digit_val(c: char) -> nat {
    (c as nat - '0' as nat) as nat
}

/// Every character of `s` is a decimal digit.
pub open spec fn all_digits(s: Seq<char>) -> bool {
    forall|i: int| 0 <= i < s.len() ==> is_digit(#[trigger] s[i])
}

/// The decimal value of a digit string.
pub open spec fn dec_val(s: Seq<char>) -> nat
    decreases s.len(),
{
    if s.len() == 0 {
        0
    } else {
        dec_val(s.drop_last()) * 10 + digit_val(s.last())
    }
}

/// The digits of `s`, with one leading `+` removed; parsing accepts `s`
/// exactly when this part is a nonempty all-digit string whose value fits.
pub open spec fn unsigned_body(s: Seq<char>) -> Seq<char> {
    if s.len() > 0 && s[0] == '+' {
        s.drop_first()
    } else {
        s
    }
}

/// `s` is a well-formed unsigned decimal: an optional `+`, then digits.
pub open spec fn valid_unsigned(s: Seq<char>) -> bool {
    unsigned_body(s).len() > 0 && all_digits(unsigned_body(s))
}

/// The sign of a signed decimal string: `-1` when it starts with `-`.
pub open spec fn signed_negative(s: Seq<char>) -> bool {
    s.len() > 0 && s[0] == '-'
}

/// The digits of a signed decimal string, with one leading sign removed.
pub open spec fn signed_body(s: Seq<char>) -> Seq<char> {
    if s.len() > 0 && (s[0] == '+' || s[0] == '-') {
        s.drop_first()
    } else {
        s
    }
}

/// `s` is a well-formed signed decimal: an optional sign, then digits.
pub open spec fn valid_signed(s: Seq<char>) -> bool {
    signed_body(s).len() > 0 && all_digits(signed_body(s))
}

/// The value a signed decimal string denotes.
pub open spec fn signed_val(s: Seq<char>) -> int {
    if signed_negative(s) {
        -(dec_val(signed_body(s)) as int)
    } else {
        dec_val(signed_body(s)) as int
    }
}

/// Parses a digit run (no sign) into an accumulator, left to right.
fn parse_digits(s: &str, from: usize) -> (r: Option<u64>)
    requires
        from <= s@.len(),
    ensures
        r is Some <==> s@.len() > from && all_digits(s@.skip(from as int)) && dec_val(
            s@.skip(from as int),
        ) <= u64::MAX,
        r matches Some(v) ==> v == dec_val(s@.skip(from as int)),
{
    let len = s.unicode_len();
    if from == len {
        return None;
    }
    let mut acc: u64 = 0;
    let mut i: usize = from;
    while i < len
        invariant
            from <= i <= len,
            len == s@.len(),
            from < len,
            all_digits(s@.subrange(from as int, i as int)),
            acc == dec_val(s@.subrange(from as int, i as int)),
        decreases len - i,
    {
        let c = s.get_char(i);
        if !('0' <= c && c <= '9') {
            proof {
                assert(s@.skip(from as int)[i - from] == s@[i as int]);
                assert(!all_digits(s@.skip(from as int)));
            }
            return None;
        }
        let d: u64 = (c as u32 as u64) - 48;
        let acc10 = match acc.checked_mul(10) {
            Some(x) => x,
            None => {
                proof {
                    lemma_dec_val_prefix_bound(s@.skip(from as int), i - from + 1);
                    assert(s@.subrange(from as int, i as int) =~= s@.skip(from as int).take(
                        i - from,
                    ));
                    assert(s@.skip(from as int).take(i - from + 1).drop_last() =~= s@.skip(
                        from as int,
                    ).take(i - from));
                    assert(s@.skip(from as int).take(i - from + 1).last() == s@[i as int]);
                }
                return None;
            },
        };
        let next = match acc10.checked_add(d) {
            Some(x) => x,
            None => {
                proof {
                    lemma_dec_val_prefix_bound(s@.skip(from as int), i - from + 1);
                    assert(s@.subrange(from as int, i as int) =~= s@.skip(from as int).take(
                        i - from,
                    ));
                    assert(s@.skip(from as int).take(i - from + 1).drop_last() =~= s@.skip(
                        from as int,
                    ).take(i - from));
                    assert(s@.skip(from as int).take(i - from + 1).last() == s@[i as int]);
                }
                return None;
            },
        };
        acc = next;
        i += 1;
        proof {
            assert(s@.subrange(from as int, i as int).drop_last() =~= s@.subrange(
                from as int,
                i - 1,
            ));
            assert(s@.subrange(from as int, i as int).last() == s@[i - 1]);
        }
    }
    proof {
        assert(s@.subrange(from as int, i as int) =~= s@.skip(from as int));
    }
    Some(acc)
}

/// A prefix of a digit string whose value overflows makes the whole
/// string's value overflow too: appending digits never shrinks the value.
proof fn lemma_dec_val_prefix_bound(s: Seq<char>, k: int)
    requires
        0 <= k <= s.len(),
    ensures
        dec_val(s.take(k)) <= dec_val(s),
    decreases s.len() - k,
{
    if k < s.len() {
        lemma_dec_val_prefix_bound(s, k + 1);
        assert(s.take(k + 1).drop_last() =~= s.take(k));
        assert(dec_val(s.take(k + 1)) == dec_val(s.take(k)) * 10 + digit_val(s.take(k + 1).last()));
    } else {
        assert(s.take(k) =~= s);
    }
}

/// Parses an unsigned 64-bit decimal, as `u64`'s standard parser accepts
/// it: an optional `+`, then digits, within range.
pub fn parse_u64(s: &str) -> (r: Option<u64>)
    ensures
        r is Some <==> valid_unsigned(s@) && dec_val(unsigned_body(s@)) <= u64::MAX,
        r matches Some(v) ==> v == dec_val(unsigned_body(s@)),
{
    let len = s.unicode_len();
    if len > 0 && s.get_char(0) == '+' {
        let r = parse_digits(s, 1);
        proof {
            assert(unsigned_body(s@) =~= s@.skip(1));
        }
        r
    } else {
        let r = parse_digits(s, 0);
        proof {
            assert(s@.skip(0) =~= s@);
        }
        r
    }
}

/// Parses a `usize` decimal in the same shape, within `usize`'s range.
pub fn parse_usize(s: &str) -> (r: Option<usize>)
    ensures
        r is Some <==> valid_unsigned(s@) && dec_val(unsigned_body(s@)) <= usize::MAX,
        r matches Some(v) ==> v == dec_val(unsigned_body(s@)),
{
    match parse_u64(s) {
        Some(v) => {
            if v <= usize::MAX as u64 {
                Some(v as usize)
            } else {
                None
            }
        },
        None => {
            proof {
                if valid_unsigned(s@) && dec_val(unsigned_body(s@)) <= usize::MAX {
                    assert(dec_val(unsigned_body(s@)) <= u64::MAX);
                }
            }
            None
        },
    }
}

/// Parses a signed 64-bit decimal, as `i64`'s standard parser accepts it:
/// an optional sign, then digits, within range.
pub fn parse_i64(s: &str) -> (r: Option<i64>)
    ensures
        r is Some <==> valid_signed(s@) && i64::MIN <= signed_val(s@) <= i64::MAX,
        r matches Some(v) ==> v == signed_val(s@),
{
    let len = s.unicode_len();
    if len > 0 && s.get_char(0) == '-' {
        let mag = parse_digits(s, 1);
        proof {
            assert(signed_body(s@) =~= s@.skip(1));
        }
        match mag {
            Some(m) => {
                if m <= 9223372036854775807u64 {
                    Some(-(m as i64))
                } else if m == 9223372036854775808u64 {
                    Some(i64::MIN)
                } else {
                    None
                }
            },
            None => {
                proof {
                    if valid_signed(s@) && i64::MIN <= signed_val(s@) {
                        assert(dec_val(signed_body(s@)) <= u64::MAX);
                    }
                }
                None
            },
        }
    } else if len > 0 && s.get_char(0) == '+' {
        let mag = parse_digits(s, 1);
        proof {
            assert(signed_body(s@) =~= s@.skip(1));
        }
        match mag {
            Some(m) => {
                if m <= 9223372036854775807u64 {
                    Some(m as i64)
                } else {
                    None
                }
            },
            None => None,
        }
    } else {
        let mag = parse_digits(s, 0);
        proof {
            assert(s@.skip(0) =~= s@);
        }
        match mag {
            Some(m) => {
                if m <= 9223372036854775807u64 {
                    Some(m as i64)
                } else {
                    None
                }
            },
            None => None,
        }
    }
}

/// Parses a signed 16-bit decimal in the same shape, within `i16`'s range.
pub fn parse_i16(s: &str) -> (r: Option<i16>)
    ensures
        r is Some <==> valid_signed(s@) && i16::MIN <= signed_val(s@) <= i16::MAX,
        r matches Some(v) ==> v == signed_val(s@),
{
    match parse_i64(s) {
        Some(v) => {
            if -32768 <= v && v <= 32767 {
                Some(v as i16)
            } else {
                None
            }
        },
        None => {
            proof {
                if valid_signed(s@) && i16::MIN <= signed_val(s@) <= i16::MAX {
                    assert(i64::MIN <= signed_val(s@) <= i64::MAX);
                }
            }
            None
        },
    }
}

/// Are the two strings the same text?
pub fn str_eq(a: &str, b: &str) -> (r: bool)
    ensures
        r == (a@ == b@),
{
    let a_len = a.unicode_len();
    let b_len = b.unicode_len();
    if a_len != b_len {
        return false;
    }
    if crate::strutil::match_at(a, b, 0) {
        proof {
            assert(a@.subrange(0, b@.len() as int) =~= a@);
        }
        true
    } else {
        proof {
            if a@ == b@ {
                assert(a@.subrange(0, b@.len() as int) =~= b@);
            }
        }
        false
    }
}

/// Parses a boolean, as `bool`'s standard parser accepts it: exactly
/// `true` or `false`.
pub fn parse_bool(s: &str) -> (r: Option<bool>)
    ensures
        r == if s@ == "true"@ {
            Some(true)
        } else if s@ == "false"@ {
            Some(false)
        } else {
            Option::<bool>::None
        },
{
    if str_eq(s, "true") {
        Some(true)
    } else if str_eq(s, "false") {
        Some(false)
    } else {
        None
    }
}

} // verus!
