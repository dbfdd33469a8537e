//! Verified decimal integer parsing: an optional sign followed by one or
//! more digits, rejecting anything else and any value out of range.
use vstd::prelude::*;
use vstd::string::*;

verus! {

pub open spec fn is_digit_char(c: char) -> bool {
    '0' <= c && c <= '9'
}

pub open spec fn digit_val(c: char) -> nat {
    (c as nat - '0' as nat) as nat
}

pub open spec fn all_digits(s: Seq<char>) -> bool {
    forall|i: int| 0 <= i < s.len() ==> is_digit_char(s[i])
}

/// Numeric value of a digit string, most significant digit first.
pub open spec fn digits_val(s: Seq<char>) -> nat
    decreases s.len(),
{
    if s.len() == 0 {
        0
    } else {
        digits_val(s.drop_last()) * 10 + digit_val(s.last())
    }
}

/// `s` without one leading '+', the form unsigned parsing accepts.
pub open spec fn unsigned_body(s: Seq<char>) -> Seq<char> {
    if s.len() > 0 && s[0] == '+' {
        s.subrange(1, s.len() as int)
    } else {
        s
    }
}

/// The value an unsigned decimal string denotes, when it is well formed
/// and fits in 64 bits.
pub open spec fn spec_parse_u64(s: Seq<char>) -> Option<u64> {
    let b = unsigned_body(s);
    if b.len() > 0 && all_digits(b) && digits_val(b) <= u64::MAX {
        Some(digits_val(b) as u64)
    } else {
        None
    }
}

/// A digit string's value never shrinks as the string grows to the right.
pub proof fn lemma_digits_val_prefix(s: Seq<char>, k: int)
    requires
        0 <= k <= s.len(),
    ensures
        digits_val(s.subrange(0, k)) <= digits_val(s),
    decreases s.len() - k,
{
    if k == s.len() {
        assert(s.subrange(0, k) =~= s);
    } else {
        let t = s.subrange(0, s.len() - 1);
        assert(t =~= s.drop_last());
        lemma_digits_val_prefix(t, k);
        assert(t.subrange(0, k) =~= s.subrange(0, k));
        assert(digits_val(s.drop_last()) * 10 >= digits_val(s.drop_last())) by {
            assert(digits_val(s.drop_last()) >= 0);
        }
    }
}

/// Unsigned decimal parsing, proved against `spec_parse_u64`.
pub fn parse_u64(s: &str) -> (r: Option<u64>)
    ensures
        r == spec_parse_u64(s@),
{
    let len = s.unicode_len();
    let mut i: usize = 0;
    if len > 0 && s.get_char(0) == '+' {
        i = 1;
    }
    let ghost b = unsigned_body(s@);
    proof {
        assert(b =~= s@.subrange(i as int, len as int));
    }
    if i >= len {
        return None;
    }
    let mut acc: u64 = 0;
    let mut j: usize = i;
    while j < len
        invariant
            i <= j <= len,
            len == s@.len(),
            b == s@.subrange(i as int, len as int),
            b == unsigned_body(s@),
            all_digits(b.subrange(0, j - i)),
            acc == digits_val(b.subrange(0, j - i)),
        decreases len - j,
    {
        let c = s.get_char(j);
        let cv = c as u32;
        if cv < 48 || cv > 57 {
            proof {
                assert(b[j - i] == s@[j as int]);
                assert(!is_digit_char(b[j - i]));
            }
            return None;
        }
        let d: u64 = (cv - 48) as u64;
        let ghost pre = b.subrange(0, j - i);
        let ghost pre1 = b.subrange(0, j + 1 - i);
        proof {
            assert(pre1.drop_last() =~= pre);
            assert(pre1.last() == b[j - i]);
            assert(b[j - i] == s@[j as int]);
            assert(is_digit_char(b[j - i]));
            assert(d == digit_val(b[j - i]));
            assert(digits_val(pre1) == digits_val(pre) * 10 + d);
        }
        let step = match acc.checked_mul(10) {
            Some(m) => m.checked_add(d),
            None => None,
        };
        match step {
            Some(v) => {
                acc = v;
            },
            None => {
                proof {
                    assert(digits_val(pre1) > u64::MAX);
                    lemma_digits_val_prefix(b, j + 1 - i);
                }
                return None;
            },
        }
        j = j + 1;
    }
    proof {
        assert(b.subrange(0, len - i) =~= b);
    }
    Some(acc)
}

/// The value an unsigned decimal string denotes, when it fits in 32 bits.
pub open spec fn spec_parse_u32(s: Seq<char>) -> Option<u32> {
    let b = unsigned_body(s);
    if b.len() > 0 && all_digits(b) && digits_val(b) <= u32::MAX {
        Some(digits_val(b) as u32)
    } else {
        None
    }
}

/// Unsigned 32-bit decimal parsing, proved against `spec_parse_u32`.
pub fn parse_u32(s: &str) -> (r: Option<u32>)
    ensures
        r == spec_parse_u32(s@),
{
    match parse_u64(s) {
        None => None,
        Some(v) => {
            if v <= 0xffff_ffff {
                Some(v as u32)
            } else {
                None
            }
        },
    }
}

/// The value an unsigned decimal string denotes, when it fits in `usize`.
pub open spec fn spec_parse_usize(s: Seq<char>) -> Option<usize> {
    let b = unsigned_body(s);
    if b.len() > 0 && all_digits(b) && digits_val(b) <= usize::MAX {
        Some(digits_val(b) as usize)
    } else {
        None
    }
}

/// Unsigned word-sized decimal parsing, proved against `spec_parse_usize`.
pub fn parse_usize(s: &str) -> (r: Option<usize>)
    ensures
        r == spec_parse_usize(s@),
{
    let len = s.unicode_len();
    let mut i: usize = 0;
    if len > 0 && s.get_char(0) == '+' {
        i = 1;
    }
    let ghost b = unsigned_body(s@);
    proof {
        assert(b =~= s@.subrange(i as int, len as int));
    }
    if i >= len {
        return None;
    }
    let mut acc: usize = 0;
    let mut j: usize = i;
    while j < len
        invariant
            i <= j <= len,
            len == s@.len(),
            b == s@.subrange(i as int, len as int),
            b == unsigned_body(s@),
            all_digits(b.subrange(0, j - i)),
            acc == digits_val(b.subrange(0, j - i)),
        decreases len - j,
    {
        let c = s.get_char(j);
        let cv = c as u32;
        if cv < 48 || cv > 57 {
            proof {
                assert(b[j - i] == s@[j as int]);
                assert(!is_digit_char(b[j - i]));
            }
            return None;
        }
        let d: usize = (cv - 48) as usize;
        let ghost pre = b.subrange(0, j - i);
        let ghost pre1 = b.subrange(0, j + 1 - i);
        proof {
            assert(pre1.drop_last() =~= pre);
            assert(pre1.last() == b[j - i]);
            assert(b[j - i] == s@[j as int]);
            assert(is_digit_char(b[j - i]));
            assert(d == digit_val(b[j - i]));
            assert(digits_val(pre1) == digits_val(pre) * 10 + d);
        }
        let step = match acc.checked_mul(10) {
            Some(m) => m.checked_add(d),
            None => None,
        };
        match step {
            Some(v) => {
                acc = v;
            },
            None => {
                proof {
                    assert(digits_val(pre1) > usize::MAX);
                    lemma_digits_val_prefix(b, j + 1 - i);
                }
                return None;
            },
        }
        j = j + 1;
    }
    proof {
        assert(b.subrange(0, len - i) =~= b);
    }
    Some(acc)
}

/// The signed value a decimal string denotes: an optional '+' or '-' and
/// a digit magnitude in the 64-bit signed range.
pub open spec fn spec_parse_i64(s: Seq<char>) -> Option<i64> {
    if s.len() > 0 && s[0] == '-' {
        let b = s.subrange(1, s.len() as int);
        if b.len() > 0 && all_digits(b) && digits_val(b) <= 0x8000_0000_0000_0000 {
            Some((-(digits_val(b) as int)) as i64)
        } else {
            None
        }
    } else {
        let b = unsigned_body(s);
        if b.len() > 0 && all_digits(b) && digits_val(b) <= i64::MAX {
            Some(digits_val(b) as i64)
        } else {
            None
        }
    }
}

/// Signed decimal parsing, proved against `spec_parse_i64`.
pub fn parse_i64(s: &str) -> (r: Option<i64>)
    ensures
        r == spec_parse_i64(s@),
{
    let len = s.unicode_len();
    if len > 0 && s.get_char(0) == '-' {
        let mag = s.substring_char(1, len);
        if mag.unicode_len() > 0 && mag.get_char(0) == '+' {
            return None;
        }
        proof {
            assert(mag@ =~= unsigned_body(mag@));
        }
        match parse_u64(mag) {
            None => {
                proof {
                    if all_digits(mag@) && mag@.len() > 0 {
                        assert(digits_val(mag@) > u64::MAX);
                    }
                }
                None
            },
            Some(v) => {
                if v == 0x8000_0000_0000_0000 {
                    Some(i64::MIN)
                } else if v <= 0x7fff_ffff_ffff_ffff {
                    Some(-(v as i64))
                } else {
                    None
                }
            },
        }
    } else {
        match parse_u64(s) {
            None => {
                proof {
                    let b = unsigned_body(s@);
                    if all_digits(b) && b.len() > 0 {
                        assert(digits_val(b) > u64::MAX);
                    }
                }
                None
            },
            Some(v) => {
                if v <= 0x7fff_ffff_ffff_ffff {
                    Some(v as i64)
                } else {
                    None
                }
            },
        }
    }
}

} // verus!
