//! Parsing of signed decimal integers from text.
//!
//! Application tokens report their expiry as a decimal string of epoch
//! seconds.  The parser accepts exactly an optional `+` or `-` sign followed
//! by one or more ASCII digits, with the value in range for `i64` — the
//! grammar of the standard library's integer parsing — and rejects
//! everything else.

use vstd::prelude::*;

verus! {

/// `c` is an ASCII decimal digit.
pub open spec fn is_dec_digit(c: char) -> bool {
    48 <= c as int && c as int <= 57
}

/// Every character of `s` is an ASCII decimal digit.
pub open spec fn all_dec_digits(s: Seq<char>) -> bool {
    forall|i: int| 0 <= i < s.len() ==> is_dec_digit(#[trigger] s[i])
}

/// The value of a sequence of decimal digits, most significant first.
pub open spec fn dec_value(s: Seq<char>) -> int
    decreases s.len(),
{
    if s.len() == 0 {
        0
    } else {
        10 * dec_value(s.drop_last()) + (s.last() as int - 48)
    }
}

/// Length of the optional leading sign of `s`: one if `s` starts with `+`
/// or `-`, zero otherwise.
pub open spec fn sign_len(s: Seq<char>) -> int {
    if s.len() > 0 && (s[0] == '+' || s[0] == '-') {
        1
    } else {
        0
    }
}

/// The digit portion of `s`: everything after the optional sign.
pub open spec fn spec_digits(s: Seq<char>) -> Seq<char> {
    s.subrange(sign_len(s), s.len() as int)
}

/// The signed value denoted by `s`, assuming its digit portion is well
/// formed.
pub open spec fn signed_value(s: Seq<char>) -> int {
    if s.len() > 0 && s[0] == '-' {
        -dec_value(spec_digits(s))
    } else {
        dec_value(spec_digits(s))
    }
}

/// `s` denotes an `i64`: an optional sign, then at least one digit, with
/// the signed value in range.
pub open spec fn parses_as_i64(s: Seq<char>) -> bool {
    &&& spec_digits(s).len() > 0
    &&& all_dec_digits(spec_digits(s))
    &&& i64::MIN <= signed_value(s) <= i64::MAX
}

proof fn lemma_dec_value_nonneg(s: Seq<char>)
    requires
        all_dec_digits(s),
    ensures
        dec_value(s) >= 0,
    decreases s.len(),
{
    if s.len() > 0 {
        assert(all_dec_digits(s.drop_last()));
        lemma_dec_value_nonneg(s.drop_last());
    }
}

/// The value of a digit string only grows as digits are appended.
proof fn lemma_dec_value_prefix_le(s: Seq<char>, i: int)
    requires
        all_dec_digits(s),
        0 <= i <= s.len(),
    ensures
        dec_value(s.subrange(0, i)) <= dec_value(s),
    decreases s.len() - i,
{
    if i == s.len() {
        assert(s.subrange(0, i) =~= s);
    } else {
        let dl = s.drop_last();
        assert(all_dec_digits(dl));
        assert(s.subrange(0, i) =~= dl.subrange(0, i));
        lemma_dec_value_prefix_le(dl, i);
        lemma_dec_value_nonneg(dl);
    }
}

/// Parses `s` as a signed decimal `i64`.  Returns the denoted value when
/// `s` is an optional sign followed by digits and the value is in range,
/// and nothing otherwise.
pub fn parse_i64(s: &str) -> (r: Option<i64>)
    ensures
        parses_as_i64(s@) ==> (r matches Some(v) && v as int == signed_value(s@)),
        !parses_as_i64(s@) ==> r is None,
{
    let n = s.unicode_len();
    let mut start: usize = 0;
    let mut negative = false;
    if n > 0 {
        let c0 = s.get_char(0);
        if c0 == '-' {
            negative = true;
            start = 1;
        } else if c0 == '+' {
            start = 1;
        }
    }
    if start >= n {
        // No digits at all.
        return None;
    }
    // Accumulate the negated value so that i64::MIN itself stays
    // representable along the way.
    let mut acc: i64 = 0;
    let mut i = start;
    while i < n
        invariant
            n == s@.len(),
            start == sign_len(s@),
            negative == (s@.len() > 0 && s@[0] == '-'),
            start <= i <= n,
            all_dec_digits(s@.subrange(start as int, i as int)),
            acc as int == -dec_value(s@.subrange(start as int, i as int)),
        decreases n - i,
    {
        let c = s.get_char(i);
        let cu = c as u32;
        if cu < 48 || cu > 57 {
            proof {
                assert(spec_digits(s@)[i - start] == s@[i as int]);
                assert(!all_dec_digits(spec_digits(s@)));
            }
            return None;
        }
        let d = (cu - 48) as i64;
        let ghost pre = s@.subrange(start as int, i as int);
        let ghost ext = s@.subrange(start as int, i as int + 1);
        proof {
            assert(ext.drop_last() =~= pre);
            assert(ext.last() == s@[i as int]);
            assert(dec_value(ext) == 10 * dec_value(pre) + (s@[i as int] as int - 48));
        }
        let m = match acc.checked_mul(10) {
            Some(m) => m,
            None => {
                proof {
                    lemma_dec_value_nonneg(pre);
                    lemma_out_of_range(s@, i as int);
                }
                return None;
            },
        };
        acc = match m.checked_sub(d) {
            Some(v) => v,
            None => {
                proof {
                    lemma_dec_value_nonneg(pre);
                    lemma_out_of_range(s@, i as int);
                }
                return None;
            },
        };
        i = i + 1;
    }
    proof {
        assert(s@.subrange(start as int, n as int) =~= spec_digits(s@));
        lemma_dec_value_nonneg(spec_digits(s@));
    }
    if negative {
        Some(acc)
    } else if acc == i64::MIN {
        // The digits denote exactly 2^63, one past i64::MAX.
        None
    } else {
        Some(-acc)
    }
}

/// When the digits read so far already exceed 2^63 in value, no suffix can
/// bring the denoted number back into the i64 range.
proof fn lemma_out_of_range(s: Seq<char>, i: int)
    requires
        sign_len(s) <= i < s.len(),
        all_dec_digits(s.subrange(sign_len(s), i)),
        is_dec_digit(s[i]),
        10 * dec_value(s.subrange(sign_len(s), i)) + (s[i] as int - 48) > i64::MAX as int + 1,
    ensures
        !parses_as_i64(s),
{
    if all_dec_digits(spec_digits(s)) {
        let ds = spec_digits(s);
        let k = i + 1 - sign_len(s);
        assert(s.subrange(sign_len(s), i + 1) =~= ds.subrange(0, k));
        assert(s.subrange(sign_len(s), i) =~= ds.subrange(0, k).drop_last());
        assert(ds.subrange(0, k).last() == s[i]);
        assert(dec_value(ds.subrange(0, k)) == 10 * dec_value(s.subrange(sign_len(s), i)) + (
        s[i] as int - 48));
        lemma_dec_value_prefix_le(ds, k);
        assert(dec_value(ds) > i64::MAX as int + 1);
    }
}

} // verus!
