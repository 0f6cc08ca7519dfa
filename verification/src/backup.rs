use vstd::prelude::*;
use crate::text::{
    decimal, digit_char, lemma_trimmed_unchanged, push_decimal_u64, signed_decimal, trim_text, trimmed,
};

verus! {

/// Whether `c` is an ASCII decimal digit.
pub open spec fn is_digit(c: char) -> bool {
    48 <= (c as u32) <= 57
}

/// Whether every character of `s` is a decimal digit.
pub open spec fn all_digits(s: Seq<char>) -> bool {
    forall|i: int| 0 <= i < s.len() ==> #[trigger] is_digit(s[i])
}

/// The number written by the decimal digits `s`.
pub open spec fn digits_value(s: Seq<char>) -> nat
    decreases s.len(),
{
    if s.len() == 0 {
        0
    } else {
        digits_value(s.drop_last()) * 10 + ((s.last() as u32) - 48) as nat
    }
}

/// Whether `d` is a non-empty run of digits worth at most `limit`.
pub open spec fn digits_within(d: Seq<char>, limit: nat) -> bool {
    d.len() > 0 && all_digits(d) && digits_value(d) <= limit
}

/// The 64-bit integer that `s` writes: an optional sign ('+' or '-')
/// followed by at least one decimal digit, the value in range; `None` for
/// anything else, white space included.
pub open spec fn parsed_i64(s: Seq<char>) -> Option<i64> {
    if s.len() > 0 && s[0] == '-' {
        let d = s.drop_first();
        if digits_within(d, 9223372036854775808) {
            Some((0 - digits_value(d)) as i64)
        } else {
            None
        }
    } else {
        let d = if s.len() > 0 && s[0] == '+' {
            s.drop_first()
        } else {
            s
        };
        if digits_within(d, 9223372036854775807) {
            Some(digits_value(d) as i64)
        } else {
            None
        }
    }
}

proof fn lemma_digits_value_grows(s: Seq<char>, k: int)
    requires
        0 <= k <= s.len(),
        all_digits(s),
    ensures
        digits_value(s.subrange(0, k)) <= digits_value(s),
    decreases s.len() - k,
{
    if k < s.len() {
        let t = s.drop_last();
        assert(t.subrange(0, k) =~= s.subrange(0, k));
        assert forall|i: int| 0 <= i < t.len() implies #[trigger] is_digit(t[i]) by {
            assert(t[i] == s[i]);
        }
        lemma_digits_value_grows(t, k);
    } else {
        assert(s.subrange(0, k) =~= s);
    }
}

/// The integer written by `s`, as `i64::from_str` reads it.
pub fn parse_i64_text(s: &str) -> (r: Option<i64>)
    ensures
        r == parsed_i64(s@),
{
    let n = s.unicode_len();
    let mut start: usize = 0;
    let mut neg = false;
    if n > 0 && s.get_char(0) == '-' {
        neg = true;
        start = 1;
    } else if n > 0 && s.get_char(0) == '+' {
        start = 1;
    }
    let ghost d = s@.subrange(start as int, n as int);
    proof {
        if start == 1 {
            assert(d =~= s@.drop_first());
        } else {
            assert(d =~= s@);
        }
    }
    if start == n {
        return None;
    }
    let limit: u64 = if neg {
        9223372036854775808
    } else {
        9223372036854775807
    };
    let mut acc: u64 = 0;
    let mut i: usize = start;
    assert(d.subrange(0, 0) =~= Seq::<char>::empty());
    assert(parsed_i64(s@) == (if digits_within(d, limit as nat) {
        Some(if neg { (0 - digits_value(d)) as i64 } else { digits_value(d) as i64 })
    } else {
        None
    }));
    while i < n
        invariant
            start <= i <= n,
            n == s@.len(),
            d == s@.subrange(start as int, n as int),
            all_digits(d.subrange(0, i - start)),
            acc as nat == digits_value(d.subrange(0, i - start)),
            acc <= limit,
            9223372036854775807 <= limit <= 9223372036854775808,
            neg == (limit == 9223372036854775808),
            parsed_i64(s@) == (if digits_within(d, limit as nat) {
                Some(if neg { (0 - digits_value(d)) as i64 } else { digits_value(d) as i64 })
            } else {
                None
            }),
        decreases n - i,
    {
        let c = s.get_char(i);
        let ghost pre = d.subrange(0, i - start);
        let ghost next = d.subrange(0, i - start + 1);
        assert(next.drop_last() =~= pre);
        assert(next.last() == c);
        if !((c as u32) >= 48 && (c as u32) <= 57) {
            assert(!is_digit(d[i - start]));
            return None;
        }
        let dv = ((c as u32) - 48) as u64;
        assert(all_digits(next)) by {
            assert forall|k: int| 0 <= k < next.len() implies #[trigger] is_digit(next[k]) by {
                if k < pre.len() {
                    assert(next[k] == pre[k]);
                }
            }
        }
        if acc > (limit - dv) / 10 {
            assert(acc * 10 + dv > limit) by (nonlinear_arith)
                requires
                    acc > (limit - dv) / 10,
                    dv <= 9,
                    dv <= limit,
            ;
            proof {
                if all_digits(d) {
                    lemma_digits_value_grows(d, i - start + 1);
                }
            }
            return None;
        }
        assert(acc * 10 + dv <= limit) by (nonlinear_arith)
            requires
                acc <= (limit - dv) / 10,
                dv <= 9,
                dv <= limit,
        ;
        acc = acc * 10 + dv;
        i = i + 1;
    }
    assert(d.subrange(0, n - start) =~= d);
    if neg {
        if acc == 9223372036854775808 {
            Some(i64::MIN)
        } else {
            Some(0 - (acc as i64))
        }
    } else {
        Some(acc as i64)
    }
}

/// The decimal notation of `n` is a non-empty run of digits worth `n`.
pub proof fn lemma_decimal_digits(n: nat)
    ensures
        decimal(n).len() > 0,
        all_digits(decimal(n)),
        digits_value(decimal(n)) == n,
    decreases n,
{
    let c = digit_char((n % 10) as int);
    assert((c as u32) == 48 + n % 10);
    if n >= 10 {
        lemma_decimal_digits(n / 10);
        let s = decimal(n);
        let p = decimal(n / 10);
        assert(s.drop_last() =~= p);
        assert forall|i: int| 0 <= i < s.len() implies #[trigger] is_digit(s[i]) by {
            if i < p.len() {
                assert(s[i] == p[i]);
            }
        }
        vstd::arithmetic::div_mod::lemma_fundamental_div_mod(n as int, 10);
        assert(s.last() == c);
        assert(digits_value(s) == digits_value(p) * 10 + n % 10);
    } else {
        let s = decimal(n);
        assert(s.drop_last() =~= Seq::<char>::empty());
        assert(s.last() == c);
        assert(n % 10 == n);
        assert(digits_value(s.drop_last()) == 0);
    }
}

/// The text the last backup time is stored as: its decimal notation.
pub fn backup_ms_text(ms: i64) -> (r: String)
    ensures
        r@ == signed_decimal(ms as int),
{
    let mut s = String::new();
    if ms < 0 {
        s.append("-");
        let m: u64 = (0i128 - (ms as i128)) as u64;
        push_decimal_u64(&mut s, m);
    } else {
        push_decimal_u64(&mut s, ms as u64);
    }
    assert(s@ =~= signed_decimal(ms as int));
    s
}

/// The last backup time read back from its stored text, if any: the text
/// trimmed of white space, read as an integer.
pub fn backup_ms_from_text(text: Option<&str>) -> (r: Option<i64>)
    ensures
        r == (match text {
            Some(t) => parsed_i64(trimmed(t@)),
            None => None,
        }),
{
    match text {
        Some(t) => {
            let trimmed_text = trim_text(t);
            parse_i64_text(trimmed_text.as_str())
        },
        None => None,
    }
}

/// A stored backup time reads back as itself.
pub proof fn lemma_backup_ms_round_trip(ms: i64)
    ensures
        parsed_i64(trimmed(signed_decimal(ms as int))) == Some(ms),
{
    let s = signed_decimal(ms as int);
    reveal_strlit("-");
    if ms < 0 {
        let m = (-ms) as nat;
        lemma_decimal_digits(m);
        assert(s.drop_first() =~= decimal(m));
        assert(is_digit(s.last()));
    } else {
        lemma_decimal_digits(ms as nat);
        assert(is_digit(s[0]));
        assert(is_digit(s.last()));
    }
    lemma_trimmed_unchanged(s);
}

} // verus!
