use vstd::prelude::*;
use vstd::string::*;

use crate::input::{Discriminant, Variant};
use crate::repr::DeriveError;

verus! {

/// A non-empty run of decimal digits.
pub open spec fn is_decimal(s: Seq<char>) -> bool {
    s.len() > 0 && forall|i: int| 0 <= i < s.len() ==> '0' <= #[trigger] s[i] <= '9'
}

/// The number that a run of decimal digits writes.
pub open spec fn decimal_value(s: Seq<char>) -> int
    decreases s.len(),
{
    if s.len() == 0 {
        0
    } else {
        decimal_value(s.drop_last()) * 10 + (s.last() as int - '0' as int)
    }
}

proof fn lemma_decimal_prefix_le(s: Seq<char>, k: int)
    requires
        0 <= k <= s.len(),
        forall|i: int| 0 <= i < s.len() ==> '0' <= #[trigger] s[i] <= '9',
    ensures
        decimal_value(s.take(k)) <= decimal_value(s),
        decimal_value(s) >= 0,
    decreases s.len(),
{
    if s.len() > 0 {
        let t = s.drop_last();
        assert(forall|i: int| 0 <= i < t.len() ==> t[i] == s[i]);
        if k == s.len() {
            assert(s.take(k) =~= s);
            lemma_decimal_prefix_le(t, 0);
        } else {
            assert(s.take(k) =~= t.take(k));
            lemma_decimal_prefix_le(t, k);
        }
    } else {
        assert(s.take(k) =~= s);
    }
}

/// Parses a run of decimal digits as a `u64`; `None` where `s` is empty, holds
/// anything but a digit, or writes a number above `u64::MAX`.
pub fn parse_u64(s: &String) -> (r: Option<u64>)
    ensures
        r == (if is_decimal(s@) && decimal_value(s@) <= u64::MAX {
            Some(decimal_value(s@) as u64)
        } else {
            None
        }),
{
    let a = s.as_str();
    let n = a.unicode_len();
    if n == 0 {
        return None;
    }
    let mut acc: u64 = 0;
    let mut i: usize = 0;
    while i < n
        invariant
            n == a@.len(),
            a@ == s@,
            i <= n,
            forall|j: int| 0 <= j < i ==> '0' <= #[trigger] a@[j] <= '9',
            acc as int == decimal_value(a@.take(i as int)),
        decreases n - i,
    {
        let c = a.get_char(i);
        if c < '0' || c > '9' {
            return None;
        }
        let d = (c as u32 - '0' as u32) as u64;
        assert(a@.take(i + 1).drop_last() =~= a@.take(i as int));
        if acc > (u64::MAX - d) / 10 {
            proof {
                assert(acc * 10 + d > u64::MAX) by (nonlinear_arith)
                    requires
                        acc > (u64::MAX - d) / 10,
                        d <= 9,
                ;
                if is_decimal(s@) {
                    lemma_decimal_prefix_le(a@, i + 1);
                }
            }
            return None;
        }
        assert(acc * 10 + d <= u64::MAX) by (nonlinear_arith)
            requires
                acc <= (u64::MAX - d) / 10,
                d <= 9,
        ;
        acc = acc * 10 + d;
        i = i + 1;
    }
    assert(a@.take(n as int) =~= a@);
    Some(acc)
}

/// The discriminant of the variant at position `i`: its explicit literal, else
/// one more than the previous variant's, else zero for the first variant.
pub open spec fn discr_value(vs: Seq<Variant>, i: int) -> int
    decreases i,
{
    match vs[i].discriminant {
        Some(Discriminant::Int(s)) => decimal_value(s@),
        _ => if i <= 0 {
            0
        } else {
            discr_value(vs, i - 1) + 1
        },
    }
}

/// What is wrong with the variant at position `i`, given that every earlier one
/// is sound.
pub open spec fn variant_error(vs: Seq<Variant>, i: int) -> Option<DeriveError> {
    match vs[i].discriminant {
        Some(Discriminant::Other) => Some(DeriveError::NonIntegerDiscriminant(i as usize)),
        Some(Discriminant::Int(s)) => if is_decimal(s@) && decimal_value(s@) <= u64::MAX {
            None
        } else {
            Some(DeriveError::UnparsableDiscriminant(i as usize))
        },
        None => if discr_value(vs, i) <= u64::MAX {
            None
        } else {
            Some(DeriveError::DiscriminantOverflow(i as usize))
        },
    }
}

/// The error of the first unsound variant among the first `n`.
pub open spec fn first_error(vs: Seq<Variant>, n: int) -> Option<DeriveError>
    decreases n,
{
    if n <= 0 {
        None
    } else {
        match first_error(vs, n - 1) {
            Some(e) => Some(e),
            None => variant_error(vs, n - 1),
        }
    }
}

proof fn lemma_first_error_stays(vs: Seq<Variant>, k: int, n: int)
    requires
        0 <= k <= n,
        first_error(vs, k) is Some,
    ensures
        first_error(vs, n) == first_error(vs, k),
    decreases n - k,
{
    if n > k {
        lemma_first_error_stays(vs, k, n - 1);
    }
}

/// The discriminant of every variant, in order: an explicit integer literal
/// sets it, and a variant without one takes the previous value plus one (zero
/// for the first). Fails on the first variant whose discriminant is not an
/// integer literal, does not parse as a `u64`, or would exceed `u64::MAX`.
pub fn assign_discriminants(vs: &Vec<Variant>) -> (r: Result<Vec<u64>, DeriveError>)
    ensures
        match r {
            Ok(ds) => first_error(vs@, vs@.len() as int) is None && ds@.len() == vs@.len()
                && forall|i: int| 0 <= i < vs@.len() ==> ds@[i] as int == #[trigger] discr_value(vs@, i),
            Err(e) => first_error(vs@, vs@.len() as int) == Some(e),
        },
{
    let mut ds: Vec<u64> = Vec::new();
    let mut prev: Option<u64> = None;
    let mut i: usize = 0;
    while i < vs.len()
        invariant
            i <= vs@.len(),
            ds@.len() == i,
            first_error(vs@, i as int) is None,
            forall|j: int| 0 <= j < i ==> ds@[j] as int == #[trigger] discr_value(vs@, j),
            prev == (if i == 0 { None::<u64> } else { Some(ds@[i - 1]) }),
        decreases vs@.len() - i,
    {
        let ghost n = vs@.len() as int;
        let d: u64 = match &vs[i].discriminant {
            Some(Discriminant::Int(s)) => match parse_u64(s) {
                Some(d) => {
                    proof {
                        lemma_decimal_prefix_le(s@, 0);
                    }
                    d
                },
                None => {
                    proof {
                        lemma_first_error_stays(vs@, i + 1, n);
                    }
                    return Err(DeriveError::UnparsableDiscriminant(i));
                },
            },
            Some(Discriminant::Other) => {
                proof {
                    lemma_first_error_stays(vs@, i + 1, n);
                }
                return Err(DeriveError::NonIntegerDiscriminant(i));
            },
            None => match prev {
                None => 0,
                Some(p) => {
                    assert(p as int == discr_value(vs@, i - 1));
                    if p == u64::MAX {
                        proof {
                            lemma_first_error_stays(vs@, i + 1, n);
                        }
                        return Err(DeriveError::DiscriminantOverflow(i));
                    }
                    p + 1
                },
            },
        };
        assert(d as int == discr_value(vs@, i as int));
        assert(first_error(vs@, i + 1) is None);
        ds.push(d);
        prev = Some(d);
        i = i + 1;
    }
    Ok(ds)
}

} // verus!
