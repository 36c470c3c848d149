//! A primality test offered as a trait on `i32`, counting divisors up to and
//! including the number itself and giving up once three are found. The count
//! includes the number, so the test calls a number prime when at most two
//! values in `2..=n` divide it; 1 is rejected outright and 2 accepted outright.

use vstd::prelude::*;

verus! {

/// How many integers in `2..=k` divide `n`.
pub open spec fn divisores_hasta(n: int, k: int) -> int
    decreases k,
{
    if k < 2 {
        0
    } else {
        divisores_hasta(n, k - 1) + if n % k == 0 {
            1int
        } else {
            0int
        }
    }
}

/// The answer the divisor count gives: false for 1, true for 2, and otherwise
/// true exactly when at most two values in `2..=n` divide `n`. Everything
/// below 2 comes out true because the count is empty.
pub open spec fn primo_por_divisores(n: int) -> bool {
    if n == 1 {
        false
    } else if n == 2 {
        true
    } else {
        divisores_hasta(n, n) <= 2
    }
}

/// The divisor count never shrinks as the bound grows.
proof fn lema_divisores_monotona(n: int, k1: int, k2: int)
    requires
        k1 <= k2,
    ensures
        divisores_hasta(n, k1) <= divisores_hasta(n, k2),
    decreases k2,
{
    if k1 < k2 && k2 >= 2 {
        lema_divisores_monotona(n, k1, k2 - 1);
    }
}

pub trait Primo {
    fn es_primo(&self) -> bool;
}

impl Primo for i32 {
    /// Counts divisors from 2 upward and stops as soon as three are seen.
    fn es_primo(&self) -> (r: bool)
        ensures
            r == primo_por_divisores(*self as int),
    {
        let mut n: i32 = 0;
        if *self == 1 {
            return false;
        }
        if *self == 2 {
            return true;
        }
        let mut i: i64 = 2;
        while i <= *self as i64
            invariant
                2 <= i,
                i <= (if *self as int >= 2 {
                    *self as int + 1
                } else {
                    2int
                }),
                n as int == divisores_hasta(*self as int, i - 1),
                n <= 2,
            decreases *self as int + 1 - i,
        {
            if (*self as i64) % i == 0 {
                n = n + 1;
            }
            proof {
                assert(divisores_hasta(*self as int, i as int) == divisores_hasta(
                    *self as int,
                    i - 1,
                ) + if (*self as int) % (i as int) == 0 {
                    1int
                } else {
                    0int
                });
            }
            if n > 2 {
                proof {
                    lema_divisores_monotona(*self as int, i as int, *self as int);
                }
                return false;
            }
            i = i + 1;
        }
        true
    }
}

} // verus!
