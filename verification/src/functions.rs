//! Small drills over integers, fixed arrays and strings, each with an exact
//! contract over a recursive prefix spec.

use vstd::prelude::*;

verus! {

/// Is `n` even?
pub open spec fn es_par_entero(n: int) -> bool {
    n % 2 == 0
}

/// The divisor test that `es_primo` runs: no divisor of `n` in `2..n`. Every
/// integer below 3 passes vacuously, exactly as the executable loop does.
pub open spec fn sin_divisores(n: int) -> bool {
    forall|d: int| 2 <= d < n ==> #[trigger] (n % d) != 0
}

/// The sum of the even values among the first `i` entries of `s`.
pub open spec fn suma_pares_hasta(s: Seq<i32>, i: int) -> int
    decreases i,
{
    if i <= 0 {
        0
    } else {
        suma_pares_hasta(s, i - 1) + if es_par_entero(s[i - 1] as int) {
            s[i - 1] as int
        } else {
            0
        }
    }
}

/// How many of the first `i` entries of `s` are odd.
pub open spec fn impares_hasta(s: Seq<i32>, i: int) -> int
    decreases i,
{
    if i <= 0 {
        0
    } else {
        impares_hasta(s, i - 1) + if !es_par_entero(s[i - 1] as int) {
            1int
        } else {
            0int
        }
    }
}

/// How many of the first `i` entries of `s` lie strictly above `limite`.
pub open spec fn mayores_hasta(s: Seq<i32>, limite: int, i: int) -> int
    decreases i,
{
    if i <= 0 {
        0
    } else {
        mayores_hasta(s, limite, i - 1) + if s[i - 1] > limite {
            1int
        } else {
            0int
        }
    }
}

/// How many of the first `i` entries of `s` lie in the closed range
/// `inf..=sup`.
pub open spec fn en_rango_hasta(s: Seq<i32>, inf: int, sup: int, i: int) -> int
    decreases i,
{
    if i <= 0 {
        0
    } else {
        en_rango_hasta(s, inf, sup, i - 1) + if inf <= s[i - 1] <= sup {
            1int
        } else {
            0int
        }
    }
}

pub fn es_par(n: i32) -> (r: bool)
    ensures
        r == es_par_entero(n as int),
{
    n % 2 == 0
}

/// The divisor walk from 2 up to `n` exclusive; any `n` below 3 comes out
/// "prime", negative values included, because the walk is empty.
pub fn es_primo(n: i32) -> (r: bool)
    ensures
        r == sin_divisores(n as int),
{
    let mut d: i32 = 2;
    while d < n
        invariant
            2 <= d,
            forall|k: int| 2 <= k < d ==> #[trigger] (n as int % k) != 0,
        decreases n - d,
    {
        if n % d == 0 {
            return false;
        }
        d = d + 1;
    }
    true
}

/// The running sums over every prefix must fit in `i32`; that is all the
/// machine forces, and every in-range input is accepted.
pub fn suma_pares(arr: [i32; 5]) -> (r: i32)
    requires
        forall|i: int| 0 <= i <= 5 ==> i32::MIN <= #[trigger] suma_pares_hasta(arr@, i) <= i32::MAX,
    ensures
        r as int == suma_pares_hasta(arr@, 5),
{
    let mut sum: i32 = 0;
    let mut i: usize = 0;
    while i < 5
        invariant
            i <= 5,
            sum as int == suma_pares_hasta(arr@, i as int),
            forall|j: int| 0 <= j <= 5 ==> i32::MIN <= #[trigger] suma_pares_hasta(arr@, j)
                <= i32::MAX,
        decreases 5 - i,
    {
        if arr[i] % 2 == 0 {
            assert(suma_pares_hasta(arr@, i + 1) == suma_pares_hasta(arr@, i as int)
                + arr@[i as int]);
            sum = sum + arr[i];
        }
        i = i + 1;
    }
    sum
}

pub fn cantidad_impares(arr: [i32; 5]) -> (r: i32)
    ensures
        r as int == impares_hasta(arr@, 5),
{
    let mut cant: i32 = 0;
    let mut i: usize = 0;
    while i < 5
        invariant
            i <= 5,
            0 <= cant <= i,
            cant as int == impares_hasta(arr@, i as int),
        decreases 5 - i,
    {
        if !es_par(arr[i]) {
            cant = cant + 1;
        }
        i = i + 1;
    }
    cant
}

/// The byte length of a string with the given characters, once encoded as
/// UTF-8.
pub open spec fn largo_en_bytes(s: Seq<char>) -> int {
    vstd::utf8::encode_utf8(s).len() as int
}

/// Each entry of the result is the byte length of the matching string, cast to
/// `i32`; a length past `i32::MAX` wraps around in the cast, so the contract
/// pins the result for every length the cast keeps intact.
pub fn longitud_de_cadenas(arr: [String; 5]) -> (r: [i32; 5])
    ensures
        forall|i: int|
            0 <= i < 5 && largo_en_bytes(arr@[i]@) <= i32::MAX ==> #[trigger] r@[i]
                == largo_en_bytes(arr@[i]@),
{
    let l0 = #[verifier::truncate] (arr[0].as_str().len() as i32);
    let l1 = #[verifier::truncate] (arr[1].as_str().len() as i32);
    let l2 = #[verifier::truncate] (arr[2].as_str().len() as i32);
    let l3 = #[verifier::truncate] (arr[3].as_str().len() as i32);
    let l4 = #[verifier::truncate] (arr[4].as_str().len() as i32);
    [l0, l1, l2, l3, l4]
}

pub fn cantidad_de_mayores(arr: [i32; 5], limite: i32) -> (r: i32)
    ensures
        r as int == mayores_hasta(arr@, limite as int, 5),
{
    let mut cant: i32 = 0;
    let mut i: usize = 0;
    while i < 5
        invariant
            i <= 5,
            0 <= cant <= i,
            cant as int == mayores_hasta(arr@, limite as int, i as int),
        decreases 5 - i,
    {
        if arr[i] > limite {
            cant = cant + 1;
        }
        i = i + 1;
    }
    cant
}

pub fn cantidad_en_rango(arr: [i32; 5], inf: i32, sup: i32) -> (r: i32)
    ensures
        r as int == en_rango_hasta(arr@, inf as int, sup as int, 5),
{
    let mut cant: i32 = 0;
    let mut i: usize = 0;
    while i < 5
        invariant
            i <= 5,
            0 <= cant <= i,
            cant as int == en_rango_hasta(arr@, inf as int, sup as int, i as int),
        decreases 5 - i,
    {
        if inf <= arr[i] && arr[i] <= sup {
            cant = cant + 1;
        }
        i = i + 1;
    }
    cant
}

} // verus!
