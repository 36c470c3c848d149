//! A calendar date of the proleptic Gregorian calendar, held as three plain
//! integer fields. Construction stores any values verbatim; only `es_fecha_valida`
//! decides whether they name a real date. Day arithmetic walks one day at a
//! time, so the spec below mirrors that walk step by step.

use vstd::prelude::*;

verus! {

/// The three fields of a date as unbounded integers: the mathematical model
/// that every contract of `Fecha` speaks about.
pub ghost struct DiaMesAnio {
    pub dia: int,
    pub mes: int,
    pub anio: int,
}

/// April, June, September and November have 30 days.
pub open spec fn mes_de_30(mes: int) -> bool {
    mes == 4 || mes == 6 || mes == 9 || mes == 11
}

/// The leap-year rule: century years are leap years when the century count is
/// divisible by 4; every other year is a leap year when divisible by 4.
pub open spec fn es_bisiesto_anio(anio: int) -> bool {
    if anio % 100 == 0 {
        (anio / 100) % 4 == 0
    } else {
        anio % 4 == 0
    }
}

/// The validity rule. It deliberately does not reject day 29 or 30 of February
/// in a leap year, nor day 29 or 30 beyond a month's true length except for the
/// explicit 30-day-month check: callers rely on this exact leniency.
pub open spec fn fecha_valida(f: DiaMesAnio) -> bool {
    &&& 1 <= f.mes <= 12
    &&& 1 <= f.dia <= 31
    &&& f.anio != 0
    &&& !(f.mes == 2 && f.dia > 28 && !es_bisiesto_anio(f.anio))
    &&& !(mes_de_30(f.mes) && f.dia == 31)
}

/// One step forward: increment the day, then apply the three carry checks in
/// the same fixed order as the executable loop (30-day months and day 32,
/// February, then month 13).
pub open spec fn dia_siguiente(f: DiaMesAnio) -> DiaMesAnio {
    let f1 = DiaMesAnio { dia: f.dia + 1, mes: f.mes, anio: f.anio };
    let f2 = if (mes_de_30(f1.mes) && f1.dia == 31) || f1.dia == 32 {
        DiaMesAnio { dia: 1, mes: f1.mes + 1, anio: f1.anio }
    } else {
        f1
    };
    let f3 = if (f2.mes == 2 && es_bisiesto_anio(f2.anio) && f2.dia == 30) || (f2.mes == 2
        && !es_bisiesto_anio(f2.anio) && f2.dia == 29) {
        DiaMesAnio { dia: 1, mes: f2.mes + 1, anio: f2.anio }
    } else {
        f2
    };
    if f3.mes == 13 {
        DiaMesAnio { dia: 1, mes: 1, anio: f3.anio + 1 }
    } else {
        f3
    }
}

/// One step backward: decrement the day; on reaching 0 move to the last day of
/// the previous month (31, or 30 for a 30-day month, or 28/29 for February),
/// and on reaching month 0 move to December 31 of the previous year.
pub open spec fn dia_anterior(f: DiaMesAnio) -> DiaMesAnio {
    let d1 = f.dia - 1;
    if d1 == 0 {
        let m1 = f.mes - 1;
        let d2 = if mes_de_30(m1) {
            30int
        } else {
            31int
        };
        let d3 = if m1 == 2 {
            if es_bisiesto_anio(f.anio) {
                29int
            } else {
                28int
            }
        } else {
            d2
        };
        if m1 == 0 {
            DiaMesAnio { dia: 31, mes: 12, anio: f.anio - 1 }
        } else {
            DiaMesAnio { dia: d3, mes: m1, anio: f.anio }
        }
    } else {
        DiaMesAnio { dia: d1, mes: f.mes, anio: f.anio }
    }
}

/// The date reached after walking `n` single days forward.
pub open spec fn tras_sumar(f: DiaMesAnio, n: nat) -> DiaMesAnio
    decreases n,
{
    if n == 0 {
        f
    } else {
        tras_sumar(dia_siguiente(f), (n - 1) as nat)
    }
}

/// The date reached after walking `n` single days backward.
pub open spec fn tras_restar(f: DiaMesAnio, n: nat) -> DiaMesAnio
    decreases n,
{
    if n == 0 {
        f
    } else {
        tras_restar(dia_anterior(f), (n - 1) as nat)
    }
}

/// One forward step stays within `u32` fields: the day increment must fit, a
/// month carry must fit, and a year carry must fit.
pub open spec fn suma_paso_cabe(f: DiaMesAnio) -> bool {
    let f1 = DiaMesAnio { dia: f.dia + 1, mes: f.mes, anio: f.anio };
    let f2 = if (mes_de_30(f1.mes) && f1.dia == 31) || f1.dia == 32 {
        DiaMesAnio { dia: 1, mes: f1.mes + 1, anio: f1.anio }
    } else {
        f1
    };
    let f3 = if (f2.mes == 2 && es_bisiesto_anio(f2.anio) && f2.dia == 30) || (f2.mes == 2
        && !es_bisiesto_anio(f2.anio) && f2.dia == 29) {
        DiaMesAnio { dia: 1, mes: f2.mes + 1, anio: f2.anio }
    } else {
        f2
    };
    &&& f.dia < u32::MAX
    &&& (((mes_de_30(f1.mes) && f1.dia == 31) || f1.dia == 32) ==> f1.mes < u32::MAX)
    &&& ((f2.mes == 2 && es_bisiesto_anio(f2.anio) && f2.dia == 30) || (f2.mes == 2
        && !es_bisiesto_anio(f2.anio) && f2.dia == 29) ==> f2.mes < u32::MAX)
    &&& (f3.mes == 13 ==> f3.anio < u32::MAX)
}

/// One backward step stays within `u32` fields: the walk never takes the day,
/// the month or the year below zero.
pub open spec fn resta_paso_cabe(f: DiaMesAnio) -> bool {
    &&& f.dia >= 1
    &&& (f.dia == 1 ==> f.mes >= 1)
    &&& (f.dia == 1 && f.mes == 1 ==> f.anio >= 1)
}

/// All `n` forward steps from `f` stay within `u32` fields.
pub open spec fn suma_definida(f: DiaMesAnio, n: nat) -> bool
    decreases n,
{
    n == 0 || (suma_paso_cabe(f) && suma_definida(dia_siguiente(f), (n - 1) as nat))
}

/// All `n` backward steps from `f` stay within `u32` fields.
pub open spec fn resta_definida(f: DiaMesAnio, n: nat) -> bool
    decreases n,
{
    n == 0 || (resta_paso_cabe(f) && resta_definida(dia_anterior(f), (n - 1) as nat))
}

/// The comparison rule of `es_mayor`: an invalid `b` makes the answer true
/// unconditionally; otherwise the answer is false exactly when `a` comes
/// strictly before `b` in (year, month, day) order.
pub open spec fn es_mayor_que(a: DiaMesAnio, b: DiaMesAnio) -> bool {
    if !fecha_valida(b) {
        true
    } else {
        !(a.anio < b.anio || (a.anio == b.anio && a.mes < b.mes) || (a.anio == b.anio && a.mes
            == b.mes && a.dia < b.dia))
    }
}

#[derive(Debug, PartialEq, Eq, Structural, Clone, Copy)]
pub struct Fecha {
    pub dia: u32,
    pub mes: u32,
    pub anio: u32,
}

impl Fecha {
    /// The model of this date: its fields as unbounded integers.
    pub open spec fn vista(self) -> DiaMesAnio {
        DiaMesAnio { dia: self.dia as int, mes: self.mes as int, anio: self.anio as int }
    }

    /// Stores the three fields verbatim: no validation happens here, so a
    /// caller may build an out-of-range date on purpose and test it later.
    pub fn new(dia: u32, mes: u32, anio: u32) -> (f: Fecha)
        ensures
            f == (Fecha { dia, mes, anio }),
    {
        Fecha { dia, mes, anio }
    }

    pub fn es_bisiesto(&self) -> (r: bool)
        ensures
            r == es_bisiesto_anio(self.anio as int),
    {
        if self.anio % 100 == 0 {
            (self.anio / 100) % 4 == 0
        } else {
            self.anio % 4 == 0
        }
    }

    pub fn es_fecha_valida(&self) -> (r: bool)
        ensures
            r == fecha_valida(self.vista()),
    {
        if (self.mes > 12 || self.mes == 0) || (self.dia == 0 || self.dia > 31) || self.anio == 0 {
            return false;
        }
        if self.mes == 2 && self.dia > 28 && !self.es_bisiesto() {
            return false;
        }
        if (self.mes == 4 || self.mes == 6 || self.mes == 9 || self.mes == 11) && self.dia == 31 {
            return false;
        }
        true
    }

    /// Walks `dias` single days forward, mutating the receiver in place. The
    /// precondition only excludes walks that would push a `u32` field past its
    /// limit; any in-range garbage date is carried along deterministically.
    pub fn sumar_dias(&mut self, dias: u32)
        requires
            suma_definida(old(self).vista(), dias as nat),
        ensures
            final(self).vista() == tras_sumar(old(self).vista(), dias as nat),
    {
        let ghost meta = tras_sumar(old(self).vista(), dias as nat);
        let mut d: u32 = self.dia;
        let mut m: u32 = self.mes;
        let mut a: u32 = self.anio;
        let mut i: u32 = 0;
        while i < dias
            invariant
                i <= dias,
                suma_definida(
                    DiaMesAnio { dia: d as int, mes: m as int, anio: a as int },
                    (dias - i) as nat,
                ),
                tras_sumar(
                    DiaMesAnio { dia: d as int, mes: m as int, anio: a as int },
                    (dias - i) as nat,
                ) == meta,
            decreases dias - i,
        {
            let ghost antes = DiaMesAnio { dia: d as int, mes: m as int, anio: a as int };
            proof {
                assert(suma_paso_cabe(antes));
            }
            d = d + 1;
            if ((m == 4 || m == 6 || m == 9 || m == 11) && d == 31) || d == 32 {
                d = 1;
                m = m + 1;
            }
            let bis = Fecha { dia: d, mes: m, anio: a }.es_bisiesto();
            if (m == 2 && bis && d == 30) || (m == 2 && !bis && d == 29) {
                d = 1;
                m = m + 1;
            }
            if m == 13 {
                a = a + 1;
                m = 1;
                d = 1;
            }
            proof {
                assert(DiaMesAnio { dia: d as int, mes: m as int, anio: a as int }
                    == dia_siguiente(antes));
            }
            i = i + 1;
        }
        self.dia = d;
        self.mes = m;
        self.anio = a;
    }

    /// Walks `dias` single days backward, mutating the receiver in place; the
    /// walk crosses one month at a time even for large `dias`, so the cost is
    /// linear in `dias` by design. The precondition only excludes walks that
    /// would push a `u32` field below zero.
    pub fn restar_dias(&mut self, dias: u32)
        requires
            resta_definida(old(self).vista(), dias as nat),
        ensures
            final(self).vista() == tras_restar(old(self).vista(), dias as nat),
    {
        let ghost meta = tras_restar(old(self).vista(), dias as nat);
        let mut d: u32 = self.dia;
        let mut m: u32 = self.mes;
        let mut a: u32 = self.anio;
        let mut i: u32 = 0;
        while i < dias
            invariant
                i <= dias,
                resta_definida(
                    DiaMesAnio { dia: d as int, mes: m as int, anio: a as int },
                    (dias - i) as nat,
                ),
                tras_restar(
                    DiaMesAnio { dia: d as int, mes: m as int, anio: a as int },
                    (dias - i) as nat,
                ) == meta,
            decreases dias - i,
        {
            let ghost antes = DiaMesAnio { dia: d as int, mes: m as int, anio: a as int };
            proof {
                assert(resta_paso_cabe(antes));
            }
            d = d - 1;
            if d == 0 {
                m = m - 1;
                if m == 4 || m == 6 || m == 9 || m == 11 {
                    d = 30;
                } else {
                    d = 31;
                }
                if m == 2 {
                    if (Fecha { dia: d, mes: m, anio: a }).es_bisiesto() {
                        d = 29;
                    } else {
                        d = 28;
                    }
                }
                if m == 0 {
                    a = a - 1;
                    m = 12;
                    d = 31;
                }
            }
            proof {
                assert(DiaMesAnio { dia: d as int, mes: m as int, anio: a as int }
                    == dia_anterior(antes));
            }
            i = i + 1;
        }
        self.dia = d;
        self.mes = m;
        self.anio = a;
    }

    /// Is this date on or after `f`? The contract is deliberately asymmetric:
    /// when `f` itself is not a valid date the answer is true whatever `self`
    /// holds. Due-date checks depend on exactly this behaviour.
    pub fn es_mayor(&self, f: Fecha) -> (r: bool)
        ensures
            r == es_mayor_que(self.vista(), f.vista()),
    {
        if !f.es_fecha_valida() {
            return true;
        }
        if self.anio < f.anio || (self.anio == f.anio && self.mes < f.mes) || (self.anio == f.anio
            && self.mes == f.mes && self.dia < f.dia) {
            false
        } else {
            true
        }
    }
}

/// A date whose day and month are in calendar range can walk forward any
/// number of days that keeps the year within `u32`: the walk keeps the day in
/// 1..=31 and the month in 1..=12, and raises the year at most once per step.
pub proof fn lema_suma_definida_en_rango(f: DiaMesAnio, n: nat)
    requires
        1 <= f.dia <= 31,
        1 <= f.mes <= 12,
        f.anio + n <= u32::MAX,
        f.anio >= 0,
    ensures
        suma_definida(f, n),
    decreases n,
{
    if n > 0 {
        let g = dia_siguiente(f);
        assert(suma_paso_cabe(f));
        assert(1 <= g.dia <= 31 && 1 <= g.mes <= 12 && f.anio <= g.anio <= f.anio + 1);
        lema_suma_definida_en_rango(g, (n - 1) as nat);
    }
}

/// Every year divisible by 4 but not by 100 is a leap year.
pub proof fn lema_bisiesto_multiplo_de_4(anio: int)
    requires
        anio % 4 == 0,
        anio % 100 != 0,
    ensures
        es_bisiesto_anio(anio),
{
}

/// For years from 1 on, the leap-year rule used here agrees with the usual
/// Gregorian phrasing: divisible by 4, and not by 100 unless also by 400. The
/// century clause "century count divisible by 4" says the same as "year
/// divisible by 400".
pub proof fn lema_bisiesto_regla_gregoriana(anio: int)
    requires
        anio >= 1,
    ensures
        es_bisiesto_anio(anio) == (anio % 4 == 0 && (anio % 100 != 0 || anio % 400 == 0)),
{
    if anio % 100 == 0 {
        let k = anio / 100;
        vstd::arithmetic::div_mod::lemma_fundamental_div_mod(anio, 100);
        assert(anio == 100 * k);
        assert(100 * k == (25 * k) * 4) by (nonlinear_arith);
        vstd::arithmetic::div_mod::lemma_mod_multiples_basic(25 * k, 4);
        assert(anio % 4 == 0);
        if k % 4 == 0 {
            let j = k / 4;
            vstd::arithmetic::div_mod::lemma_fundamental_div_mod(k, 4);
            assert(k == 4 * j);
            assert(anio == j * 400) by (nonlinear_arith)
                requires
                    anio == 100 * k,
                    k == 4 * j,
            ;
            vstd::arithmetic::div_mod::lemma_mod_multiples_basic(j, 400);
            assert(anio % 400 == 0);
        } else {
            if anio % 400 == 0 {
                let m = anio / 400;
                vstd::arithmetic::div_mod::lemma_fundamental_div_mod(anio, 400);
                assert(anio == 400 * m);
                assert(k == m * 4) by (nonlinear_arith)
                    requires
                        anio == 100 * k,
                        anio == 400 * m,
                ;
                vstd::arithmetic::div_mod::lemma_mod_multiples_basic(m, 4);
                assert(false);
            }
        }
    }
}

} // verus!
