//! Modelo de crecimiento: una curva de tipo Gompertz
//! `peso = A · exp(-B · exp(-k · edad))` evaluada en aritmética de punto fijo
//! sobre enteros. `ESCALA` representa el valor 1; la exponencial negativa se
//! aproxima con el recíproco de un polinomio cúbico creciente, lo que hace a
//! la curva total, determinista y no decreciente en la edad.

use vstd::arithmetic::div_mod::{
    lemma_div_is_ordered, lemma_div_is_ordered_by_denominator, lemma_div_multiples_vanish,
    lemma_div_pos_is_pos,
};
use vstd::prelude::*;

verus! {

/// Unidad de punto fijo: este valor representa al número 1.
pub const ESCALA: u64 = 65536;

/// Cota superior del argumento de la exponencial: más allá de ella la curva
/// ya es plana a la resolución de `ESCALA`, y acotarla evita desbordes.
pub const TOPE_ARG_EXP: u64 = 32 * ESCALA;

/// Cota superior del peso asintótico `A` (en gramos) con la que
/// `A · ESCALA` cabe en un `u64`.
pub const MAX_PESO_ASINTOTICO: u64 = 0xFFFF_FFFF_FFFF;

/// Cota superior de los parámetros `B` y `k` de la curva.
pub const MAX_PARAM_CURVA: u64 = 0xFFFF_FFFF;

/// Polinomio cúbico creciente que aproxima a `exp(t / ESCALA) · ESCALA`
/// para `t >= 0` (los primeros cuatro términos de su serie).
pub open spec fn denominador_exp(t: int) -> int {
    ESCALA + t + (t * t) / (2 * ESCALA) + ((t * t) * t) / ((6 * ESCALA) * ESCALA)
}

/// Aproximación en punto fijo de `exp(-x / ESCALA) · ESCALA`, con el
/// argumento acotado por `TOPE_ARG_EXP`.
pub open spec fn exp_neg(x: int) -> int {
    let t = if x > TOPE_ARG_EXP { TOPE_ARG_EXP as int } else { x };
    (ESCALA * ESCALA) / denominador_exp(t)
}

/// Peso en gramos según la curva de Gompertz con peso asintótico `a` (gramos)
/// y parámetros de forma `b` y de ritmo `k` (ambos en punto fijo), a la edad
/// `edad` en días.
pub open spec fn peso_curva(a: int, b: int, k: int, edad: int) -> int {
    let e1 = exp_neg(k * edad);
    let e2 = exp_neg((b * e1) / (ESCALA as int));
    (a * e2) / (ESCALA as int)
}

/// El denominador crece con su argumento y nunca baja de `ESCALA`.
proof fn lema_denominador_exp(s: int, t: int)
    requires
        0 <= s <= t,
    ensures
        ESCALA <= denominador_exp(s) <= denominador_exp(t),
{
    assert(s * s <= t * t) by (nonlinear_arith)
        requires 0 <= s <= t;
    assert((s * s) * s <= (t * t) * t) by (nonlinear_arith)
        requires 0 <= s <= t;
    lemma_div_is_ordered(s * s, t * t, 2 * ESCALA as int);
    lemma_div_is_ordered((s * s) * s, (t * t) * t, (6 * ESCALA as int) * ESCALA as int);
    assert(0 <= s * s) by (nonlinear_arith)
        requires 0 <= s;
    assert(0 <= (s * s) * s) by (nonlinear_arith)
        requires 0 <= s;
    lemma_div_pos_is_pos(s * s, 2 * ESCALA as int);
    lemma_div_pos_is_pos((s * s) * s, (6 * ESCALA as int) * ESCALA as int);
}

/// La exponencial aproximada queda entre 0 y `ESCALA` y no crece con su
/// argumento.
pub proof fn lema_exp_neg_rango(x: int)
    requires
        0 <= x,
    ensures
        0 <= exp_neg(x) <= ESCALA,
{
    let t = if x > TOPE_ARG_EXP { TOPE_ARG_EXP as int } else { x };
    lema_denominador_exp(t, t);
    lemma_div_pos_is_pos(ESCALA * ESCALA as int, denominador_exp(t));
    lemma_div_is_ordered_by_denominator(ESCALA * ESCALA as int, ESCALA as int, denominador_exp(t));
    lemma_div_multiples_vanish(ESCALA as int, ESCALA as int);
}

/// `exp_neg` es antimonótona: a mayor argumento, menor resultado.
pub proof fn lema_exp_neg_antimonotona(x: int, y: int)
    requires
        0 <= x <= y,
    ensures
        exp_neg(y) <= exp_neg(x),
{
    let s = if x > TOPE_ARG_EXP { TOPE_ARG_EXP as int } else { x };
    let t = if y > TOPE_ARG_EXP { TOPE_ARG_EXP as int } else { y };
    lema_denominador_exp(s, t);
    lemma_div_is_ordered_by_denominator(
        ESCALA * ESCALA as int,
        denominador_exp(s),
        denominador_exp(t),
    );
}

/// El peso de la curva queda entre 0 y el peso asintótico `a`.
pub proof fn lema_peso_curva_rango(a: int, b: int, k: int, edad: int)
    requires
        0 <= a,
        0 <= b,
        0 <= k,
        0 <= edad,
    ensures
        0 <= peso_curva(a, b, k, edad) <= a,
{
    let e1 = exp_neg(k * edad);
    assert(0 <= k * edad) by (nonlinear_arith)
        requires 0 <= k, 0 <= edad;
    lema_exp_neg_rango(k * edad);
    assert(0 <= b * e1) by (nonlinear_arith)
        requires 0 <= b, 0 <= e1;
    lemma_div_pos_is_pos(b * e1, ESCALA as int);
    let e2 = exp_neg((b * e1) / (ESCALA as int));
    lema_exp_neg_rango((b * e1) / (ESCALA as int));
    assert(0 <= a * e2 && a * e2 <= a * ESCALA) by (nonlinear_arith)
        requires 0 <= a, 0 <= e2 <= ESCALA;
    lemma_div_pos_is_pos(a * e2, ESCALA as int);
    lemma_div_is_ordered(a * e2, a * ESCALA as int, ESCALA as int);
    assert((ESCALA as int * a) / ESCALA as int == a) by {
        lemma_div_multiples_vanish(a, ESCALA as int);
    }
    assert(a * ESCALA as int == ESCALA as int * a) by (nonlinear_arith);
}

/// La curva es no decreciente en la edad: el corazón de la monotonía del
/// modelo de crecimiento.
pub proof fn lema_peso_curva_no_decreciente(a: int, b: int, k: int, edad1: int, edad2: int)
    requires
        0 <= a,
        0 <= b,
        0 <= k,
        0 <= edad1 <= edad2,
    ensures
        peso_curva(a, b, k, edad1) <= peso_curva(a, b, k, edad2),
{
    assert(k * edad1 <= k * edad2) by (nonlinear_arith)
        requires 0 <= k, edad1 <= edad2;
    assert(0 <= k * edad1) by (nonlinear_arith)
        requires 0 <= k, 0 <= edad1;
    let e1a = exp_neg(k * edad1);
    let e1b = exp_neg(k * edad2);
    lema_exp_neg_rango(k * edad1);
    lema_exp_neg_antimonotona(k * edad1, k * edad2);
    lema_exp_neg_rango(k * edad2);
    assert(b * e1b <= b * e1a && 0 <= b * e1b) by (nonlinear_arith)
        requires 0 <= b, 0 <= e1b <= e1a;
    lemma_div_is_ordered(b * e1b, b * e1a, ESCALA as int);
    lemma_div_pos_is_pos(b * e1b, ESCALA as int);
    let e2a = exp_neg((b * e1a) / (ESCALA as int));
    let e2b = exp_neg((b * e1b) / (ESCALA as int));
    lema_exp_neg_antimonotona((b * e1b) / (ESCALA as int), (b * e1a) / (ESCALA as int));
    assert(a * e2a <= a * e2b) by (nonlinear_arith)
        requires 0 <= a, e2a <= e2b;
    lemma_div_is_ordered(a * e2a, a * e2b, ESCALA as int);
}

/// Evaluación ejecutable de la exponencial aproximada.
pub fn calcular_exp_neg(x: u64) -> (r: u64)
    ensures
        r == exp_neg(x as int),
        r <= ESCALA,
{
    let t: u64 = if x > TOPE_ARG_EXP { TOPE_ARG_EXP } else { x };
    assert(t * t <= 2097152 * 2097152) by (nonlinear_arith)
        requires t <= 2097152;
    let t2: u64 = t * t;
    assert(t2 * t <= 4398046511104 * 2097152) by (nonlinear_arith)
        requires t2 <= 4398046511104, t <= 2097152;
    let t3: u64 = t2 * t;
    let den: u64 = ESCALA + t + t2 / (2 * ESCALA) + t3 / (6 * ESCALA * ESCALA);
    proof {
        lemma_div_pos_is_pos(t2 as int, 2 * ESCALA as int);
        lemma_div_pos_is_pos(t3 as int, (6 * ESCALA as int) * ESCALA as int);
        lemma_div_is_ordered(t2 as int, 4398046511104, 2 * ESCALA as int);
        lemma_div_is_ordered(t3 as int, 9223372036854775808, (6 * ESCALA as int) * ESCALA as int);
        assert(denominador_exp(t as int) == den);
        lema_denominador_exp(t as int, t as int);
        lemma_div_is_ordered_by_denominator((ESCALA * ESCALA) as int, ESCALA as int, den as int);
        lemma_div_multiples_vanish(ESCALA as int, ESCALA as int);
        lemma_div_pos_is_pos((ESCALA * ESCALA) as int, den as int);
    }
    (ESCALA * ESCALA) / den
}

/// Evaluación ejecutable de la curva de Gompertz en gramos.
pub fn calcular_peso_curva(a: u64, b: u64, k: u64, edad: u32) -> (r: u64)
    requires
        a <= MAX_PESO_ASINTOTICO,
        b <= MAX_PARAM_CURVA,
        k <= MAX_PARAM_CURVA,
    ensures
        r == peso_curva(a as int, b as int, k as int, edad as int),
        r <= a,
{
    assert(k * (edad as u64) <= 4294967295 * 4294967295) by (nonlinear_arith)
        requires k <= 4294967295, edad as u64 <= 4294967295;
    let x: u64 = k * (edad as u64);
    let e1 = calcular_exp_neg(x);
    assert(b * e1 <= 4294967295 * 65536) by (nonlinear_arith)
        requires b <= 4294967295, e1 <= 65536;
    let arg2: u64 = (b * e1) / ESCALA;
    let e2 = calcular_exp_neg(arg2);
    assert(a * e2 <= 281474976710655 * 65536) by (nonlinear_arith)
        requires a <= 281474976710655, e2 <= 65536;
    proof {
        lema_peso_curva_rango(a as int, b as int, k as int, edad as int);
    }
    (a * e2) / ESCALA
}

} // verus!
