//! El reporte de un día: un evento estructurado por cada suceso notable
//! (cazas, alimentación, muertes con su causa, nacimientos) y el resumen de
//! cierre con los conteos de población. Es una proyección pura de las
//! mutaciones del día; no guarda estado entre llamadas.

use crate::animal::Animal;
use crate::depredador::EstadoAlimentacion;
use crate::especies::Especie;
use vstd::prelude::*;

verus! {

/// Causa de la muerte de un depredador.
#[derive(Clone, Copy, Debug, PartialEq, Eq, Structural)]
pub enum CausaMuerteDepredador {
    /// Agotó su tolerancia de días sin comer.
    Inanicion,
    /// Alcanzó su edad máxima.
    Vejez,
}

/// Un suceso notable dentro de un día de simulación.
#[derive(Clone, Copy, Debug, PartialEq, Eq, Structural)]
pub enum Evento {
    /// Un depredador cazó una presa y sumó su peso a la reserva.
    Caza { depredador: u32, presa: u64, especie: Especie, peso_gramos: u64, edad_dias: u32 },
    /// Un depredador alcanzó su consumo mínimo diario.
    DepredadorAlimentado { depredador: u32, consumido_gramos: u64, reserva_gramos: u64 },
    /// Un depredador no alcanzó el mínimo y alargó su racha de hambre.
    DepredadorSinComer { depredador: u32, dias_sin_comer: u32, reserva_gramos: u64 },
    /// Un depredador murió, con su causa.
    MuerteDepredador { depredador: u32, causa: CausaMuerteDepredador, edad_dias: u32, dias_sin_comer: u32 },
    /// Una presa murió de enfermedad.
    MuertePorEnfermedad { presa: u64, especie: Especie },
    /// Una presa murió de vejez.
    MuertePorVejez { presa: u64, especie: Especie },
    /// Nacieron crías durante la fase de reproducción.
    Nacimientos { cantidad: u64 },
}

/// Estado de un depredador vivo al cierre del día.
#[derive(Clone, Copy, Debug, PartialEq, Eq, Structural)]
pub struct EstadoDepredador {
    /// Identificador del depredador.
    pub id: u32,
    /// Edad en días al cierre.
    pub edad_dias: u32,
    /// Reserva en gramos al cierre.
    pub reserva_gramos: u64,
    /// Días seguidos sin alcanzar el mínimo.
    pub dias_sin_comer: u32,
    /// Categoría de alimentación frente a los umbrales.
    pub estado: EstadoAlimentacion,
}

/// El reporte de un día completo.
#[derive(Clone, Debug, PartialEq, Eq)]
pub struct Reporte {
    /// Día al que corresponde el reporte.
    pub dia: u64,
    /// Sucesos del día, en el orden en que ocurrieron.
    pub eventos: Vec<Evento>,
    /// Presas vivas al cierre.
    pub total_presas: usize,
    /// Conejos vivos al cierre.
    pub conejos: usize,
    /// Cabras vivas al cierre.
    pub cabras: usize,
    /// Vacas vivas al cierre.
    pub vacas: usize,
    /// Depredadores vivos al cierre.
    pub depredadores_vivos: usize,
    /// Estado de cada depredador vivo al cierre.
    pub estados: Vec<EstadoDepredador>,
}

/// Cuántos eventos de caza hay en la secuencia.
pub open spec fn cuenta_cazas(eventos: Seq<Evento>) -> int
    decreases eventos.len(),
{
    if eventos.len() == 0 {
        0
    } else {
        cuenta_cazas(eventos.drop_last()) + if eventos.last() is Caza {
            1int
        } else {
            0int
        }
    }
}

/// Cuántas muertes de depredador hay en la secuencia.
pub open spec fn cuenta_muertes_depredador(eventos: Seq<Evento>) -> int
    decreases eventos.len(),
{
    if eventos.len() == 0 {
        0
    } else {
        cuenta_muertes_depredador(eventos.drop_last()) + if eventos.last() is MuerteDepredador {
            1int
        } else {
            0int
        }
    }
}

/// Cuántas muertes de presa (por enfermedad o por vejez) hay en la secuencia.
pub open spec fn cuenta_muertes_presa(eventos: Seq<Evento>) -> int
    decreases eventos.len(),
{
    if eventos.len() == 0 {
        0
    } else {
        cuenta_muertes_presa(eventos.drop_last()) + if eventos.last() is MuertePorEnfermedad
            || eventos.last() is MuertePorVejez {
            1int
        } else {
            0int
        }
    }
}

/// Suma de las crías que anuncian los eventos de nacimiento de la secuencia.
pub open spec fn suma_nacimientos(eventos: Seq<Evento>) -> int
    decreases eventos.len(),
{
    if eventos.len() == 0 {
        0
    } else {
        suma_nacimientos(eventos.drop_last()) + (match eventos.last() {
            Evento::Nacimientos { cantidad } => cantidad as int,
            _ => 0int,
        })
    }
}

/// Cómo cambia cada conteo de eventos al agregar un evento al final.
pub proof fn lema_conteos_push(eventos: Seq<Evento>, evento: Evento)
    ensures
        cuenta_cazas(eventos.push(evento)) == cuenta_cazas(eventos) + (if evento is Caza {
            1int
        } else {
            0int
        }),
        cuenta_muertes_depredador(eventos.push(evento)) == cuenta_muertes_depredador(eventos) + (
        if evento is MuerteDepredador {
            1int
        } else {
            0int
        }),
        cuenta_muertes_presa(eventos.push(evento)) == cuenta_muertes_presa(eventos) + (
        if evento is MuertePorEnfermedad || evento is MuertePorVejez {
            1int
        } else {
            0int
        }),
        suma_nacimientos(eventos.push(evento)) == suma_nacimientos(eventos) + (
        match evento {
            Evento::Nacimientos { cantidad } => cantidad as int,
            _ => 0int,
        }),
{
    assert(eventos.push(evento).drop_last() =~= eventos);
    assert(eventos.push(evento).last() == evento);
}

/// Cuántas presas de la especie dada hay en la secuencia.
pub open spec fn cuenta_especie(presas: Seq<Animal>, especie: Especie) -> nat {
    presas.filter(|a: Animal| a.especie == especie).len()
}

/// Al agregar una presa al final, el conteo de su especie sube en uno y el de
/// las demás no cambia.
pub proof fn lema_cuenta_especie_push(presas: Seq<Animal>, presa: Animal, especie: Especie)
    ensures
        cuenta_especie(presas.push(presa), especie) == cuenta_especie(presas, especie) + (
        if presa.especie == especie {
            1int
        } else {
            0int
        }),
{
    let pred = |a: Animal| a.especie == especie;
    reveal(Seq::filter);
    assert(presas.push(presa).drop_last() =~= presas);
    assert(presas.push(presa).last() == presa);
    assert(presas.push(presa).filter(pred) == if pred(presa) {
        presas.filter(pred).push(presa)
    } else {
        presas.filter(pred)
    });
}

/// Conteo ejecutable de las presas de una especie.
pub fn contar_especie(presas: &Vec<Animal>, especie: Especie) -> (r: usize)
    ensures
        r == cuenta_especie(presas@, especie),
{
    let mut cuenta: usize = 0;
    let mut i: usize = 0;
    while i < presas.len()
        invariant
            i <= presas@.len(),
            cuenta <= i,
            cuenta == cuenta_especie(presas@.take(i as int), especie),
        decreases presas@.len() - i,
    {
        proof {
            assert(presas@.take(i + 1).drop_last() =~= presas@.take(i as int));
            lema_cuenta_especie_push(presas@.take(i as int), presas@[i as int], especie);
            assert(presas@.take(i + 1) =~= presas@.take(i as int).push(presas@[i as int]));
        }
        if presas[i].especie == especie {
            cuenta = cuenta + 1;
        }
        i = i + 1;
    }
    proof {
        assert(presas@.take(presas@.len() as int) =~= presas@);
    }
    cuenta
}

} // verus!
