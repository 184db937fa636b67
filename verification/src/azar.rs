//! Fuente de azar del mundo: un `StdRng` de la crate `rand`, sembrable para
//! que las pruebas sean reproducibles. Todas las llamadas a `rand` pasan por
//! las envolturas de este módulo; de un valor aleatorio solo se afirma lo que
//! vale de cualquier resultado posible.

use rand::rngs::StdRng;
use vstd::prelude::*;

verus! {

#[verifier::external_type_specification]
#[verifier::external_body]
pub struct ExStdRng(StdRng);

/// Se apoya en `rand::SeedableRng::seed_from_u64`: construye un generador
/// determinista a partir de la semilla; no promete nada de los valores que
/// luego produce.
#[verifier::external_body]
pub(crate) fn generador_desde_semilla(semilla: u64) -> StdRng {
    <StdRng as rand::SeedableRng>::seed_from_u64(semilla)
}

/// Se apoya en `rand::SeedableRng::from_entropy`: construye un generador
/// sembrado por el sistema operativo (y puede abortar si el sistema no
/// entrega entropía, algo ajeno a toda entrada de esta biblioteca).
#[verifier::external_body]
pub(crate) fn generador_desde_entropia() -> StdRng {
    <StdRng as rand::SeedableRng>::from_entropy()
}

/// Se apoya en `rand::Rng::gen_ratio`: devuelve `true` con probabilidad
/// `por_mil / 1000`. Del resultado no se promete nada; `gen_ratio` aborta si
/// el numerador supera al denominador, por eso la precondición.
#[verifier::external_body]
pub(crate) fn sorteo_por_mil(generador: &mut StdRng, por_mil: u32) -> bool
    requires
        por_mil <= 1000,
{
    rand::Rng::gen_ratio(generador, por_mil, 1000)
}

/// Se apoya en `rand::Rng::gen_range` sobre un rango inclusivo: devuelve un
/// valor dentro del rango, y aborta sobre un rango vacío, por eso la
/// precondición.
#[verifier::external_body]
pub(crate) fn entero_en_rango(generador: &mut StdRng, desde: u32, hasta: u32) -> (r: u32)
    requires
        desde <= hasta,
    ensures
        desde <= r <= hasta,
{
    rand::Rng::gen_range(generador, desde..=hasta)
}

/// Se apoya en `rand::Rng::gen_range` sobre `0..cantidad`: devuelve un índice
/// menor que `cantidad`, y aborta sobre un rango vacío, por eso la
/// precondición.
#[verifier::external_body]
pub(crate) fn indice_al_azar(generador: &mut StdRng, cantidad: usize) -> (r: usize)
    requires
        1 <= cantidad,
    ensures
        r < cantidad,
{
    rand::Rng::gen_range(generador, 0..cantidad)
}

/// Se apoya en `rand::seq::SliceRandom::shuffle`: permuta el contenido del
/// vector en el lugar, de modo que conserva el multiconjunto de sus
/// elementos.
#[verifier::external_body]
pub(crate) fn barajar_indices(generador: &mut StdRng, v: &mut Vec<usize>)
    ensures
        final(v)@.to_multiset() == old(v)@.to_multiset(),
        final(v)@.len() == old(v)@.len(),
{
    rand::seq::SliceRandom::shuffle(v.as_mut_slice(), generador)
}

} // verus!
