//! Tabla de rasgos por especie: constantes inmutables de cada especie de
//! presa (edades, probabilidades diarias en milésimas, tamaño de camada y
//! parámetros de la curva de crecimiento), con su validación y sus valores
//! predeterminados.

use crate::crecimiento::{
    calcular_peso_curva, lema_peso_curva_no_decreciente, lema_peso_curva_rango, peso_curva,
    MAX_PARAM_CURVA, MAX_PESO_ASINTOTICO,
};
use vstd::prelude::*;

verus! {

/// Especies de presas del ecosistema.
#[derive(Clone, Copy, Debug, PartialEq, Eq, Hash, Structural)]
pub enum Especie {
    Conejo,
    Cabra,
    Vaca,
}

/// Sexo de una presa.
#[derive(Clone, Copy, Debug, PartialEq, Eq, Structural)]
pub enum Sexo {
    Macho,
    Hembra,
}

/// Etapa de vida de una presa, derivada de su edad frente a la edad adulta.
#[derive(Clone, Copy, Debug, PartialEq, Eq, Structural)]
pub enum EtapaDeVida {
    Cria,
    Adulto,
}

/// Constantes de una especie. Las probabilidades diarias van en milésimas
/// (1000 = probabilidad 1) y los pesos en gramos.
#[derive(Clone, Copy, Debug, PartialEq, Eq, Structural)]
pub struct RasgosEspecie {
    /// Edad (en días) desde la cual el individuo es adulto y puede reproducirse.
    pub edad_adulta: u32,
    /// Edad (en días) desde la cual el individuo muere de vejez.
    pub edad_maxima: u32,
    /// Edad (en días) desde la cual un depredador puede cazarlo.
    pub edad_sacrificio: u32,
    /// Edad (en días) con la que se crean los individuos de la población inicial.
    pub edad_inicial: u32,
    /// Probabilidad diaria de reproducción de una hembra adulta, en milésimas.
    pub reproduccion_por_mil: u32,
    /// Probabilidad diaria de enfermar, en milésimas.
    pub enfermedad_por_mil: u32,
    /// Cantidad mínima de crías por parto.
    pub min_crias_por_parto: u8,
    /// Cantidad máxima de crías por parto.
    pub max_crias_por_parto: u8,
    /// Espacio que requiere un individuo.
    pub espacio_requerido: u32,
    /// Comida diaria que requiere un individuo.
    pub comida_requerida_por_dia: u32,
    /// Peso asintótico `A` de la curva de crecimiento, en gramos.
    pub peso_asintotico_gramos: u64,
    /// Parámetro de forma `B` de la curva, en punto fijo.
    pub forma_curva: u64,
    /// Parámetro de ritmo `k` de la curva, en punto fijo.
    pub ritmo_curva: u64,
}

impl RasgosEspecie {
    /// Las cotas de camada son positivas y están ordenadas.
    pub open spec fn camada_valida(self) -> bool {
        1 <= self.min_crias_por_parto && self.min_crias_por_parto <= self.max_crias_por_parto
    }

    /// Las edades son coherentes: la adulta precede a la máxima y la de
    /// sacrificio no precede a la adulta.
    pub open spec fn edades_validas(self) -> bool {
        self.edad_adulta < self.edad_maxima && self.edad_sacrificio >= self.edad_adulta
    }

    /// Las probabilidades diarias caen dentro de [0, 1].
    pub open spec fn probabilidades_validas(self) -> bool {
        self.reproduccion_por_mil <= 1000 && self.enfermedad_por_mil <= 1000
    }

    /// Validez semántica de la configuración: camadas con cotas positivas y
    /// ordenadas, edades coherentes y probabilidades dentro de [0, 1].
    pub open spec fn bien_formados(self) -> bool {
        self.camada_valida() && self.edades_validas() && self.probabilidades_validas()
    }

    /// Comprobación ejecutable de las cotas de camada.
    pub fn camada_ordenada(&self) -> (r: bool)
        ensures
            r == self.camada_valida(),
    {
        1 <= self.min_crias_por_parto && self.min_crias_por_parto <= self.max_crias_por_parto
    }

    /// Comprobación ejecutable de la coherencia de las edades.
    pub fn edades_coherentes(&self) -> (r: bool)
        ensures
            r == self.edades_validas(),
    {
        self.edad_adulta < self.edad_maxima && self.edad_sacrificio >= self.edad_adulta
    }

    /// Comprobación ejecutable del rango de las probabilidades.
    pub fn probabilidades_en_rango(&self) -> (r: bool)
        ensures
            r == self.probabilidades_validas(),
    {
        self.reproduccion_por_mil <= 1000 && self.enfermedad_por_mil <= 1000
    }

    /// Límites de máquina: con ellos la curva y el envejecimiento se evalúan
    /// sin desborde.
    pub open spec fn dentro_de_limites(self) -> bool {
        &&& self.peso_asintotico_gramos <= MAX_PESO_ASINTOTICO
        &&& self.forma_curva <= MAX_PARAM_CURVA
        &&& self.ritmo_curva <= MAX_PARAM_CURVA
        &&& self.edad_inicial < u32::MAX
    }

    /// Peso que la curva de la especie asigna a la edad dada.
    pub open spec fn peso_spec(self, edad: int) -> int {
        peso_curva(
            self.peso_asintotico_gramos as int,
            self.forma_curva as int,
            self.ritmo_curva as int,
            edad,
        )
    }

    /// Comprobación ejecutable de la validez semántica.
    pub fn validar(&self) -> (r: bool)
        ensures
            r == self.bien_formados(),
    {
        1 <= self.min_crias_por_parto && self.min_crias_por_parto <= self.max_crias_por_parto
            && self.edad_adulta < self.edad_maxima && self.edad_sacrificio >= self.edad_adulta
            && self.reproduccion_por_mil <= 1000 && self.enfermedad_por_mil <= 1000
    }

    /// Peso en gramos de un individuo de esta especie a la edad dada.
    pub fn peso_gramos(&self, edad: u32) -> (r: u64)
        requires
            self.dentro_de_limites(),
        ensures
            r == self.peso_spec(edad as int),
            r <= self.peso_asintotico_gramos,
    {
        calcular_peso_curva(
            self.peso_asintotico_gramos,
            self.forma_curva,
            self.ritmo_curva,
            edad,
        )
    }
}

/// El peso de toda especie es no negativo y no supera su peso asintótico.
pub proof fn lema_peso_spec_rango(rasgos: RasgosEspecie, edad: int)
    requires
        0 <= edad,
    ensures
        0 <= rasgos.peso_spec(edad) <= rasgos.peso_asintotico_gramos,
{
    lema_peso_curva_rango(
        rasgos.peso_asintotico_gramos as int,
        rasgos.forma_curva as int,
        rasgos.ritmo_curva as int,
        edad,
    );
}

/// El peso de toda especie es no decreciente en la edad: para cualesquiera
/// edades `edad1 <= edad2`, el peso a `edad1` no supera al peso a `edad2`.
pub proof fn lema_peso_spec_no_decreciente(rasgos: RasgosEspecie, edad1: int, edad2: int)
    requires
        0 <= edad1 <= edad2,
    ensures
        rasgos.peso_spec(edad1) <= rasgos.peso_spec(edad2),
{
    lema_peso_curva_no_decreciente(
        rasgos.peso_asintotico_gramos as int,
        rasgos.forma_curva as int,
        rasgos.ritmo_curva as int,
        edad1,
        edad2,
    );
}

/// Para toda especie y toda edad no negativa, el peso de la especie es no
/// negativo y no decreciente en la edad, y queda acotado por su peso
/// asintótico.
pub proof fn lema_peso_de_especie_no_decreciente(especie: Especie, edad1: int, edad2: int)
    requires
        0 <= edad1 <= edad2,
    ensures
        0 <= rasgos_predeterminados(especie).peso_spec(edad1),
        rasgos_predeterminados(especie).peso_spec(edad1) <= rasgos_predeterminados(
            especie,
        ).peso_spec(edad2),
        rasgos_predeterminados(especie).peso_spec(edad2) <= rasgos_predeterminados(
            especie,
        ).peso_asintotico_gramos,
{
    lema_peso_spec_rango(rasgos_predeterminados(especie), edad2);
    lema_peso_spec_rango(rasgos_predeterminados(especie), edad1);
    lema_peso_spec_no_decreciente(rasgos_predeterminados(especie), edad1, edad2);
}

/// Rasgos predeterminados de cada especie. La población inicial entra con la
/// edad de sacrificio, de modo que ya es cazable.
pub open spec fn rasgos_predeterminados(especie: Especie) -> RasgosEspecie {
    match especie {
        Especie::Conejo => RasgosEspecie {
            edad_adulta: 90,
            edad_maxima: 2000,
            edad_sacrificio: 120,
            edad_inicial: 120,
            reproduccion_por_mil: 200,
            enfermedad_por_mil: 10,
            min_crias_por_parto: 1,
            max_crias_por_parto: 5,
            espacio_requerido: 1,
            comida_requerida_por_dia: 1,
            peso_asintotico_gramos: 5000,
            forma_curva: 163840,
            ritmo_curva: 3277,
        },
        Especie::Cabra => RasgosEspecie {
            edad_adulta: 365,
            edad_maxima: 5000,
            edad_sacrificio: 450,
            edad_inicial: 450,
            reproduccion_por_mil: 50,
            enfermedad_por_mil: 80,
            min_crias_por_parto: 1,
            max_crias_por_parto: 2,
            espacio_requerido: 5,
            comida_requerida_por_dia: 2,
            peso_asintotico_gramos: 75000,
            forma_curva: 183501,
            ritmo_curva: 655,
        },
        Especie::Vaca => RasgosEspecie {
            edad_adulta: 500,
            edad_maxima: 6000,
            edad_sacrificio: 600,
            edad_inicial: 600,
            reproduccion_por_mil: 20,
            enfermedad_por_mil: 50,
            min_crias_por_parto: 1,
            max_crias_por_parto: 1,
            espacio_requerido: 20,
            comida_requerida_por_dia: 10,
            peso_asintotico_gramos: 700000,
            forma_curva: 196608,
            ritmo_curva: 524,
        },
    }
}

/// Los rasgos predeterminados son válidos y están dentro de los límites.
pub proof fn lema_predeterminados_validos(especie: Especie)
    ensures
        rasgos_predeterminados(especie).bien_formados(),
        rasgos_predeterminados(especie).dentro_de_limites(),
{
}

/// Construcción ejecutable de los rasgos predeterminados de una especie.
pub fn predeterminados_de(especie: Especie) -> (r: RasgosEspecie)
    ensures
        r == rasgos_predeterminados(especie),
        r.bien_formados(),
        r.dentro_de_limites(),
{
    match especie {
        Especie::Conejo => RasgosEspecie {
            edad_adulta: 90,
            edad_maxima: 2000,
            edad_sacrificio: 120,
            edad_inicial: 120,
            reproduccion_por_mil: 200,
            enfermedad_por_mil: 10,
            min_crias_por_parto: 1,
            max_crias_por_parto: 5,
            espacio_requerido: 1,
            comida_requerida_por_dia: 1,
            peso_asintotico_gramos: 5000,
            forma_curva: 163840,
            ritmo_curva: 3277,
        },
        Especie::Cabra => RasgosEspecie {
            edad_adulta: 365,
            edad_maxima: 5000,
            edad_sacrificio: 450,
            edad_inicial: 450,
            reproduccion_por_mil: 50,
            enfermedad_por_mil: 80,
            min_crias_por_parto: 1,
            max_crias_por_parto: 2,
            espacio_requerido: 5,
            comida_requerida_por_dia: 2,
            peso_asintotico_gramos: 75000,
            forma_curva: 183501,
            ritmo_curva: 655,
        },
        Especie::Vaca => RasgosEspecie {
            edad_adulta: 500,
            edad_maxima: 6000,
            edad_sacrificio: 600,
            edad_inicial: 600,
            reproduccion_por_mil: 20,
            enfermedad_por_mil: 50,
            min_crias_por_parto: 1,
            max_crias_por_parto: 1,
            espacio_requerido: 20,
            comida_requerida_por_dia: 10,
            peso_asintotico_gramos: 700000,
            forma_curva: 196608,
            ritmo_curva: 524,
        },
    }
}

/// Comportamiento de una especie: acceso a sus constantes y a su curva de
/// crecimiento.
pub trait ComportamientoAnimal {
    /// Rasgos que describen a este valor.
    spec fn rasgos_spec(&self) -> RasgosEspecie;

    /// Espacio que requiere un individuo.
    fn espacio_requerido(&self) -> (r: u32)
        ensures
            r == self.rasgos_spec().espacio_requerido,
    ;

    /// Comida diaria que requiere un individuo.
    fn comida_requerida_por_dia(&self) -> (r: u32)
        ensures
            r == self.rasgos_spec().comida_requerida_por_dia,
    ;

    /// Edad adulta en días.
    fn edad_adulta(&self) -> (r: u32)
        ensures
            r == self.rasgos_spec().edad_adulta,
    ;

    /// Edad máxima en días.
    fn edad_maxima(&self) -> (r: u32)
        ensures
            r == self.rasgos_spec().edad_maxima,
    ;

    /// Edad mínima para ser cazado, en días.
    fn edad_sacrificio(&self) -> (r: u32)
        ensures
            r == self.rasgos_spec().edad_sacrificio,
    ;

    /// Probabilidad diaria de reproducción, en milésimas.
    fn tasa_reproduccion_diaria(&self) -> (r: u32)
        ensures
            r == self.rasgos_spec().reproduccion_por_mil,
    ;

    /// Probabilidad diaria de enfermar, en milésimas.
    fn probabilidad_enfermedad(&self) -> (r: u32)
        ensures
            r == self.rasgos_spec().enfermedad_por_mil,
    ;

    /// Cantidad máxima de crías por parto.
    fn max_crias_por_parto(&self) -> (r: u8)
        ensures
            r == self.rasgos_spec().max_crias_por_parto,
    ;

    /// Peso en gramos a la edad dada, según la curva de la especie.
    fn calcular_peso(&self, edad_dias: u32) -> (r: u64)
        ensures
            r == self.rasgos_spec().peso_spec(edad_dias as int),
    ;
}

impl ComportamientoAnimal for Especie {
    open spec fn rasgos_spec(&self) -> RasgosEspecie {
        rasgos_predeterminados(*self)
    }

    fn espacio_requerido(&self) -> (r: u32)
        ensures
            r == self.rasgos_spec().espacio_requerido,
    {
        predeterminados_de(*self).espacio_requerido
    }

    fn comida_requerida_por_dia(&self) -> (r: u32)
        ensures
            r == self.rasgos_spec().comida_requerida_por_dia,
    {
        predeterminados_de(*self).comida_requerida_por_dia
    }

    fn edad_adulta(&self) -> (r: u32)
        ensures
            r == self.rasgos_spec().edad_adulta,
    {
        predeterminados_de(*self).edad_adulta
    }

    fn edad_maxima(&self) -> (r: u32)
        ensures
            r == self.rasgos_spec().edad_maxima,
    {
        predeterminados_de(*self).edad_maxima
    }

    fn edad_sacrificio(&self) -> (r: u32)
        ensures
            r == self.rasgos_spec().edad_sacrificio,
    {
        predeterminados_de(*self).edad_sacrificio
    }

    fn tasa_reproduccion_diaria(&self) -> (r: u32)
        ensures
            r == self.rasgos_spec().reproduccion_por_mil,
    {
        predeterminados_de(*self).reproduccion_por_mil
    }

    fn probabilidad_enfermedad(&self) -> (r: u32)
        ensures
            r == self.rasgos_spec().enfermedad_por_mil,
    {
        predeterminados_de(*self).enfermedad_por_mil
    }

    fn max_crias_por_parto(&self) -> (r: u8)
        ensures
            r == self.rasgos_spec().max_crias_por_parto,
    {
        predeterminados_de(*self).max_crias_por_parto
    }

    fn calcular_peso(&self, edad_dias: u32) -> (r: u64)
        ensures
            r == self.rasgos_spec().peso_spec(edad_dias as int),
    {
        let rasgos = predeterminados_de(*self);
        rasgos.peso_gramos(edad_dias)
    }
}

} // verus!
