//! Configuración del mundo: los rasgos de cada especie y los parámetros del
//! depredador se entregan al construir el mundo, no están cableados en el
//! motor. Una configuración malformada se rechaza al construir, nunca durante
//! un día de simulación.

use crate::animal::Animal;
use crate::especies::{predeterminados_de, rasgos_predeterminados, Especie, RasgosEspecie};
use vstd::prelude::*;

verus! {

/// Errores de configuración: la taxonomía es estrecha porque el dominio
/// tiene pocos estados ilegales.
#[derive(Clone, Copy, Debug, PartialEq, Eq, Structural)]
pub enum ErrorConfig {
    /// Alguna especie tiene cotas de camada no positivas o desordenadas.
    CamadaInvalida,
    /// Alguna especie tiene edad adulta no menor que la máxima, o edad de
    /// sacrificio menor que la adulta.
    EdadesInvalidas,
    /// Alguna probabilidad diaria queda fuera de [0, 1].
    ProbabilidadInvalida,
}

/// Parámetros completos de un mundo.
#[derive(Clone, Copy, Debug, PartialEq, Eq, Structural)]
pub struct ConfigMundo {
    /// Rasgos del conejo.
    pub conejo: RasgosEspecie,
    /// Rasgos de la cabra.
    pub cabra: RasgosEspecie,
    /// Rasgos de la vaca.
    pub vaca: RasgosEspecie,
    /// Edad máxima de un depredador, en días.
    pub edad_maxima_depredador: u32,
    /// Consumo mínimo diario de un depredador, en gramos.
    pub nivel_minimo_diario: u64,
    /// Consumo óptimo diario de un depredador, en gramos.
    pub nivel_optimo_diario: u64,
    /// Días seguidos sin alcanzar el mínimo que un depredador sobrevive.
    pub limite_dias_sin_comer: u32,
    /// Cantidad máxima de depredadores que admite el mundo.
    pub limite_depredadores: u32,
}

impl ConfigMundo {
    /// Rasgos de la especie dada.
    pub open spec fn rasgos_spec(self, especie: Especie) -> RasgosEspecie {
        match especie {
            Especie::Conejo => self.conejo,
            Especie::Cabra => self.cabra,
            Especie::Vaca => self.vaca,
        }
    }

    /// Acceso ejecutable a los rasgos de la especie dada.
    pub fn rasgos(&self, especie: Especie) -> (r: &RasgosEspecie)
        ensures
            *r == self.rasgos_spec(especie),
    {
        match especie {
            Especie::Conejo => &self.conejo,
            Especie::Cabra => &self.cabra,
            Especie::Vaca => &self.vaca,
        }
    }

    /// Las tres especies tienen cotas de camada válidas.
    pub open spec fn camadas_validas(self) -> bool {
        self.conejo.camada_valida() && self.cabra.camada_valida() && self.vaca.camada_valida()
    }

    /// Las tres especies tienen edades coherentes.
    pub open spec fn edades_validas(self) -> bool {
        self.conejo.edades_validas() && self.cabra.edades_validas() && self.vaca.edades_validas()
    }

    /// Las tres especies tienen probabilidades dentro de [0, 1].
    pub open spec fn probabilidades_validas(self) -> bool {
        self.conejo.probabilidades_validas() && self.cabra.probabilidades_validas()
            && self.vaca.probabilidades_validas()
    }

    /// Validez semántica completa de la configuración.
    pub open spec fn bien_formada(self) -> bool {
        self.camadas_validas() && self.edades_validas() && self.probabilidades_validas()
    }

    /// El mayor peso asintótico entre las especies: ninguna presa pesa más.
    pub open spec fn max_peso_asintotico(self) -> int {
        let c = self.conejo.peso_asintotico_gramos as int;
        let g = self.cabra.peso_asintotico_gramos as int;
        let v = self.vaca.peso_asintotico_gramos as int;
        if c >= g && c >= v {
            c
        } else if g >= v {
            g
        } else {
            v
        }
    }

    /// Límites de máquina de la configuración entera: las curvas se evalúan
    /// sin desborde y la reserva de un depredador nunca desborda al cazar.
    pub open spec fn dentro_de_limites(self) -> bool {
        &&& self.conejo.dentro_de_limites()
        &&& self.cabra.dentro_de_limites()
        &&& self.vaca.dentro_de_limites()
        &&& self.nivel_optimo_diario + self.max_peso_asintotico() <= u64::MAX
    }

    /// Si la presa alcanzó la edad de sacrificio de su especie y puede ser
    /// cazada bajo esta configuración.
    pub open spec fn presa_elegible(self, presa: Animal) -> bool {
        presa.edad_dias >= self.rasgos_spec(presa.especie).edad_sacrificio
    }

    /// Valida la configuración: `Ok` exactamente cuando está bien formada, y
    /// el error nombra la primera regla violada, comprobadas en el orden
    /// camadas, edades, probabilidades.
    pub fn validar(&self) -> (r: Result<(), ErrorConfig>)
        ensures
            r is Ok <==> self.bien_formada(),
            !self.bien_formada() ==> r == Result::<(), ErrorConfig>::Err(error_de_config(*self)),
    {
        if !(self.conejo.camada_ordenada() && self.cabra.camada_ordenada()
            && self.vaca.camada_ordenada()) {
            Result::Err(ErrorConfig::CamadaInvalida)
        } else if !(self.conejo.edades_coherentes() && self.cabra.edades_coherentes()
            && self.vaca.edades_coherentes()) {
            Result::Err(ErrorConfig::EdadesInvalidas)
        } else if !(self.conejo.probabilidades_en_rango() && self.cabra.probabilidades_en_rango()
            && self.vaca.probabilidades_en_rango()) {
            Result::Err(ErrorConfig::ProbabilidadInvalida)
        } else {
            Result::Ok(())
        }
    }
}

/// El error que una configuración mal formada produce: la primera regla
/// violada, en el orden camadas, edades, probabilidades.
pub open spec fn error_de_config(config: ConfigMundo) -> ErrorConfig {
    if !config.camadas_validas() {
        ErrorConfig::CamadaInvalida
    } else if !config.edades_validas() {
        ErrorConfig::EdadesInvalidas
    } else {
        ErrorConfig::ProbabilidadInvalida
    }
}

/// Configuración predeterminada: los rasgos predeterminados de cada especie
/// y el depredador clásico (un solo depredador, mínimo 1 kg, óptimo 3 kg,
/// edad máxima 4000 días, cinco días sin comer).
pub open spec fn config_predeterminada() -> ConfigMundo {
    ConfigMundo {
        conejo: rasgos_predeterminados(Especie::Conejo),
        cabra: rasgos_predeterminados(Especie::Cabra),
        vaca: rasgos_predeterminados(Especie::Vaca),
        edad_maxima_depredador: 4000,
        nivel_minimo_diario: 1000,
        nivel_optimo_diario: 3000,
        limite_dias_sin_comer: 5,
        limite_depredadores: 1,
    }
}

impl Default for ConfigMundo {
    /// Construye la configuración predeterminada.
    fn default() -> (r: ConfigMundo)
        ensures
            r == config_predeterminada(),
            r.bien_formada(),
            r.dentro_de_limites(),
    {
        ConfigMundo {
            conejo: predeterminados_de(Especie::Conejo),
            cabra: predeterminados_de(Especie::Cabra),
            vaca: predeterminados_de(Especie::Vaca),
            edad_maxima_depredador: 4000,
            nivel_minimo_diario: 1000,
            nivel_optimo_diario: 3000,
            limite_dias_sin_comer: 5,
            limite_depredadores: 1,
        }
    }
}

} // verus!
