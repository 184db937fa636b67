//! El mundo y su motor de simulación: posee las colecciones de presas y
//! depredadores, el contador de días y la fuente de azar, y avanza la
//! simulación un día por llamada con `paso_dia`.

use crate::animal::{crear_poblacion_inicial, Animal};
use crate::azar::{barajar_indices, generador_desde_entropia, generador_desde_semilla};
use crate::config::{config_predeterminada, error_de_config, ConfigMundo, ErrorConfig};
use crate::depredador::{supervivientes_tras_consumo, Depredador};
use crate::especies::{Especie, RasgosEspecie};
use crate::reporte::{
    cuenta_cazas, cuenta_especie, cuenta_muertes_depredador, cuenta_muertes_presa,
    lema_conteos_push, suma_nacimientos, CausaMuerteDepredador, EstadoDepredador, Evento, Reporte,
};
use rand::rngs::StdRng;
use vstd::pervasive::VecAdditionalExecFns;
use vstd::prelude::*;

verus! {

/// Los identificadores de las presas no se repiten.
pub open spec fn ids_presas_unicos(presas: Seq<Animal>) -> bool {
    forall|i: int, j: int|
        0 <= i < j < presas.len() ==> (#[trigger] presas[i]).id != (#[trigger] presas[j]).id
}

/// Los identificadores de los depredadores no se repiten.
pub open spec fn ids_depredadores_unicos(depredadores: Seq<Depredador>) -> bool {
    forall|i: int, j: int|
        0 <= i < j < depredadores.len() ==> (#[trigger] depredadores[i]).id != (
        #[trigger] depredadores[j]).id
}

/// El mundo de la simulación.
pub struct Mundo {
    /// Día actual; empieza en 0 y sube exactamente en uno por `paso_dia`.
    pub dia_actual: u64,
    /// Depredadores vivos.
    pub depredadores: Vec<Depredador>,
    /// Presas vivas. El orden dentro del vector no es significativo y ningún
    /// resultado de la simulación depende de él.
    pub presas: Vec<Animal>,
    /// Contador de identificadores de presas ya emitidos; nunca se reutilizan.
    pub contador_animales: u64,
    /// Contador de identificadores de depredadores ya emitidos.
    pub contador_depredadores: u32,
    /// Configuración con la que se construyó el mundo.
    pub config: ConfigMundo,
    /// Fuente de azar del mundo; sembrable para corridas reproducibles.
    pub generador: StdRng,
}

impl Mundo {
    /// Toda presa es coherente con la configuración: peso dictado por la
    /// curva, edad con margen para envejecer e identificador ya emitido.
    pub open spec fn presas_validas(self) -> bool {
        &&& forall|i: int|
            0 <= i < self.presas@.len() ==> {
                let a = #[trigger] self.presas@[i];
                &&& a.edad_dias < u32::MAX
                &&& a.peso_coherente(self.config.rasgos_spec(a.especie))
                &&& a.peso_gramos <= self.config.max_peso_asintotico()
                &&& 1 <= a.id <= self.contador_animales
            }
        &&& ids_presas_unicos(self.presas@)
    }

    /// Todo depredador lleva los umbrales y límites de la configuración, con
    /// edad y racha con margen y la reserva acotada.
    pub open spec fn depredadores_validos(self) -> bool {
        &&& forall|i: int|
            0 <= i < self.depredadores@.len() ==> {
                let d = #[trigger] self.depredadores@[i];
                &&& d.edad_dias < u32::MAX
                &&& d.dias_sin_comer < u32::MAX
                &&& d.edad_maxima == self.config.edad_maxima_depredador
                &&& d.nivel_minimo_diario == self.config.nivel_minimo_diario
                &&& d.nivel_optimo_diario == self.config.nivel_optimo_diario
                &&& d.limite_dias_sin_comer == self.config.limite_dias_sin_comer
                &&& d.reserva_gramos <= self.config.nivel_optimo_diario
                    + self.config.max_peso_asintotico()
                &&& d.id < self.contador_depredadores
            }
        &&& ids_depredadores_unicos(self.depredadores@)
    }

    /// Invariante del mundo: configuración válida y dentro de límites, y
    /// colecciones coherentes con ella.
    pub open spec fn invariante(self) -> bool {
        &&& self.config.bien_formada()
        &&& self.config.dentro_de_limites()
        &&& self.presas_validas()
        &&& self.depredadores_validos()
    }

    /// Mundo vacío con la configuración predeterminada y azar del sistema.
    pub fn new() -> (r: Mundo)
        ensures
            r.dia_actual == 0,
            r.depredadores@.len() == 0,
            r.presas@.len() == 0,
            r.contador_animales == 0,
            r.contador_depredadores == 0,
            r.config == config_predeterminada(),
            r.invariante(),
    {
        Mundo {
            dia_actual: 0,
            depredadores: Vec::new(),
            presas: Vec::new(),
            contador_animales: 0,
            contador_depredadores: 0,
            config: ConfigMundo::default(),
            generador: generador_desde_entropia(),
        }
    }

    /// Mundo vacío con la configuración dada y azar sembrado, para corridas
    /// reproducibles. Una configuración mal formada se rechaza aquí con su
    /// primer error; durante un día de simulación ya no hay errores.
    pub fn con_config(config: ConfigMundo, semilla: u64) -> (r: Result<Mundo, ErrorConfig>)
        requires
            config.dentro_de_limites(),
        ensures
            r is Ok <==> config.bien_formada(),
            !config.bien_formada() ==> r == Result::<Mundo, ErrorConfig>::Err(
                error_de_config(config),
            ),
            r is Ok ==> {
                let m = r->Ok_0;
                &&& m.dia_actual == 0
                &&& m.depredadores@.len() == 0
                &&& m.presas@.len() == 0
                &&& m.contador_animales == 0
                &&& m.contador_depredadores == 0
                &&& m.config == config
                &&& m.invariante()
            },
    {
        match config.validar() {
            Result::Ok(()) => Result::Ok(
                Mundo {
                    dia_actual: 0,
                    depredadores: Vec::new(),
                    presas: Vec::new(),
                    contador_animales: 0,
                    contador_depredadores: 0,
                    config,
                    generador: generador_desde_semilla(semilla),
                },
            ),
            Result::Err(e) => Result::Err(e),
        }
    }

    /// Día actual de la simulación.
    pub fn numero_dia(&self) -> (r: u64)
        ensures
            r == self.dia_actual,
    {
        self.dia_actual
    }

    /// Presas vivas en este momento.
    pub fn total_presas(&self) -> (r: usize)
        ensures
            r == self.presas@.len(),
    {
        self.presas.len()
    }

    /// Depredadores vivos en este momento.
    pub fn total_depredadores(&self) -> (r: usize)
        ensures
            r == self.depredadores@.len(),
    {
        self.depredadores.len()
    }

    /// Presas vivas de la especie dada.
    pub fn presas_de_especie(&self, especie: Especie) -> (r: usize)
        ensures
            r == cuenta_especie(self.presas@, especie),
    {
        crate::reporte::contar_especie(&self.presas, especie)
    }

    /// Agrega depredadores recién nacidos, hasta el límite que fija la
    /// configuración; los que no caben no se crean.
    pub fn agregar_depredadores(&mut self, cantidad: u32)
        requires
            old(self).invariante(),
            old(self).contador_depredadores + cantidad <= u32::MAX,
        ensures
            final(self).invariante(),
            final(self).config == old(self).config,
            final(self).dia_actual == old(self).dia_actual,
            final(self).presas == old(self).presas,
            final(self).contador_animales == old(self).contador_animales,
            final(self).depredadores@.len() == old(self).depredadores@.len() + cupo_depredadores(
                old(self).config,
                old(self).depredadores@.len() as int,
                cantidad as int,
            ),
            final(self).contador_depredadores == old(self).contador_depredadores
                + cupo_depredadores(
                old(self).config,
                old(self).depredadores@.len() as int,
                cantidad as int,
            ),
            forall|i: int|
                0 <= i < old(self).depredadores@.len() ==> final(self).depredadores@[i] == old(self).depredadores@[i],
            forall|i: int|
                old(self).depredadores@.len() <= i < final(self).depredadores@.len() ==> final(self).depredadores@[i] == (Depredador {
                    id: (old(self).contador_depredadores + (i - old(self).depredadores@.len())) as u32,
                    edad_dias: 0,
                    edad_maxima: old(self).config.edad_maxima_depredador,
                    reserva_gramos: 0,
                    dias_sin_comer: 0,
                    nivel_minimo_diario: old(self).config.nivel_minimo_diario,
                    nivel_optimo_diario: old(self).config.nivel_optimo_diario,
                    limite_dias_sin_comer: old(self).config.limite_dias_sin_comer,
                }),
    {
        let actuales: usize = self.depredadores.len();
        let limite: usize = self.config.limite_depredadores as usize;
        let espacio: usize = if actuales >= limite {
            0
        } else {
            limite - actuales
        };
        let agregar: usize = if (cantidad as usize) <= espacio {
            cantidad as usize
        } else {
            espacio
        };
        let mut restantes: usize = agregar;
        while restantes > 0
            invariant
                restantes <= agregar,
                agregar == cupo_depredadores(
                    old(self).config,
                    old(self).depredadores@.len() as int,
                    cantidad as int,
                ),
                old(self).contador_depredadores + cantidad <= u32::MAX,
                agregar <= cantidad,
                self.config == old(self).config,
                self.dia_actual == old(self).dia_actual,
                self.presas == old(self).presas,
                self.contador_animales == old(self).contador_animales,
                self.invariante(),
                self.depredadores@.len() == old(self).depredadores@.len() + (agregar - restantes),
                self.contador_depredadores == old(self).contador_depredadores + (agregar
                    - restantes),
                forall|i: int|
                    0 <= i < old(self).depredadores@.len() ==> self.depredadores@[i] == old(self).depredadores@[i],
                forall|i: int|
                    old(self).depredadores@.len() <= i < self.depredadores@.len()
                        ==> self.depredadores@[i] == (Depredador {
                        id: (old(self).contador_depredadores + (i - old(self).depredadores@.len())) as u32,
                        edad_dias: 0,
                        edad_maxima: old(self).config.edad_maxima_depredador,
                        reserva_gramos: 0,
                        dias_sin_comer: 0,
                        nivel_minimo_diario: old(self).config.nivel_minimo_diario,
                        nivel_optimo_diario: old(self).config.nivel_optimo_diario,
                        limite_dias_sin_comer: old(self).config.limite_dias_sin_comer,
                    }),
            decreases restantes,
        {
            let nuevo = Depredador::con_config(self.contador_depredadores, &self.config);
            self.depredadores.push(nuevo);
            self.contador_depredadores = self.contador_depredadores + 1;
            restantes = restantes - 1;
        }
    }

    /// Agrega `cantidad` presas de la especie, con la edad inicial que fijan
    /// sus rasgos, sexo sorteado e identificadores nuevos y consecutivos.
    pub fn agregar_presas(&mut self, especie: Especie, cantidad: u32)
        requires
            old(self).invariante(),
            old(self).contador_animales + cantidad <= u64::MAX,
        ensures
            final(self).invariante(),
            final(self).config == old(self).config,
            final(self).dia_actual == old(self).dia_actual,
            final(self).depredadores == old(self).depredadores,
            final(self).contador_depredadores == old(self).contador_depredadores,
            final(self).contador_animales == old(self).contador_animales + cantidad,
            final(self).presas@.len() == old(self).presas@.len() + cantidad,
            forall|i: int|
                0 <= i < old(self).presas@.len() ==> final(self).presas@[i] == old(self).presas@[i],
            forall|i: int|
                old(self).presas@.len() <= i < final(self).presas@.len() ==> {
                    let a = #[trigger] final(self).presas@[i];
                    &&& a.especie == especie
                    &&& a.id == old(self).contador_animales + 1 + (i - old(self).presas@.len())
                    &&& a.edad_dias == old(self).config.rasgos_spec(especie).edad_inicial
                    &&& a.peso_coherente(old(self).config.rasgos_spec(especie))
                },
            forall|e: Especie|
                cuenta_especie(final(self).presas@, e) == cuenta_especie(old(self).presas@, e) + (
                if e == especie {
                    cantidad as int
                } else {
                    0int
                }),
    {
        let mut restantes: u32 = cantidad;
        while restantes > 0
            invariant
                restantes <= cantidad,
                old(self).contador_animales + cantidad <= u64::MAX,
                self.config == old(self).config,
                self.dia_actual == old(self).dia_actual,
                self.depredadores == old(self).depredadores,
                self.contador_depredadores == old(self).contador_depredadores,
                self.invariante(),
                self.contador_animales == old(self).contador_animales + (cantidad - restantes),
                self.presas@.len() == old(self).presas@.len() + (cantidad - restantes),
                forall|i: int|
                    0 <= i < old(self).presas@.len() ==> self.presas@[i] == old(self).presas@[i],
                forall|i: int|
                    old(self).presas@.len() <= i < self.presas@.len() ==> {
                        let a = #[trigger] self.presas@[i];
                        &&& a.especie == especie
                        &&& a.id == old(self).contador_animales + 1 + (i - old(self).presas@.len())
                        &&& a.edad_dias == old(self).config.rasgos_spec(especie).edad_inicial
                        &&& a.peso_coherente(old(self).config.rasgos_spec(especie))
                    },
                forall|e: Especie|
                    cuenta_especie(self.presas@, e) == cuenta_especie(old(self).presas@, e) + (
                    if e == especie {
                        (cantidad - restantes) as int
                    } else {
                        0int
                    }),
            decreases restantes,
        {
            let rasgos: RasgosEspecie = *self.config.rasgos(especie);
            let sexo = if crate::azar::sorteo_por_mil(&mut self.generador, 500) {
                crate::especies::Sexo::Macho
            } else {
                crate::especies::Sexo::Hembra
            };
            self.contador_animales = self.contador_animales + 1;
            let nueva = Animal::new(self.contador_animales, especie, rasgos.edad_inicial, sexo, &rasgos);
            proof {
                crate::especies::lema_peso_spec_rango(rasgos, rasgos.edad_inicial as int);
                let ghost previas = self.presas@;
                assert forall|e: Especie|
                    cuenta_especie(previas.push(nueva), e) == cuenta_especie(previas, e) + (
                    if e == especie {
                        1int
                    } else {
                        0int
                    }) by {
                    crate::reporte::lema_cuenta_especie_push(previas, nueva, e);
                }
            }
            self.presas.push(nueva);
            restantes = restantes - 1;
        }
    }

    /// Crea la población inicial de una especie con edades variadas y la
    /// agrega al mundo.
    pub fn poblar_inicial(&mut self, especie: Especie, cantidad: u32)
        requires
            old(self).invariante(),
            old(self).contador_animales + cantidad < u64::MAX,
            old(self).config.rasgos_spec(especie).edad_adulta <= u32::MAX - 30,
        ensures
            final(self).invariante(),
            final(self).config == old(self).config,
            final(self).dia_actual == old(self).dia_actual,
            final(self).depredadores == old(self).depredadores,
            final(self).contador_depredadores == old(self).contador_depredadores,
            final(self).contador_animales == old(self).contador_animales + cantidad,
            final(self).presas@.len() == old(self).presas@.len() + cantidad,
            forall|i: int|
                0 <= i < old(self).presas@.len() ==> final(self).presas@[i] == old(self).presas@[i],
            forall|i: int|
                old(self).presas@.len() <= i < final(self).presas@.len() ==> (#[trigger] final(self).presas@[i]).especie == especie,
    {
        let rasgos: RasgosEspecie = *self.config.rasgos(especie);
        let mut contador = self.contador_animales;
        // los identificadores emitidos empiezan en contador + 1
        contador = contador + 1;
        let nuevas = crear_poblacion_inicial(
            cantidad,
            especie,
            &mut contador,
            &rasgos,
            &mut self.generador,
        );
        self.contador_animales = self.contador_animales + cantidad as u64;
        let mut k: usize = 0;
        while k < nuevas.len()
            invariant
                k <= nuevas@.len(),
                nuevas@.len() == cantidad,
                self.config == old(self).config,
                self.dia_actual == old(self).dia_actual,
                self.depredadores == old(self).depredadores,
                self.contador_depredadores == old(self).contador_depredadores,
                self.contador_animales == old(self).contador_animales + cantidad,
                old(self).contador_animales + cantidad < u64::MAX,
                self.invariante(),
                forall|i: int|
                    0 <= i < nuevas@.len() ==> {
                        let a = #[trigger] nuevas@[i];
                        &&& a.especie == especie
                        &&& a.id == old(self).contador_animales + 1 + i
                        &&& a.edad_dias < u32::MAX
                        &&& a.peso_coherente(old(self).config.rasgos_spec(especie))
                    },
                self.presas@.len() == old(self).presas@.len() + k,
                forall|i: int|
                    0 <= i < old(self).presas@.len() ==> self.presas@[i] == old(self).presas@[i],
                forall|i: int|
                    0 <= i < old(self).presas@.len() ==> (#[trigger] old(self).presas@[i]).id <= old(self).contador_animales,
                forall|i: int|
                    old(self).presas@.len() <= i < self.presas@.len() ==> self.presas@[i]
                        == nuevas@[i - old(self).presas@.len()],
            decreases nuevas@.len() - k,
        {
            let a = nuevas[k];
            proof {
                crate::especies::lema_peso_spec_rango(
                    old(self).config.rasgos_spec(especie),
                    a.edad_dias as int,
                );
            }
            self.presas.push(a);
            k = k + 1;
        }
    }
}

/// Construye un mundo con su población inicial: la cantidad pedida de
/// depredadores (recortada por el límite de la configuración) y las
/// cantidades por especie de presas, cada una a la edad inicial de sus
/// rasgos. Una configuración mal formada se rechaza con su primer error.
pub fn crear_mundo(
    config: ConfigMundo,
    semilla: u64,
    cantidad_depredadores: u32,
    conejos: u32,
    cabras: u32,
    vacas: u32,
) -> (r: Result<Mundo, ErrorConfig>)
    requires
        config.dentro_de_limites(),
    ensures
        r is Ok <==> config.bien_formada(),
        !config.bien_formada() ==> r == Result::<Mundo, ErrorConfig>::Err(error_de_config(config)),
        r is Ok ==> {
            let m = r->Ok_0;
            &&& m.invariante()
            &&& m.dia_actual == 0
            &&& m.config == config
            &&& m.depredadores@.len() == cupo_depredadores(config, 0, cantidad_depredadores as int)
            &&& m.presas@.len() == conejos + cabras + vacas
            &&& cuenta_especie(m.presas@, Especie::Conejo) == conejos
            &&& cuenta_especie(m.presas@, Especie::Cabra) == cabras
            &&& cuenta_especie(m.presas@, Especie::Vaca) == vacas
        },
{
    match Mundo::con_config(config, semilla) {
        Result::Ok(mut mundo) => {
            proof {
                reveal(Seq::filter);
                assert(cuenta_especie(mundo.presas@, Especie::Conejo) == 0);
                assert(cuenta_especie(mundo.presas@, Especie::Cabra) == 0);
                assert(cuenta_especie(mundo.presas@, Especie::Vaca) == 0);
            }
            mundo.agregar_depredadores(cantidad_depredadores);
            mundo.agregar_presas(Especie::Conejo, conejos);
            mundo.agregar_presas(Especie::Cabra, cabras);
            mundo.agregar_presas(Especie::Vaca, vacas);
            Result::Ok(mundo)
        },
        Result::Err(e) => Result::Err(e),
    }
}

/// Cuántos depredadores caben aún: lo pedido, recortado por el límite de la
/// configuración.
pub open spec fn cupo_depredadores(config: ConfigMundo, actuales: int, cantidad: int) -> int {
    let espacio = config.limite_depredadores - actuales;
    if espacio <= 0 {
        0
    } else if cantidad <= espacio {
        cantidad
    } else {
        espacio
    }
}

/// El depredador lleva los umbrales y límites de la configuración.
pub open spec fn depredador_de_config(d: Depredador, config: ConfigMundo) -> bool {
    &&& d.edad_maxima == config.edad_maxima_depredador
    &&& d.nivel_minimo_diario == config.nivel_minimo_diario
    &&& d.nivel_optimo_diario == config.nivel_optimo_diario
    &&& d.limite_dias_sin_comer == config.limite_dias_sin_comer
}

/// La presa es coherente con la configuración: peso dictado por su curva y
/// acotado, y edad con margen para envejecer.
pub open spec fn presa_coherente_config(a: Animal, config: ConfigMundo) -> bool {
    &&& a.edad_dias < u32::MAX
    &&& a.peso_coherente(config.rasgos_spec(a.especie))
    &&& a.peso_gramos <= config.max_peso_asintotico()
}

/// Relación entre los depredadores al comenzar el día y después de la fase
/// de caza: misma identidad, umbrales y racha, un día más de edad, y una
/// reserva que solo pudo crecer con lo cazado.
pub open spec fn relacion_caza(antes: Seq<Depredador>, despues: Seq<Depredador>) -> bool {
    &&& despues.len() == antes.len()
    &&& forall|i: int|
        0 <= i < antes.len() ==> {
            let a = antes[i];
            let d = #[trigger] despues[i];
            &&& d.id == a.id
            &&& d.edad_dias == a.edad_dias + 1
            &&& d.dias_sin_comer == a.dias_sin_comer
            &&& d.edad_maxima == a.edad_maxima
            &&& d.nivel_minimo_diario == a.nivel_minimo_diario
            &&& d.nivel_optimo_diario == a.nivel_optimo_diario
            &&& d.limite_dias_sin_comer == a.limite_dias_sin_comer
            &&& d.reserva_gramos >= a.reserva_gramos
        }
}

/// Fase de caza de un día: envejece a los depredadores, los recorre en un
/// orden barajado y deja que cada uno que lo necesite cace a lo sumo una
/// presa elegible (la más pesada), registrando cada caza como evento.
fn fase_caza(
    depredadores: &mut Vec<Depredador>,
    presas: &mut Vec<Animal>,
    config: &ConfigMundo,
    generador: &mut StdRng,
    eventos: &mut Vec<Evento>,
)
    requires
        config.bien_formada(),
        config.dentro_de_limites(),
        forall|i: int|
            0 <= i < old(depredadores)@.len() ==> {
                let d = #[trigger] old(depredadores)@[i];
                &&& d.edad_dias < u32::MAX
                &&& depredador_de_config(d, *config)
                &&& d.reserva_gramos <= config.nivel_optimo_diario + config.max_peso_asintotico()
            },
        forall|i: int|
            0 <= i < old(presas)@.len() ==> presa_coherente_config(
                #[trigger] old(presas)@[i],
                *config,
            ),
        ids_presas_unicos(old(presas)@),
    ensures
        relacion_caza(old(depredadores)@, final(depredadores)@),
        forall|i: int|
            0 <= i < final(depredadores)@.len() ==> (#[trigger] final(depredadores)@[i]).reserva_gramos <= config.nivel_optimo_diario + config.max_peso_asintotico(),
        final(presas)@.len() <= old(presas)@.len(),
        old(presas)@.len() - final(presas)@.len() <= old(depredadores)@.len(),
        forall|i: int|
            0 <= i < final(presas)@.len() ==> old(presas)@.contains(#[trigger] final(presas)@[i]),
        forall|i: int|
            0 <= i < final(presas)@.len() ==> presa_coherente_config(
                #[trigger] final(presas)@[i],
                *config,
            ),
        ids_presas_unicos(final(presas)@),
        cuenta_cazas(final(eventos)@) == cuenta_cazas(old(eventos)@) + (old(presas)@.len() - final(presas)@.len()),
        cuenta_muertes_depredador(final(eventos)@) == cuenta_muertes_depredador(old(eventos)@),
        cuenta_muertes_presa(final(eventos)@) == cuenta_muertes_presa(old(eventos)@),
        suma_nacimientos(final(eventos)@) == suma_nacimientos(old(eventos)@),
{
    let ghost antes = depredadores@;
    let ghost eventos0 = eventos@;
    // Envejecer a cada depredador.
    let mut i: usize = 0;
    while i < depredadores.len()
        invariant
            i <= depredadores@.len(),
            depredadores@.len() == antes.len(),
            forall|j: int|
                0 <= j < antes.len() ==> (#[trigger] antes[j]).edad_dias < u32::MAX,
            forall|j: int| 0 <= j < i ==> depredadores@[j] == (#[trigger] antes[j]).envejecido(),
            forall|j: int| i <= j < antes.len() ==> #[trigger] depredadores@[j] == antes[j],
        decreases antes.len() - i,
    {
        let mut d = depredadores[i];
        d.envejecer_un_dia();
        depredadores.set(i, d);
        i = i + 1;
    }
    // Orden barajado de los índices, para que ningún depredador tenga
    // prioridad fija de caza; con un solo depredador es inocuo.
    let mut orden: Vec<usize> = Vec::new();
    let mut k: usize = 0;
    while k < depredadores.len()
        invariant
            orden@.len() == k,
            k <= depredadores@.len(),
            forall|t: int| 0 <= t < k ==> #[trigger] orden@[t] == t,
        decreases depredadores@.len() - k,
    {
        orden.push(k);
        k = k + 1;
    }
    let ghost consecutivos = orden@;
    barajar_indices(generador, &mut orden);
    proof {
        consecutivos.to_multiset_ensures();
        orden@.to_multiset_ensures();
        assert forall|t: int| 0 <= t < orden@.len() implies #[trigger] orden@[t]
            < depredadores@.len() by {
            assert(orden@.contains(orden@[t]));
            assert(orden@.to_multiset().count(orden@[t]) > 0);
            assert(consecutivos.contains(orden@[t]));
        }
    }
    // Cada depredador, en ese orden, intenta cazar una presa si lo necesita.
    proof {
        assert(relacion_caza(antes, depredadores@));
    }
    let ghost presas_antes = presas@;
    let mut h: usize = 0;
    while h < orden.len()
        invariant
            config.bien_formada(),
            config.dentro_de_limites(),
            h <= orden@.len(),
            forall|t: int| 0 <= t < orden@.len() ==> #[trigger] orden@[t] < depredadores@.len(),
            depredadores@.len() == antes.len(),
            relacion_caza(antes, depredadores@),
            forall|j: int|
                0 <= j < antes.len() ==> {
                    let d = #[trigger] antes[j];
                    &&& depredador_de_config(d, *config)
                    &&& d.reserva_gramos <= config.nivel_optimo_diario
                        + config.max_peso_asintotico()
                },
            forall|j: int|
                0 <= j < depredadores@.len() ==> (#[trigger] depredadores@[j]).reserva_gramos
                    <= config.nivel_optimo_diario + config.max_peso_asintotico(),
            presas@.len() <= presas_antes.len(),
            presas_antes.len() - presas@.len() <= h,
            forall|j: int|
                0 <= j < presas@.len() ==> presas_antes.contains(#[trigger] presas@[j]),
            forall|j: int|
                0 <= j < presas@.len() ==> presa_coherente_config(#[trigger] presas@[j], *config),
            ids_presas_unicos(presas@),
            cuenta_cazas(eventos@) == cuenta_cazas(eventos0) + (presas_antes.len()
                - presas@.len()),
            cuenta_muertes_depredador(eventos@) == cuenta_muertes_depredador(eventos0),
            cuenta_muertes_presa(eventos@) == cuenta_muertes_presa(eventos0),
            suma_nacimientos(eventos@) == suma_nacimientos(eventos0),
        decreases orden@.len() - h,
    {
        let idx = orden[h];
        let mut dep = depredadores[idx];
        if dep.necesita_cazar() {
            proof {
                assert(depredador_de_config(antes[idx as int], *config));
                assert(dep.nivel_optimo_diario == config.nivel_optimo_diario);
                assert forall|t: int| #![trigger presas@[t]] 0 <= t < presas@.len() implies
                    dep.reserva_gramos + presas@[t].peso_gramos <= u64::MAX by {
                    assert(presa_coherente_config(presas@[t], *config));
                }
            }
            let ghost presas_previas = presas@;
            let resultado = dep.cazar_mas_pesada(presas, config, generador);
            depredadores.set(idx, dep);
            match resultado {
                Option::Some(presa) => {
                    let evento = Evento::Caza {
                        depredador: dep.id,
                        presa: presa.id,
                        especie: presa.especie,
                        peso_gramos: presa.peso_gramos,
                        edad_dias: presa.edad_dias,
                    };
                    proof {
                        lema_conteos_push(eventos@, evento);
                    }
                    eventos.push(evento);
                    proof {
                        let j = choose|j: int|
                            0 <= j < presas_previas.len() && presas_previas[j] == presa
                                && presas@ == presas_previas.remove(j);
                        assert forall|t: int|
                            0 <= t < presas@.len() implies presas_antes.contains(
                            #[trigger] presas@[t],
                        ) by {
                            let t0: int = if t < j { t } else { t + 1 };
                            assert(presas@[t] == presas_previas[t0]);
                            assert(presas_antes.contains(presas_previas[t0]));
                        }
                        assert forall|t1: int, t2: int| 0 <= t1 < t2 < presas@.len() implies (
                        #[trigger] presas@[t1]).id != (#[trigger] presas@[t2]).id by {
                            let s1: int = if t1 < j { t1 } else { t1 + 1 };
                            let s2: int = if t2 < j { t2 } else { t2 + 1 };
                            assert(presas@[t1] == presas_previas[s1]);
                            assert(presas@[t2] == presas_previas[s2]);
                        }
                    }
                },
                Option::None => {},
            }
        }
        h = h + 1;
    }
}

/// Al extender la fila de depredadores en uno, los supervivientes se
/// extienden con ese depredador ya consumido exactamente cuando queda vivo.
proof fn lema_supervivientes_push(antes: Seq<Depredador>, d: Depredador)
    ensures
        supervivientes_tras_consumo(antes.push(d)) == (if d.tras_consumo().vivo_spec() {
            supervivientes_tras_consumo(antes).push(d.tras_consumo())
        } else {
            supervivientes_tras_consumo(antes)
        }),
{
    assert(antes.push(d).drop_last() =~= antes);
    assert(antes.push(d).last() == d);
}

/// Fase de consumo y supervivencia: cada depredador consume su mínimo diario
/// o pierde su reserva y alarga su racha, y la colección queda reemplazada
/// por los supervivientes exactos, con un evento por alimentación y por
/// muerte (citando inanición o vejez).
fn fase_consumo(depredadores: &mut Vec<Depredador>, eventos: &mut Vec<Evento>)
    requires
        forall|i: int|
            0 <= i < old(depredadores)@.len() ==> (#[trigger] old(depredadores)@[i]).dias_sin_comer < u32::MAX,
        ids_depredadores_unicos(old(depredadores)@),
    ensures
        final(depredadores)@ == supervivientes_tras_consumo(old(depredadores)@),
        final(depredadores)@.len() <= old(depredadores)@.len(),
        forall|i: int|
            0 <= i < final(depredadores)@.len() ==> {
                let d = #[trigger] final(depredadores)@[i];
                &&& d.vivo_spec()
                &&& exists|j: int|
                    0 <= j < old(depredadores)@.len() && d == old(depredadores)@[j].tras_consumo()
            },
        ids_depredadores_unicos(final(depredadores)@),
        cuenta_muertes_depredador(final(eventos)@) == cuenta_muertes_depredador(old(eventos)@) + (
        old(depredadores)@.len() - final(depredadores)@.len()),
        cuenta_cazas(final(eventos)@) == cuenta_cazas(old(eventos)@),
        cuenta_muertes_presa(final(eventos)@) == cuenta_muertes_presa(old(eventos)@),
        suma_nacimientos(final(eventos)@) == suma_nacimientos(old(eventos)@),
{
    let ghost antes = depredadores@;
    let ghost eventos0 = eventos@;
    let mut vivos: Vec<Depredador> = Vec::new();
    let mut i: usize = 0;
    while i < depredadores.len()
        invariant
            i <= antes.len(),
            depredadores@ == antes,
            forall|j: int|
                0 <= j < antes.len() ==> (#[trigger] antes[j]).dias_sin_comer < u32::MAX,
            ids_depredadores_unicos(antes),
            vivos@ == supervivientes_tras_consumo(antes.take(i as int)),
            vivos@.len() <= i,
            forall|t: int|
                0 <= t < vivos@.len() ==> {
                    let d = #[trigger] vivos@[t];
                    &&& d.vivo_spec()
                    &&& exists|j: int| 0 <= j < i && d == antes[j].tras_consumo()
                },
            ids_depredadores_unicos(vivos@),
            cuenta_muertes_depredador(eventos@) == cuenta_muertes_depredador(eventos0) + (i
                - vivos@.len()),
            cuenta_cazas(eventos@) == cuenta_cazas(eventos0),
            cuenta_muertes_presa(eventos@) == cuenta_muertes_presa(eventos0),
            suma_nacimientos(eventos@) == suma_nacimientos(eventos0),
        decreases antes.len() - i,
    {
        let mut d = depredadores[i];
        let comio = d.consumir_diario();
        if comio {
            let evento = Evento::DepredadorAlimentado {
                depredador: d.id,
                consumido_gramos: d.nivel_minimo_diario,
                reserva_gramos: d.reserva_gramos,
            };
            proof {
                lema_conteos_push(eventos@, evento);
            }
            eventos.push(evento);
        } else {
            let evento = Evento::DepredadorSinComer {
                depredador: d.id,
                dias_sin_comer: d.dias_sin_comer,
                reserva_gramos: d.reserva_gramos,
            };
            proof {
                lema_conteos_push(eventos@, evento);
            }
            eventos.push(evento);
        }
        proof {
            assert(antes.take(i + 1) =~= antes.take(i as int).push(antes[i as int]));
            lema_supervivientes_push(antes.take(i as int), antes[i as int]);
        }
        if d.esta_vivo() {
            proof {
                assert forall|t: int| 0 <= t < vivos@.len() implies (#[trigger] vivos@[t]).id
                    != d.id by {
                    let j = choose|j: int| 0 <= j < i && vivos@[t] == antes[j].tras_consumo();
                    assert(antes[j].id != antes[i as int].id);
                }
            }
            vivos.push(d);
        } else {
            let causa = if d.dias_sin_comer >= d.limite_dias_sin_comer {
                CausaMuerteDepredador::Inanicion
            } else {
                CausaMuerteDepredador::Vejez
            };
            let evento = Evento::MuerteDepredador {
                depredador: d.id,
                causa,
                edad_dias: d.edad_dias,
                dias_sin_comer: d.dias_sin_comer,
            };
            proof {
                lema_conteos_push(eventos@, evento);
            }
            eventos.push(evento);
        }
        i = i + 1;
    }
    proof {
        assert(antes.take(antes.len() as int) =~= antes);
    }
    *depredadores = vivos;
}

/// Fase de presas: cada presa envejece un día y sortea la enfermedad de su
/// especie; las enfermas se retiran con su evento, y luego se retira con el
/// suyo toda presa cuya edad alcanzó la máxima de su especie.
fn fase_presas(
    presas: &mut Vec<Animal>,
    config: &ConfigMundo,
    generador: &mut StdRng,
    eventos: &mut Vec<Evento>,
)
    requires
        config.bien_formada(),
        config.dentro_de_limites(),
        forall|i: int|
            0 <= i < old(presas)@.len() ==> presa_coherente_config(
                #[trigger] old(presas)@[i],
                *config,
            ),
        ids_presas_unicos(old(presas)@),
    ensures
        final(presas)@.len() <= old(presas)@.len(),
        forall|i: int|
            0 <= i < final(presas)@.len() ==> {
                let a = #[trigger] final(presas)@[i];
                &&& exists|j: int|
                    0 <= j < old(presas)@.len() && a == (#[trigger] old(presas)@[j]).envejecido(
                        config.rasgos_spec(old(presas)@[j].especie),
                    )
                &&& a.edad_dias < config.rasgos_spec(a.especie).edad_maxima
                &&& presa_coherente_config(a, *config)
            },
        ids_presas_unicos(final(presas)@),
        cuenta_muertes_presa(final(eventos)@) == cuenta_muertes_presa(old(eventos)@) + (old(presas)@.len() - final(presas)@.len()),
        cuenta_cazas(final(eventos)@) == cuenta_cazas(old(eventos)@),
        cuenta_muertes_depredador(final(eventos)@) == cuenta_muertes_depredador(old(eventos)@),
        suma_nacimientos(final(eventos)@) == suma_nacimientos(old(eventos)@),
{
    let ghost antes = presas@;
    let ghost eventos0 = eventos@;
    // Envejecer y sortear enfermedad.
    let mut sanas: Vec<Animal> = Vec::new();
    let mut i: usize = 0;
    while i < presas.len()
        invariant
            config.bien_formada(),
            config.dentro_de_limites(),
            i <= antes.len(),
            presas@ == antes,
            forall|j: int|
                0 <= j < antes.len() ==> presa_coherente_config(#[trigger] antes[j], *config),
            ids_presas_unicos(antes),
            sanas@.len() <= i,
            forall|t: int|
                0 <= t < sanas@.len() ==> {
                    let a = #[trigger] sanas@[t];
                    &&& exists|j: int|
                        0 <= j < i && a == (#[trigger] antes[j]).envejecido(
                            config.rasgos_spec(antes[j].especie),
                        )
                    &&& a.peso_coherente(config.rasgos_spec(a.especie))
                    &&& a.peso_gramos <= config.max_peso_asintotico()
                },
            ids_presas_unicos(sanas@),
            cuenta_muertes_presa(eventos@) == cuenta_muertes_presa(eventos0) + (i - sanas@.len()),
            cuenta_cazas(eventos@) == cuenta_cazas(eventos0),
            cuenta_muertes_depredador(eventos@) == cuenta_muertes_depredador(eventos0),
            suma_nacimientos(eventos@) == suma_nacimientos(eventos0),
        decreases antes.len() - i,
    {
        let mut a = presas[i];
        let rasgos: RasgosEspecie = *config.rasgos(a.especie);
        a.envejecer_un_dia(&rasgos);
        if a.verificar_enfermedad(&rasgos, generador) {
            let evento = Evento::MuertePorEnfermedad { presa: a.id, especie: a.especie };
            proof {
                lema_conteos_push(eventos@, evento);
            }
            eventos.push(evento);
        } else {
            proof {
                assert forall|t: int| 0 <= t < sanas@.len() implies (#[trigger] sanas@[t]).id
                    != a.id by {
                    let j = choose|j: int|
                        0 <= j < i && sanas@[t] == antes[j].envejecido(
                            config.rasgos_spec(antes[j].especie),
                        );
                    assert(antes[j].id != antes[i as int].id);
                }
            }
            sanas.push(a);
        }
        i = i + 1;
    }
    // Retirar por vejez.
    let ghost envejecidas = sanas@;
    let mut vigentes: Vec<Animal> = Vec::new();
    let mut k: usize = 0;
    while k < sanas.len()
        invariant
            config.bien_formada(),
            config.dentro_de_limites(),
            k <= envejecidas.len(),
            sanas@ == envejecidas,
            forall|t: int|
                0 <= t < envejecidas.len() ==> {
                    let a = #[trigger] envejecidas[t];
                    &&& exists|j: int|
                        0 <= j < antes.len() && a == (#[trigger] antes[j]).envejecido(
                            config.rasgos_spec(antes[j].especie),
                        )
                    &&& a.peso_coherente(config.rasgos_spec(a.especie))
                    &&& a.peso_gramos <= config.max_peso_asintotico()
                },
            ids_presas_unicos(envejecidas),
            vigentes@.len() <= k,
            forall|t: int|
                0 <= t < vigentes@.len() ==> {
                    let a = #[trigger] vigentes@[t];
                    &&& exists|j: int|
                        0 <= j < antes.len() && a == (#[trigger] antes[j]).envejecido(
                            config.rasgos_spec(antes[j].especie),
                        )
                    &&& a.edad_dias < config.rasgos_spec(a.especie).edad_maxima
                    &&& presa_coherente_config(a, *config)
                    &&& exists|s: int| 0 <= s < k && a == envejecidas[s]
                },
            ids_presas_unicos(vigentes@),
            cuenta_muertes_presa(eventos@) == cuenta_muertes_presa(eventos0) + (antes.len()
                - envejecidas.len()) + (k - vigentes@.len()),
            cuenta_cazas(eventos@) == cuenta_cazas(eventos0),
            cuenta_muertes_depredador(eventos@) == cuenta_muertes_depredador(eventos0),
            suma_nacimientos(eventos@) == suma_nacimientos(eventos0),
        decreases envejecidas.len() - k,
    {
        let a = sanas[k];
        let rasgos = config.rasgos(a.especie);
        if a.edad_dias < rasgos.edad_maxima {
            proof {
                assert forall|t: int| 0 <= t < vigentes@.len() implies (#[trigger] vigentes@[t]).id
                    != a.id by {
                    let s = choose|s: int| 0 <= s < k && vigentes@[t] == envejecidas[s];
                    assert(envejecidas[s].id != envejecidas[k as int].id);
                }
            }
            vigentes.push(a);
        } else {
            let evento = Evento::MuertePorVejez { presa: a.id, especie: a.especie };
            proof {
                lema_conteos_push(eventos@, evento);
            }
            eventos.push(evento);
        }
        k = k + 1;
    }
    *presas = vigentes;
}

/// Fase de reproducción: cada hembra adulta sortea la probabilidad diaria de
/// su especie; si sale, el tamaño de la camada se sortea dentro de las cotas
/// de la especie y nacen esa cantidad de crías a edad 0 con sexo sorteado e
/// identificadores nuevos. Las crías se agregan recién al final, de modo que
/// no se reproducen ni son cazadas el día en que nacen.
fn fase_reproduccion(
    presas: &mut Vec<Animal>,
    contador_animales: &mut u64,
    config: &ConfigMundo,
    generador: &mut StdRng,
    eventos: &mut Vec<Evento>,
)
    requires
        config.bien_formada(),
        config.dentro_de_limites(),
        *old(contador_animales) + 255 * old(presas)@.len() <= u64::MAX,
    ensures
        *final(contador_animales) >= *old(contador_animales),
        *final(contador_animales) <= *old(contador_animales) + 255 * old(presas)@.len(),
        final(presas)@.len() == old(presas)@.len() + (*final(contador_animales) - *old(contador_animales)),
        final(presas)@.subrange(0, old(presas)@.len() as int) == old(presas)@,
        forall|i: int|
            old(presas)@.len() <= i < final(presas)@.len() ==> {
                let a = #[trigger] final(presas)@[i];
                &&& a.edad_dias == 0
                &&& *old(contador_animales) < a.id <= *final(contador_animales)
                &&& a.peso_coherente(config.rasgos_spec(a.especie))
                &&& a.peso_gramos <= config.max_peso_asintotico()
            },
        forall|i1: int, i2: int|
            old(presas)@.len() <= i1 < i2 < final(presas)@.len() ==> (#[trigger] final(presas)@[i1]).id < (#[trigger] final(presas)@[i2]).id,
        suma_nacimientos(final(eventos)@) == suma_nacimientos(old(eventos)@) + (final(presas)@.len()
            - old(presas)@.len()),
        cuenta_cazas(final(eventos)@) == cuenta_cazas(old(eventos)@),
        cuenta_muertes_depredador(final(eventos)@) == cuenta_muertes_depredador(old(eventos)@),
        cuenta_muertes_presa(final(eventos)@) == cuenta_muertes_presa(old(eventos)@),
{
    let ghost base = presas@;
    let ghost contador_base = *contador_animales;
    let mut nacidas: Vec<Animal> = Vec::new();
    let mut q: usize = 0;
    while q < presas.len()
        invariant
            config.bien_formada(),
            config.dentro_de_limites(),
            q <= base.len(),
            presas@ == base,
            contador_base + 255 * base.len() <= u64::MAX,
            *contador_animales == contador_base + nacidas@.len(),
            nacidas@.len() <= 255 * q,
            forall|t: int|
                0 <= t < nacidas@.len() ==> {
                    let a = #[trigger] nacidas@[t];
                    &&& a.edad_dias == 0
                    &&& a.id == contador_base + 1 + t
                    &&& a.peso_coherente(config.rasgos_spec(a.especie))
                    &&& a.peso_gramos <= config.max_peso_asintotico()
                },
        decreases base.len() - q,
    {
        let a = presas[q];
        let rasgos: RasgosEspecie = *config.rasgos(a.especie);
        if a.sexo == crate::especies::Sexo::Hembra && a.edad_dias >= rasgos.edad_adulta {
            if crate::azar::sorteo_por_mil(generador, rasgos.reproduccion_por_mil) {
                let camada = crate::azar::entero_en_rango(
                    generador,
                    rasgos.min_crias_por_parto as u32,
                    rasgos.max_crias_por_parto as u32,
                );
                let mut c: u32 = 0;
                while c < camada
                    invariant
                        config.bien_formada(),
                        config.dentro_de_limites(),
                        c <= camada,
                        camada <= 255,
                        q < base.len(),
                        presas@ == base,
                        contador_base + 255 * base.len() <= u64::MAX,
                        *contador_animales == contador_base + nacidas@.len(),
                        nacidas@.len() <= 255 * q + c,
                        rasgos == config.rasgos_spec(a.especie),
                        forall|t: int|
                            0 <= t < nacidas@.len() ==> {
                                let n = #[trigger] nacidas@[t];
                                &&& n.edad_dias == 0
                                &&& n.id == contador_base + 1 + t
                                &&& n.peso_coherente(config.rasgos_spec(n.especie))
                                &&& n.peso_gramos <= config.max_peso_asintotico()
                            },
                    decreases camada - c,
                {
                    proof {
                        assert(nacidas@.len() < 255 * base.len()) by (nonlinear_arith)
                            requires
                                nacidas@.len() <= 255 * q + c,
                                c < camada <= 255,
                                q < base.len(),
                        ;
                    }
                    *contador_animales = *contador_animales + 1;
                    let sexo = if crate::azar::sorteo_por_mil(generador, 500) {
                        crate::especies::Sexo::Macho
                    } else {
                        crate::especies::Sexo::Hembra
                    };
                    let cria = Animal::new(*contador_animales, a.especie, 0, sexo, &rasgos);
                    proof {
                        crate::especies::lema_peso_spec_rango(rasgos, 0);
                    }
                    nacidas.push(cria);
                    c = c + 1;
                }
            }
        }
        q = q + 1;
    }
    if nacidas.len() > 0 {
        let evento = Evento::Nacimientos { cantidad: nacidas.len() as u64 };
        proof {
            lema_conteos_push(eventos@, evento);
        }
        eventos.push(evento);
    }
    presas.append(&mut nacidas);
    proof {
        assert(presas@.subrange(0, base.len() as int) =~= base);
    }
}

impl Mundo {
    /// Avanza la simulación exactamente un día, en el orden fijo del motor:
    /// sube el contador de días, envejecen los depredadores, cada uno caza en
    /// un orden barajado, consume y pasa su control de supervivencia; luego
    /// las presas envejecen, sortean enfermedad, se retiran las que llegan a
    /// su edad máxima, y las hembras adultas se reproducen. Devuelve el
    /// reporte estructurado del día. La ausencia de presas elegibles, de
    /// depredadores o de nacimientos no es un error sino un estado válido.
    pub fn paso_dia(&mut self) -> (reporte: Reporte)
        requires
            old(self).invariante(),
            old(self).dia_actual < u64::MAX,
            old(self).contador_animales + 255 * old(self).presas@.len() <= u64::MAX,
        ensures
            final(self).invariante(),
            final(self).config == old(self).config,
            final(self).contador_depredadores == old(self).contador_depredadores,
            final(self).contador_animales >= old(self).contador_animales,
            final(self).dia_actual == old(self).dia_actual + 1,
            forall|i: int|
                0 <= i < final(self).presas@.len() ==> (#[trigger] final(self).presas@[i]).edad_dias < old(self).config.rasgos_spec(
                    final(self).presas@[i].especie,
                ).edad_maxima,
            forall|i: int|
                0 <= i < final(self).presas@.len() ==> {
                    let a = #[trigger] final(self).presas@[i];
                    ||| (a.edad_dias == 0 && a.id > old(self).contador_animales)
                    ||| (exists|j: int|
                        0 <= j < old(self).presas@.len() && (#[trigger] old(self).presas@[j]).id == a.id && a.edad_dias == old(self).presas@[j].edad_dias
                            + 1 && a.especie == old(self).presas@[j].especie && a.sexo == old(self).presas@[j].sexo)
                },
            exists|cazados: Seq<Depredador>|
                relacion_caza(old(self).depredadores@, cazados) && #[trigger] cazados.len()
                    == old(self).depredadores@.len() && final(self).depredadores@
                    == supervivientes_tras_consumo(cazados),
            forall|i: int|
                0 <= i < final(self).depredadores@.len() ==> (#[trigger] final(self).depredadores@[i]).vivo_spec(),
            reporte.dia == final(self).dia_actual,
            reporte.total_presas == final(self).presas@.len(),
            reporte.conejos == cuenta_especie(final(self).presas@, Especie::Conejo),
            reporte.cabras == cuenta_especie(final(self).presas@, Especie::Cabra),
            reporte.vacas == cuenta_especie(final(self).presas@, Especie::Vaca),
            reporte.depredadores_vivos == final(self).depredadores@.len(),
            reporte.estados@.len() == final(self).depredadores@.len(),
            forall|i: int|
                0 <= i < final(self).depredadores@.len() ==> {
                    let d = final(self).depredadores@[i];
                    #[trigger] reporte.estados@[i] == (EstadoDepredador {
                        id: d.id,
                        edad_dias: d.edad_dias,
                        reserva_gramos: d.reserva_gramos,
                        dias_sin_comer: d.dias_sin_comer,
                        estado: d.estado_spec(),
                    })
                },
            cuenta_muertes_depredador(reporte.eventos@) == old(self).depredadores@.len() - final(self).depredadores@.len(),
            cuenta_cazas(reporte.eventos@) <= old(self).depredadores@.len(),
            old(self).presas@.len() - cuenta_cazas(reporte.eventos@) - cuenta_muertes_presa(
                reporte.eventos@,
            ) + suma_nacimientos(reporte.eventos@) == final(self).presas@.len(),
    {
        let ghost presas0 = self.presas@;
        let ghost deps0 = self.depredadores@;
        let ghost contador0 = self.contador_animales;
        let config: ConfigMundo = self.config;
        self.dia_actual = self.dia_actual + 1;
        let mut eventos: Vec<Evento> = Vec::new();
        proof {
            assert(cuenta_cazas(eventos@) == 0);
            assert(cuenta_muertes_depredador(eventos@) == 0);
            assert(cuenta_muertes_presa(eventos@) == 0);
            assert(suma_nacimientos(eventos@) == 0);
        }

        // Caza: envejecer depredadores, barajar el orden y cazar.
        fase_caza(
            &mut self.depredadores,
            &mut self.presas,
            &config,
            &mut self.generador,
            &mut eventos,
        );
        let ghost cazados = self.depredadores@;
        let ghost tras_caza = self.presas@;

        // Consumo diario y supervivencia de los depredadores.
        fase_consumo(&mut self.depredadores, &mut eventos);

        // Envejecimiento, enfermedad y vejez de las presas.
        fase_presas(&mut self.presas, &config, &mut self.generador, &mut eventos);
        let ghost tras_vejez = self.presas@;
        proof {
            assert forall|i: int| 0 <= i < tras_vejez.len() implies (#[trigger] tras_vejez[i]).id
                <= contador0 && 1 <= tras_vejez[i].id by {
                let j = choose|j: int|
                    0 <= j < tras_caza.len() && tras_vejez[i] == (#[trigger] tras_caza[j]).envejecido(
                        config.rasgos_spec(tras_caza[j].especie),
                    );
                assert(presas0.contains(tras_caza[j]));
                let j0 = choose|j0: int|
                    0 <= j0 < presas0.len() && presas0[j0] == tras_caza[j];
                assert(1 <= presas0[j0].id <= contador0);
            }
        }

        // Reproducción de las hembras adultas.
        fase_reproduccion(
            &mut self.presas,
            &mut self.contador_animales,
            &config,
            &mut self.generador,
            &mut eventos,
        );

        // Resumen de cierre.
        let total_presas = self.presas.len();
        let conejos = crate::reporte::contar_especie(&self.presas, Especie::Conejo);
        let cabras = crate::reporte::contar_especie(&self.presas, Especie::Cabra);
        let vacas = crate::reporte::contar_especie(&self.presas, Especie::Vaca);
        let depredadores_vivos = self.depredadores.len();
        let mut estados: Vec<EstadoDepredador> = Vec::new();
        let mut e: usize = 0;
        while e < self.depredadores.len()
            invariant
                e <= self.depredadores@.len(),
                estados@.len() == e,
                forall|t: int|
                    0 <= t < e ==> {
                        let d = self.depredadores@[t];
                        #[trigger] estados@[t] == (EstadoDepredador {
                            id: d.id,
                            edad_dias: d.edad_dias,
                            reserva_gramos: d.reserva_gramos,
                            dias_sin_comer: d.dias_sin_comer,
                            estado: d.estado_spec(),
                        })
                    },
            decreases self.depredadores@.len() - e,
        {
            let d = self.depredadores[e];
            let estado = d.estado_alimentacion();
            estados.push(
                EstadoDepredador {
                    id: d.id,
                    edad_dias: d.edad_dias,
                    reserva_gramos: d.reserva_gramos,
                    dias_sin_comer: d.dias_sin_comer,
                    estado,
                },
            );
            e = e + 1;
        }

        proof {
            // Las presas finales cumplen el invariante y las propiedades del
            // día: las sobrevivientes son las envejecidas de las de ayer, y
            // las nacidas hoy tienen identificadores nuevos.
            let finales = self.presas@;
            let viejas = tras_vejez.len() as int;
            assert forall|i: int| 0 <= i < finales.len() implies {
                let a = #[trigger] finales[i];
                &&& a.edad_dias < u32::MAX
                &&& a.peso_coherente(config.rasgos_spec(a.especie))
                &&& a.peso_gramos <= config.max_peso_asintotico()
                &&& 1 <= a.id <= self.contador_animales
                &&& a.edad_dias < config.rasgos_spec(a.especie).edad_maxima
            } by {
                if i < viejas {
                    assert(finales[i] == finales.subrange(0, viejas)[i]);
                    assert(finales[i] == tras_vejez[i]);
                } else {
                    assert(config.bien_formada());
                    assert(config.rasgos_spec(finales[i].especie).edad_adulta < config.rasgos_spec(
                        finales[i].especie,
                    ).edad_maxima);
                }
            }
            assert forall|i: int, j: int| 0 <= i < j < finales.len() implies (
            #[trigger] finales[i]).id != (#[trigger] finales[j]).id by {
                if i < viejas {
                    assert(finales[i] == finales.subrange(0, viejas)[i]);
                    assert(finales[i] == tras_vejez[i]);
                }
                if j < viejas {
                    assert(finales[j] == finales.subrange(0, viejas)[j]);
                    assert(finales[j] == tras_vejez[j]);
                }
            }
            // Toda sobreviviente es una presa de ayer un día más vieja.
            assert forall|i: int| 0 <= i < finales.len() implies {
                let a = #[trigger] finales[i];
                ||| (a.edad_dias == 0 && a.id > contador0)
                ||| (exists|j: int|
                    0 <= j < presas0.len() && (#[trigger] presas0[j]).id == a.id && a.edad_dias
                        == presas0[j].edad_dias + 1 && a.especie == presas0[j].especie && a.sexo
                        == presas0[j].sexo)
            } by {
                if i < viejas {
                    assert(finales[i] == finales.subrange(0, viejas)[i]);
                    assert(finales[i] == tras_vejez[i]);
                    let j = choose|j: int|
                        0 <= j < tras_caza.len() && tras_vejez[i] == (
                        #[trigger] tras_caza[j]).envejecido(
                            config.rasgos_spec(tras_caza[j].especie),
                        );
                    assert(presas0.contains(tras_caza[j]));
                    let j0 = choose|j0: int|
                        0 <= j0 < presas0.len() && presas0[j0] == tras_caza[j];
                    assert(presas0[j0].id == finales[i].id && finales[i].edad_dias == presas0[j0].edad_dias
                        + 1 && finales[i].especie == presas0[j0].especie && finales[i].sexo
                        == presas0[j0].sexo);
                }
            }
            // Los depredadores finales cumplen el invariante.
            assert forall|i: int| 0 <= i < self.depredadores@.len() implies {
                let d = #[trigger] self.depredadores@[i];
                &&& d.edad_dias < u32::MAX
                &&& d.dias_sin_comer < u32::MAX
                &&& depredador_de_config(d, config)
                &&& d.reserva_gramos <= config.nivel_optimo_diario + config.max_peso_asintotico()
                &&& d.id < self.contador_depredadores
            } by {
                let j = choose|j: int|
                    0 <= j < cazados.len() && self.depredadores@[i] == cazados[j].tras_consumo();
                assert(depredador_de_config(deps0[j], config));
                assert(cazados[j].reserva_gramos <= config.nivel_optimo_diario
                    + config.max_peso_asintotico());
                assert(deps0[j].id < self.contador_depredadores);
            }
        }

        Reporte {
            dia: self.dia_actual,
            eventos,
            total_presas,
            conejos,
            cabras,
            vacas,
            depredadores_vivos,
            estados,
        }
    }
}

} // verus!
