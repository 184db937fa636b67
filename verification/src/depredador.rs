//! El depredador: contabilidad de su reserva, política de caza de la presa
//! elegible más pesada con desempate al azar, umbrales de consumo mínimo y
//! óptimo, y condición de supervivencia.

use crate::animal::Animal;
use crate::azar::indice_al_azar;
use crate::config::ConfigMundo;
use rand::rngs::StdRng;
use vstd::prelude::*;

verus! {

/// Estado de alimentación de un depredador al cierre del día, según su
/// reserva frente a los dos umbrales.
#[derive(Clone, Copy, Debug, PartialEq, Eq, Structural)]
pub enum EstadoAlimentacion {
    /// La reserva alcanza el nivel óptimo.
    Optimo,
    /// La reserva alcanza el mínimo pero no el óptimo.
    Minimo,
    /// La reserva no alcanza ni el mínimo.
    Hambriento,
}

/// Los depredadores que quedan tras aplicar a cada uno el consumo diario y la
/// condición de supervivencia, en el mismo orden: sobrevive exactamente el
/// que, ya consumido, no agotó su racha de hambre ni su edad máxima.
pub open spec fn supervivientes_tras_consumo(antes: Seq<Depredador>) -> Seq<Depredador>
    decreases antes.len(),
{
    if antes.len() == 0 {
        Seq::empty()
    } else {
        let previos = supervivientes_tras_consumo(antes.drop_last());
        let d = antes.last().tras_consumo();
        if d.vivo_spec() {
            previos.push(d)
        } else {
            previos
        }
    }
}

/// La supervivencia es exacta en ambos sentidos: todo depredador que queda
/// tras el consumo está vivo (ni su racha ni su edad alcanzaron sus límites)
/// y proviene de la fila de entrada; y todo depredador de la fila cuyo
/// consumo lo deja vivo queda en el resultado. Un depredador se retira
/// entonces exactamente cuando su racha de hambre o su edad llegaron al
/// límite.
pub proof fn lema_supervivencia_exacta(antes: Seq<Depredador>)
    ensures
        forall|i: int|
            0 <= i < supervivientes_tras_consumo(antes).len() ==> (
            #[trigger] supervivientes_tras_consumo(antes)[i]).vivo_spec(),
        forall|i: int|
            0 <= i < supervivientes_tras_consumo(antes).len() ==> exists|j: int|
                0 <= j < antes.len() && #[trigger] supervivientes_tras_consumo(antes)[i]
                    == antes[j].tras_consumo(),
        forall|j: int|
            0 <= j < antes.len() && (#[trigger] antes[j]).tras_consumo().vivo_spec()
                ==> supervivientes_tras_consumo(antes).contains(antes[j].tras_consumo()),
    decreases antes.len(),
{
    if antes.len() > 0 {
        let previos = antes.drop_last();
        lema_supervivencia_exacta(previos);
        let sup_previos = supervivientes_tras_consumo(previos);
        let sup = supervivientes_tras_consumo(antes);
        let ultimo = antes.last().tras_consumo();
        assert forall|i: int| 0 <= i < sup.len() implies exists|j: int|
            0 <= j < antes.len() && #[trigger] sup[i] == antes[j].tras_consumo() by {
            if i < sup_previos.len() {
                let j = choose|j: int|
                    0 <= j < previos.len() && sup_previos[i] == previos[j].tras_consumo();
                assert(sup[i] == antes[j].tras_consumo());
            } else {
                assert(sup[i] == antes[antes.len() - 1].tras_consumo());
            }
        }
        assert forall|j: int|
            0 <= j < antes.len() && (#[trigger] antes[j]).tras_consumo().vivo_spec() implies sup.contains(
            antes[j].tras_consumo(),
        ) by {
            if j < antes.len() - 1 {
                assert(previos[j] == antes[j]);
                assert(sup_previos.contains(antes[j].tras_consumo()));
                let t = choose|t: int|
                    0 <= t < sup_previos.len() && sup_previos[t] == antes[j].tras_consumo();
                assert(sup[t] == antes[j].tras_consumo());
            } else {
                assert(ultimo.vivo_spec());
                assert(sup[sup.len() - 1] == antes[j].tras_consumo());
            }
        }
    }
}

/// Un depredador del ecosistema.
#[derive(Clone, Copy, Debug, PartialEq, Eq, Structural)]
pub struct Depredador {
    /// Identificador único dentro del mundo.
    pub id: u32,
    /// Edad en días.
    pub edad_dias: u32,
    /// Edad a la que muere de vejez.
    pub edad_maxima: u32,
    /// Reserva de comida acumulada, en gramos; nunca es negativa.
    pub reserva_gramos: u64,
    /// Días seguidos sin alcanzar el consumo mínimo.
    pub dias_sin_comer: u32,
    /// Consumo mínimo diario, en gramos.
    pub nivel_minimo_diario: u64,
    /// Consumo que busca alcanzar cada día, en gramos.
    pub nivel_optimo_diario: u64,
    /// Días seguidos sin comer que sobrevive.
    pub limite_dias_sin_comer: u32,
}

impl Depredador {
    /// Estado tras el consumo diario: si la reserva alcanza el mínimo lo
    /// descuenta y reinicia la racha; si no, la reserva se pierde (no se
    /// guarda comida) y la racha crece.
    pub open spec fn tras_consumo(self) -> Depredador {
        if self.reserva_gramos >= self.nivel_minimo_diario {
            Depredador {
                reserva_gramos: (self.reserva_gramos - self.nivel_minimo_diario) as u64,
                dias_sin_comer: 0,
                ..self
            }
        } else {
            Depredador {
                reserva_gramos: 0,
                dias_sin_comer: (self.dias_sin_comer + 1) as u32,
                ..self
            }
        }
    }

    /// Condición de supervivencia: ni la racha de hambre ni la edad
    /// alcanzaron sus límites.
    pub open spec fn vivo_spec(self) -> bool {
        self.dias_sin_comer < self.limite_dias_sin_comer && self.edad_dias < self.edad_maxima
    }

    /// Estado de alimentación según la reserva frente a los umbrales.
    pub open spec fn estado_spec(self) -> EstadoAlimentacion {
        if self.reserva_gramos >= self.nivel_optimo_diario {
            EstadoAlimentacion::Optimo
        } else if self.reserva_gramos >= self.nivel_minimo_diario {
            EstadoAlimentacion::Minimo
        } else {
            EstadoAlimentacion::Hambriento
        }
    }

    /// Crea el depredador clásico: recién nacido, sin reserva, mínimo 1 kg,
    /// óptimo 3 kg, edad máxima 4000 días y cinco días de tolerancia al
    /// hambre.
    pub fn new(id: u32) -> (r: Depredador)
        ensures
            r == (Depredador {
                id,
                edad_dias: 0,
                edad_maxima: 4000,
                reserva_gramos: 0,
                dias_sin_comer: 0,
                nivel_minimo_diario: 1000,
                nivel_optimo_diario: 3000,
                limite_dias_sin_comer: 5,
            }),
    {
        Depredador {
            id,
            edad_dias: 0,
            edad_maxima: 4000,
            reserva_gramos: 0,
            dias_sin_comer: 0,
            nivel_minimo_diario: 1000,
            nivel_optimo_diario: 3000,
            limite_dias_sin_comer: 5,
        }
    }

    /// Crea un depredador recién nacido con los umbrales y límites de la
    /// configuración dada.
    pub fn con_config(id: u32, config: &ConfigMundo) -> (r: Depredador)
        ensures
            r == (Depredador {
                id,
                edad_dias: 0,
                edad_maxima: config.edad_maxima_depredador,
                reserva_gramos: 0,
                dias_sin_comer: 0,
                nivel_minimo_diario: config.nivel_minimo_diario,
                nivel_optimo_diario: config.nivel_optimo_diario,
                limite_dias_sin_comer: config.limite_dias_sin_comer,
            }),
    {
        Depredador {
            id,
            edad_dias: 0,
            edad_maxima: config.edad_maxima_depredador,
            reserva_gramos: 0,
            dias_sin_comer: 0,
            nivel_minimo_diario: config.nivel_minimo_diario,
            nivel_optimo_diario: config.nivel_optimo_diario,
            limite_dias_sin_comer: config.limite_dias_sin_comer,
        }
    }

    /// El depredador un día más viejo.
    pub open spec fn envejecido(self) -> Depredador {
        Depredador { edad_dias: (self.edad_dias + 1) as u32, ..self }
    }

    /// Suma un día a la edad.
    pub fn envejecer_un_dia(&mut self)
        requires
            old(self).edad_dias < u32::MAX,
        ensures
            *final(self) == old(self).envejecido(),
    {
        self.edad_dias = self.edad_dias + 1;
    }

    /// Consumo diario: descuenta el mínimo y reinicia la racha si la reserva
    /// alcanza, o vacía la reserva y alarga la racha si no. Devuelve si comió.
    pub fn consumir_diario(&mut self) -> (comio: bool)
        requires
            old(self).dias_sin_comer < u32::MAX,
        ensures
            comio == (old(self).reserva_gramos >= old(self).nivel_minimo_diario),
            *final(self) == old(self).tras_consumo(),
    {
        if self.reserva_gramos >= self.nivel_minimo_diario {
            self.reserva_gramos = self.reserva_gramos - self.nivel_minimo_diario;
            self.dias_sin_comer = 0;
            true
        } else {
            self.reserva_gramos = 0;
            self.dias_sin_comer = self.dias_sin_comer + 1;
            false
        }
    }

    /// Si necesita cazar: su reserva no llega al nivel óptimo.
    pub fn necesita_cazar(&self) -> (r: bool)
        ensures
            r == (self.reserva_gramos < self.nivel_optimo_diario),
    {
        self.reserva_gramos < self.nivel_optimo_diario
    }

    /// Suma a la reserva el peso completo de la presa cazada.
    pub fn cazar(&mut self, presa: &Animal)
        requires
            old(self).reserva_gramos + presa.peso_gramos <= u64::MAX,
        ensures
            *final(self) == (Depredador {
                reserva_gramos: (old(self).reserva_gramos + presa.peso_gramos) as u64,
                ..*old(self)
            }),
    {
        self.reserva_gramos = self.reserva_gramos + presa.peso_gramos;
    }

    /// Si sigue vivo: no agotó su tolerancia al hambre ni su edad máxima.
    pub fn esta_vivo(&self) -> (r: bool)
        ensures
            r == self.vivo_spec(),
    {
        self.dias_sin_comer < self.limite_dias_sin_comer && self.edad_dias < self.edad_maxima
    }

    /// Estado de alimentación al comparar la reserva con los umbrales.
    pub fn estado_alimentacion(&self) -> (r: EstadoAlimentacion)
        ensures
            r == self.estado_spec(),
    {
        if self.reserva_gramos >= self.nivel_optimo_diario {
            EstadoAlimentacion::Optimo
        } else if self.reserva_gramos >= self.nivel_minimo_diario {
            EstadoAlimentacion::Minimo
        } else {
            EstadoAlimentacion::Hambriento
        }
    }

    /// Busca entre las presas la elegible más pesada (edad de sacrificio
    /// alcanzada); entre empatadas a peso máximo elige una al azar. Si la
    /// encuentra, la retira del vector, suma su peso completo a la reserva y
    /// la devuelve; si ninguna presa es elegible no cambia nada.
    pub fn cazar_mas_pesada(
        &mut self,
        presas: &mut Vec<Animal>,
        config: &ConfigMundo,
        generador: &mut StdRng,
    ) -> (r: Option<Animal>)
        requires
            forall|i: int| #![trigger old(presas)@[i]]
                0 <= i < old(presas)@.len()
                    ==> old(self).reserva_gramos + old(presas)@[i].peso_gramos <= u64::MAX,
        ensures
            (match r {
                Option::None => {
                    &&& *final(self) == *old(self)
                    &&& final(presas)@ == old(presas)@
                    &&& forall|i: int| #![trigger old(presas)@[i]]
                        0 <= i < old(presas)@.len() ==> !config.presa_elegible(old(presas)@[i])
                },
                Option::Some(presa) => {
                    &&& config.presa_elegible(presa)
                    &&& forall|i: int| #![trigger old(presas)@[i]]
                        0 <= i < old(presas)@.len() && config.presa_elegible(old(presas)@[i])
                            ==> old(presas)@[i].peso_gramos <= presa.peso_gramos
                    &&& exists|j: int|
                        0 <= j < old(presas)@.len() && old(presas)@[j] == presa
                            && final(presas)@ == old(presas)@.remove(j)
                    &&& *final(self) == (Depredador {
                        reserva_gramos: (old(self).reserva_gramos + presa.peso_gramos) as u64,
                        ..*old(self)
                    })
                },
            }),
    {
        let ghost presas_inicial = presas@;
        let mut hay_elegible: bool = false;
        let mut mejor: usize = 0;
        let mut i: usize = 0;
        while i < presas.len()
            invariant
                presas@ == presas_inicial,
                i <= presas@.len(),
                !hay_elegible ==> forall|j: int|
                    0 <= j < i ==> !config.presa_elegible(#[trigger] presas@[j]),
                hay_elegible ==> {
                    &&& mejor < i
                    &&& config.presa_elegible(presas@[mejor as int])
                    &&& forall|j: int|
                        0 <= j < i && config.presa_elegible(#[trigger] presas@[j])
                            ==> presas@[j].peso_gramos <= presas@[mejor as int].peso_gramos
                },
            decreases presas@.len() - i,
        {
            let rasgos = config.rasgos(presas[i].especie);
            if presas[i].puede_ser_cazado(rasgos) {
                if !hay_elegible || presas[i].peso_gramos > presas[mejor].peso_gramos {
                    hay_elegible = true;
                    mejor = i;
                }
            }
            i = i + 1;
        }
        if !hay_elegible {
            return Option::None;
        }
        let peso_maximo = presas[mejor].peso_gramos;
        let mut empatadas: Vec<usize> = Vec::new();
        let mut j: usize = 0;
        while j < presas.len()
            invariant
                presas@ == presas_inicial,
                j <= presas@.len(),
                mejor < presas@.len(),
                config.presa_elegible(presas@[mejor as int]),
                peso_maximo == presas@[mejor as int].peso_gramos,
                forall|t: int|
                    0 <= t < empatadas@.len() ==> {
                        &&& (#[trigger] empatadas@[t]) < presas@.len()
                        &&& config.presa_elegible(presas@[empatadas@[t] as int])
                        &&& presas@[empatadas@[t] as int].peso_gramos == peso_maximo
                    },
                mejor < j ==> empatadas@.len() >= 1,
            decreases presas@.len() - j,
        {
            let rasgos = config.rasgos(presas[j].especie);
            if presas[j].puede_ser_cazado(rasgos) && presas[j].peso_gramos == peso_maximo {
                empatadas.push(j);
            }
            j = j + 1;
        }
        let elegida = empatadas[indice_al_azar(generador, empatadas.len())];
        let presa = presas.remove(elegida);
        self.reserva_gramos = self.reserva_gramos + presa.peso_gramos;
        Option::Some(presa)
    }
}

} // verus!
