//! La presa individual: identidad, especie, edad, peso y sexo, con sus
//! operaciones de ciclo de vida. El peso nunca se fija a mano: siempre es la
//! curva de la especie evaluada en la edad.

use crate::azar::sorteo_por_mil;
use crate::especies::{Especie, EtapaDeVida, RasgosEspecie, Sexo};
use rand::rngs::StdRng;
use vstd::prelude::*;

verus! {

/// Una presa del ecosistema.
#[derive(Clone, Copy, Debug, PartialEq, Eq, Structural)]
pub struct Animal {
    /// Identificador único, nunca reutilizado.
    pub id: u64,
    /// Especie del individuo.
    pub especie: Especie,
    /// Edad en días.
    pub edad_dias: u32,
    /// Peso en gramos, siempre derivado de la edad por la curva de la especie.
    pub peso_gramos: u64,
    /// Sexo del individuo.
    pub sexo: Sexo,
}

impl Animal {
    /// El peso del individuo es exactamente el que la curva de sus rasgos
    /// asigna a su edad.
    pub open spec fn peso_coherente(self, rasgos: RasgosEspecie) -> bool {
        self.peso_gramos == rasgos.peso_spec(self.edad_dias as int)
    }

    /// Crea un individuo a la edad dada, con el peso que dicta la curva.
    pub fn new(
        id: u64,
        especie: Especie,
        edad_inicial: u32,
        sexo: Sexo,
        rasgos: &RasgosEspecie,
    ) -> (r: Animal)
        requires
            rasgos.dentro_de_limites(),
        ensures
            r.id == id,
            r.especie == especie,
            r.edad_dias == edad_inicial,
            r.sexo == sexo,
            r.peso_coherente(*rasgos),
            r.peso_gramos <= rasgos.peso_asintotico_gramos,
    {
        let peso_gramos = rasgos.peso_gramos(edad_inicial);
        Animal { id, especie, edad_dias: edad_inicial, peso_gramos, sexo }
    }

    /// El individuo un día más viejo, con el peso que la curva asigna a la
    /// nueva edad.
    pub open spec fn envejecido(self, rasgos: RasgosEspecie) -> Animal {
        Animal {
            edad_dias: (self.edad_dias + 1) as u32,
            peso_gramos: rasgos.peso_spec(self.edad_dias + 1) as u64,
            ..self
        }
    }

    /// Suma un día a la edad y recalcula el peso con la curva.
    pub fn envejecer_un_dia(&mut self, rasgos: &RasgosEspecie)
        requires
            old(self).edad_dias < u32::MAX,
            rasgos.dentro_de_limites(),
        ensures
            *final(self) == old(self).envejecido(*rasgos),
            final(self).peso_coherente(*rasgos),
            final(self).peso_gramos <= rasgos.peso_asintotico_gramos,
    {
        proof {
            crate::especies::lema_peso_spec_rango(*rasgos, old(self).edad_dias + 1);
        }
        self.edad_dias = self.edad_dias + 1;
        self.peso_gramos = rasgos.peso_gramos(self.edad_dias);
    }

    /// Si el individuo alcanzó la edad de sacrificio y puede ser cazado.
    pub fn puede_ser_cazado(&self, rasgos: &RasgosEspecie) -> (r: bool)
        ensures
            r == (self.edad_dias >= rasgos.edad_sacrificio),
    {
        self.edad_dias >= rasgos.edad_sacrificio
    }

    /// Sorteo diario de enfermedad: consulta probabilística pura, sin efecto
    /// sobre el individuo; quien llama decide el retiro.
    pub fn verificar_enfermedad(&self, rasgos: &RasgosEspecie, generador: &mut StdRng) -> bool
        requires
            rasgos.enfermedad_por_mil <= 1000,
    {
        sorteo_por_mil(generador, rasgos.enfermedad_por_mil)
    }

    /// Etapa de vida derivada de la edad frente a la edad adulta.
    pub fn etapa(&self, rasgos: &RasgosEspecie) -> (r: EtapaDeVida)
        ensures
            r == (if self.edad_dias >= rasgos.edad_adulta {
                EtapaDeVida::Adulto
            } else {
                EtapaDeVida::Cria
            }),
    {
        if self.edad_dias >= rasgos.edad_adulta {
            EtapaDeVida::Adulto
        } else {
            EtapaDeVida::Cria
        }
    }
}

/// Crea una población inicial de `cantidad` individuos de la especie, con
/// edades variadas alrededor de la edad adulta, sexo sorteado e
/// identificadores consecutivos desde `*contador_id`.
pub fn crear_poblacion_inicial(
    cantidad: u32,
    especie: Especie,
    contador_id: &mut u64,
    rasgos: &RasgosEspecie,
    generador: &mut StdRng,
) -> (r: Vec<Animal>)
    requires
        rasgos.dentro_de_limites(),
        rasgos.edad_adulta <= u32::MAX - 30,
        *old(contador_id) + cantidad <= u64::MAX,
    ensures
        r@.len() == cantidad,
        *final(contador_id) == *old(contador_id) + cantidad,
        forall|i: int| 0 <= i < r@.len() ==> {
            &&& (#[trigger] r@[i]).especie == especie
            &&& r@[i].id == *old(contador_id) + i
            &&& r@[i].edad_dias < rasgos.edad_adulta + 30
            &&& r@[i].peso_coherente(*rasgos)
        },
{
    let mut poblacion: Vec<Animal> = Vec::new();
    let mut restantes: u32 = cantidad;
    while restantes > 0
        invariant
            rasgos.dentro_de_limites(),
            rasgos.edad_adulta <= u32::MAX - 30,
            restantes <= cantidad,
            poblacion@.len() == cantidad - restantes,
            *contador_id == *old(contador_id) + poblacion@.len(),
            *old(contador_id) + cantidad <= u64::MAX,
            forall|i: int| 0 <= i < poblacion@.len() ==> {
                &&& (#[trigger] poblacion@[i]).especie == especie
                &&& poblacion@[i].id == *old(contador_id) + i
                &&& poblacion@[i].edad_dias < rasgos.edad_adulta + 30
                &&& poblacion@[i].peso_coherente(*rasgos)
            },
        decreases restantes,
    {
        let sexo = if sorteo_por_mil(generador, 500) {
            Sexo::Macho
        } else {
            Sexo::Hembra
        };
        let edad_dias = crate::azar::entero_en_rango(generador, 0, rasgos.edad_adulta + 29);
        let nuevo = Animal::new(*contador_id, especie, edad_dias, sexo, rasgos);
        *contador_id = *contador_id + 1;
        poblacion.push(nuevo);
        restantes = restantes - 1;
    }
    poblacion
}

} // verus!
