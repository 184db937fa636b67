//! Escenarios dirigidos del motor: caza de la más pesada, reproducción con
//! camada fija, muerte por inanición y muerte por vejez en el día exacto.

use ecosistema::animal::Animal;
use ecosistema::config::ConfigMundo;
use ecosistema::especies::{Especie, Sexo};
use ecosistema::mundo::Mundo;
use ecosistema::reporte::{CausaMuerteDepredador, Evento};

/// Configuración predeterminada con todo el azar apagado: sin enfermedad y
/// sin reproducción.
fn config_sin_azar() -> ConfigMundo {
    let mut config = ConfigMundo::default();
    config.conejo.enfermedad_por_mil = 0;
    config.cabra.enfermedad_por_mil = 0;
    config.vaca.enfermedad_por_mil = 0;
    config.conejo.reproduccion_por_mil = 0;
    config.cabra.reproduccion_por_mil = 0;
    config.vaca.reproduccion_por_mil = 0;
    config
}

fn conejo_de(config: &ConfigMundo, id: u64, edad: u32, sexo: Sexo) -> Animal {
    Animal::new(id, Especie::Conejo, edad, sexo, &config.conejo)
}

#[test]
fn escenario_caza_de_la_mas_pesada_y_alimentado() {
    // Un depredador (mínimo 1 kg, óptimo 3 kg, reserva 0) y cinco conejos
    // cazables de pesos distintos: cae exactamente el más pesado y la reserva
    // queda en su peso menos el consumo mínimo.
    let config = config_sin_azar();
    let mut mundo = Mundo::con_config(config, 7).unwrap();
    mundo.agregar_depredadores(1);
    let edades = [120u32, 200, 300, 400, 500];
    for (i, edad) in edades.iter().enumerate() {
        mundo.presas.push(conejo_de(&config, i as u64 + 1, *edad, Sexo::Macho));
    }
    mundo.contador_animales = 5;
    let pesos: Vec<u64> = mundo.presas.iter().map(|a| a.peso_gramos).collect();
    for i in 0..pesos.len() {
        for j in 0..i {
            assert_ne!(pesos[i], pesos[j], "los pesos del escenario deben ser distintos");
        }
    }
    let peso_maximo = *pesos.iter().max().unwrap();
    assert_eq!(peso_maximo, 4995);

    let reporte = mundo.paso_dia();

    assert_eq!(mundo.total_presas(), 4);
    assert!(mundo.presas.iter().all(|a| a.id != 5), "cayó el conejo más pesado");
    assert_eq!(mundo.total_depredadores(), 1);
    // 4995 g cazados, 1000 g consumidos: alimentado y con racha en cero.
    assert_eq!(mundo.depredadores[0].reserva_gramos, peso_maximo - 1000);
    assert_eq!(mundo.depredadores[0].dias_sin_comer, 0);
    assert!(reporte.eventos.iter().any(|e| matches!(
        e,
        Evento::Caza { depredador: 0, presa: 5, especie: Especie::Conejo, peso_gramos: 4995, edad_dias: 500 }
    )));
    assert!(reporte.eventos.iter().any(|e| matches!(
        e,
        Evento::DepredadorAlimentado { depredador: 0, consumido_gramos: 1000, .. }
    )));
}

#[test]
fn escenario_caza_liviana_sin_alcanzar_el_minimo() {
    // Conejos cazables desde que nacen, todos por debajo del kilo: el
    // depredador caza al más pesado pero no llega al mínimo, pierde la
    // reserva y suma un día sin comer.
    let mut config = config_sin_azar();
    config.conejo.edad_adulta = 0;
    config.conejo.edad_sacrificio = 0;
    config.conejo.edad_inicial = 0;
    let mut mundo = Mundo::con_config(config, 11).unwrap();
    mundo.agregar_depredadores(1);
    for (i, edad) in [0u32, 1, 2, 3, 4].iter().enumerate() {
        mundo.presas.push(conejo_de(&config, i as u64 + 1, *edad, Sexo::Macho));
    }
    mundo.contador_animales = 5;
    let peso_maximo = mundo.presas.iter().map(|a| a.peso_gramos).max().unwrap();
    assert_eq!(peso_maximo, 760);

    let reporte = mundo.paso_dia();

    assert_eq!(mundo.total_presas(), 4);
    assert_eq!(mundo.total_depredadores(), 1);
    assert_eq!(mundo.depredadores[0].reserva_gramos, 0, "la reserva insuficiente se pierde");
    assert_eq!(mundo.depredadores[0].dias_sin_comer, 1);
    assert!(reporte.eventos.iter().any(|e| matches!(e, Evento::Caza { presa: 5, .. })));
    assert!(reporte.eventos.iter().any(|e| matches!(
        e,
        Evento::DepredadorSinComer { depredador: 0, dias_sin_comer: 1, reserva_gramos: 0 }
    )));
}

#[test]
fn escenario_reproduccion_con_camada_fija() {
    // Sin depredadores, diez conejas adultas con probabilidad de reproducción
    // del cien por ciento y camada fija de tres: nacen exactamente treinta
    // crías, todas a edad cero.
    let mut config = config_sin_azar();
    config.conejo.reproduccion_por_mil = 1000;
    config.conejo.min_crias_por_parto = 3;
    config.conejo.max_crias_por_parto = 3;
    let mut mundo = Mundo::con_config(config, 23).unwrap();
    for i in 0..10u64 {
        mundo.presas.push(conejo_de(&config, i + 1, 150, Sexo::Hembra));
    }
    mundo.contador_animales = 10;

    let reporte = mundo.paso_dia();

    assert_eq!(mundo.total_presas(), 40);
    let recien_nacidas: Vec<&Animal> =
        mundo.presas.iter().filter(|a| a.edad_dias == 0).collect();
    assert_eq!(recien_nacidas.len(), 30);
    for cria in &recien_nacidas {
        assert!(cria.id > 10, "las crías llevan identificadores nuevos");
        assert_eq!(cria.especie, Especie::Conejo);
    }
    assert!(reporte.eventos.iter().any(|e| matches!(e, Evento::Nacimientos { cantidad: 30 })));
    assert_eq!(reporte.total_presas, 40);
    assert_eq!(reporte.conejos, 40);
}

#[test]
fn escenario_muerte_por_inanicion_al_quinto_dia() {
    // Un depredador con racha de cuatro días y reserva insuficiente, sin
    // presas: tras el día queda fuera y el reporte cita la inanición.
    let config = config_sin_azar();
    let mut mundo = Mundo::con_config(config, 31).unwrap();
    mundo.agregar_depredadores(1);
    mundo.depredadores[0].dias_sin_comer = 4;
    assert_eq!(mundo.depredadores[0].reserva_gramos, 0);

    let reporte = mundo.paso_dia();

    assert_eq!(mundo.total_depredadores(), 0);
    assert_eq!(reporte.depredadores_vivos, 0);
    assert!(reporte.eventos.iter().any(|e| matches!(
        e,
        Evento::MuerteDepredador { depredador: 0, causa: CausaMuerteDepredador::Inanicion, dias_sin_comer: 5, .. }
    )));
}

#[test]
fn escenario_muerte_por_vejez_en_el_dia_exacto() {
    // Una presa a un día de su edad máxima: envejece hasta la edad máxima y
    // se retira ese mismo día, sin sobrevivir un día de más.
    let config = config_sin_azar();
    let mut mundo = Mundo::con_config(config, 43).unwrap();
    mundo.presas.push(conejo_de(&config, 1, 1999, Sexo::Macho));
    mundo.contador_animales = 1;

    let reporte = mundo.paso_dia();

    assert_eq!(mundo.total_presas(), 0);
    assert!(reporte.eventos.iter().any(|e| matches!(
        e,
        Evento::MuertePorVejez { presa: 1, especie: Especie::Conejo }
    )));
}

#[test]
fn escenario_muerte_de_depredador_por_vejez() {
    // Un depredador a un día de su edad máxima, bien alimentado: muere de
    // vejez, no de hambre.
    let config = config_sin_azar();
    let mut mundo = Mundo::con_config(config, 47).unwrap();
    mundo.agregar_depredadores(1);
    mundo.depredadores[0].edad_dias = 3999;
    mundo.depredadores[0].reserva_gramos = 10000;

    let reporte = mundo.paso_dia();

    assert_eq!(mundo.total_depredadores(), 0);
    assert!(reporte.eventos.iter().any(|e| matches!(
        e,
        Evento::MuerteDepredador { depredador: 0, causa: CausaMuerteDepredador::Vejez, edad_dias: 4000, .. }
    )));
}

#[test]
fn escenario_empate_de_pesos_cae_exactamente_una() {
    // Dos conejos del mismo peso exacto: el desempate al azar retira uno y
    // solo uno, y el que queda conserva ese mismo peso.
    let config = config_sin_azar();
    let mut mundo = Mundo::con_config(config, 53).unwrap();
    mundo.agregar_depredadores(1);
    mundo.presas.push(conejo_de(&config, 1, 300, Sexo::Macho));
    mundo.presas.push(conejo_de(&config, 2, 300, Sexo::Hembra));
    mundo.contador_animales = 2;
    let peso_empatado = mundo.presas[0].peso_gramos;
    assert_eq!(peso_empatado, mundo.presas[1].peso_gramos);

    let _reporte = mundo.paso_dia();

    assert_eq!(mundo.total_presas(), 1);
    assert_eq!(mundo.depredadores[0].reserva_gramos, peso_empatado - 1000);
}
