//! Pruebas del mundo completo: propiedades de un día de simulación, lectores,
//! validación de configuración y reproducibilidad con semilla.

use ecosistema::config::{ConfigMundo, ErrorConfig};
use ecosistema::especies::Especie;
use ecosistema::mundo::{crear_mundo, Mundo};
use ecosistema::reporte::Evento;
use std::collections::HashMap;

fn mundo_poblado(semilla: u64) -> Mundo {
    let mut mundo = Mundo::con_config(ConfigMundo::default(), semilla).unwrap();
    mundo.agregar_depredadores(1);
    mundo.agregar_presas(Especie::Conejo, 30);
    mundo.agregar_presas(Especie::Cabra, 8);
    mundo.agregar_presas(Especie::Vaca, 3);
    mundo
}

#[test]
fn toda_sobreviviente_envejece_exactamente_un_dia() {
    let mut mundo = mundo_poblado(97);
    let edades_previas: HashMap<u64, u32> =
        mundo.presas.iter().map(|a| (a.id, a.edad_dias)).collect();
    let contador_previo = mundo.contador_animales;

    mundo.paso_dia();

    for presa in &mundo.presas {
        match edades_previas.get(&presa.id) {
            Some(edad_previa) => assert_eq!(presa.edad_dias, edad_previa + 1),
            None => {
                assert_eq!(presa.edad_dias, 0, "toda presa nueva es recién nacida");
                assert!(presa.id > contador_previo);
            }
        }
    }
}

#[test]
fn ninguna_presa_con_edad_maxima_sobrevive_al_dia() {
    let mut mundo = mundo_poblado(101);
    for _ in 0..5 {
        mundo.paso_dia();
        for presa in &mundo.presas {
            let rasgos = mundo.config.rasgos(presa.especie);
            assert!(presa.edad_dias < rasgos.edad_maxima);
        }
    }
}

#[test]
fn el_dia_sube_exactamente_en_uno_por_paso() {
    let mut mundo = mundo_poblado(103);
    assert_eq!(mundo.numero_dia(), 0);
    let reporte = mundo.paso_dia();
    assert_eq!(mundo.numero_dia(), 1);
    assert_eq!(reporte.dia, 1);
    mundo.paso_dia();
    assert_eq!(mundo.numero_dia(), 2);
}

#[test]
fn los_depredadores_que_quedan_estan_vivos_y_las_bajas_se_reportan() {
    let mut config = ConfigMundo::default();
    config.limite_depredadores = 4;
    let mut mundo = Mundo::con_config(config, 107).unwrap();
    mundo.agregar_depredadores(4);
    // Dos al borde de la inanición y uno al borde de la vejez.
    mundo.depredadores[0].dias_sin_comer = 4;
    mundo.depredadores[1].dias_sin_comer = 4;
    mundo.depredadores[2].edad_dias = 3999;

    let reporte = mundo.paso_dia();

    for depredador in &mundo.depredadores {
        assert!(depredador.dias_sin_comer < depredador.limite_dias_sin_comer);
        assert!(depredador.edad_dias < depredador.edad_maxima);
    }
    let bajas = reporte
        .eventos
        .iter()
        .filter(|e| matches!(e, Evento::MuerteDepredador { .. }))
        .count();
    assert_eq!(bajas, 4 - mundo.total_depredadores());
    assert_eq!(reporte.depredadores_vivos, mundo.total_depredadores());
}

#[test]
fn los_lectores_son_idempotentes_sin_un_paso_de_dia() {
    let mundo = mundo_poblado(109);
    assert_eq!(mundo.numero_dia(), mundo.numero_dia());
    assert_eq!(mundo.total_presas(), mundo.total_presas());
    assert_eq!(mundo.total_depredadores(), mundo.total_depredadores());
    for especie in [Especie::Conejo, Especie::Cabra, Especie::Vaca] {
        assert_eq!(mundo.presas_de_especie(especie), mundo.presas_de_especie(especie));
    }
}

#[test]
fn los_conteos_por_especie_cuadran_con_el_total() {
    let mundo = mundo_poblado(113);
    assert_eq!(mundo.presas_de_especie(Especie::Conejo), 30);
    assert_eq!(mundo.presas_de_especie(Especie::Cabra), 8);
    assert_eq!(mundo.presas_de_especie(Especie::Vaca), 3);
    assert_eq!(mundo.total_presas(), 41);
}

#[test]
fn el_reporte_refleja_los_conteos_del_cierre() {
    let mut mundo = mundo_poblado(127);
    let reporte = mundo.paso_dia();
    assert_eq!(reporte.total_presas, mundo.total_presas());
    assert_eq!(reporte.conejos, mundo.presas_de_especie(Especie::Conejo));
    assert_eq!(reporte.cabras, mundo.presas_de_especie(Especie::Cabra));
    assert_eq!(reporte.vacas, mundo.presas_de_especie(Especie::Vaca));
    assert_eq!(reporte.depredadores_vivos, mundo.total_depredadores());
    assert_eq!(reporte.estados.len(), mundo.total_depredadores());
    for (estado, depredador) in reporte.estados.iter().zip(mundo.depredadores.iter()) {
        assert_eq!(estado.id, depredador.id);
        assert_eq!(estado.reserva_gramos, depredador.reserva_gramos);
        assert_eq!(estado.dias_sin_comer, depredador.dias_sin_comer);
    }
}

#[test]
fn cada_cambio_de_poblacion_se_reporta_exactamente_una_vez() {
    let mut mundo = mundo_poblado(173);
    for _ in 0..4 {
        let presas_antes = mundo.total_presas();
        let depredadores_antes = mundo.total_depredadores();
        let reporte = mundo.paso_dia();
        let mut cazas: usize = 0;
        let mut muertes_presa: usize = 0;
        let mut muertes_depredador: usize = 0;
        let mut nacimientos: usize = 0;
        for evento in &reporte.eventos {
            match evento {
                Evento::Caza { .. } => cazas += 1,
                Evento::MuertePorEnfermedad { .. } | Evento::MuertePorVejez { .. } => {
                    muertes_presa += 1
                }
                Evento::MuerteDepredador { .. } => muertes_depredador += 1,
                Evento::Nacimientos { cantidad } => nacimientos += *cantidad as usize,
                _ => {}
            }
        }
        assert_eq!(
            presas_antes - cazas - muertes_presa + nacimientos,
            mundo.total_presas(),
            "el balance de presas cuadra con los eventos"
        );
        assert_eq!(depredadores_antes - muertes_depredador, mundo.total_depredadores());
        assert!(cazas <= depredadores_antes, "a lo sumo una caza por depredador por día");
    }
}

#[test]
fn misma_semilla_mismo_resultado() {
    let mut uno = mundo_poblado(131);
    let mut dos = mundo_poblado(131);
    for _ in 0..5 {
        let reporte_uno = uno.paso_dia();
        let reporte_dos = dos.paso_dia();
        assert_eq!(reporte_uno, reporte_dos);
    }
    assert_eq!(uno.presas, dos.presas);
    assert_eq!(uno.depredadores, dos.depredadores);
}

#[test]
fn configuracion_con_camada_invalida_se_rechaza() {
    let mut config = ConfigMundo::default();
    config.cabra.max_crias_por_parto = 0;
    assert_eq!(Mundo::con_config(config, 1).err().unwrap(), ErrorConfig::CamadaInvalida);
    let mut config = ConfigMundo::default();
    config.vaca.min_crias_por_parto = 0;
    assert_eq!(config.validar().err().unwrap(), ErrorConfig::CamadaInvalida);
}

#[test]
fn configuracion_con_edades_invalidas_se_rechaza() {
    let mut config = ConfigMundo::default();
    config.conejo.edad_adulta = config.conejo.edad_maxima;
    assert_eq!(Mundo::con_config(config, 1).err().unwrap(), ErrorConfig::EdadesInvalidas);
    let mut config = ConfigMundo::default();
    config.cabra.edad_sacrificio = config.cabra.edad_adulta - 1;
    assert_eq!(config.validar().err().unwrap(), ErrorConfig::EdadesInvalidas);
}

#[test]
fn configuracion_con_probabilidad_invalida_se_rechaza() {
    let mut config = ConfigMundo::default();
    config.conejo.reproduccion_por_mil = 1001;
    assert_eq!(Mundo::con_config(config, 1).err().unwrap(), ErrorConfig::ProbabilidadInvalida);
    let mut config = ConfigMundo::default();
    config.vaca.enfermedad_por_mil = 2000;
    assert_eq!(config.validar().err().unwrap(), ErrorConfig::ProbabilidadInvalida);
}

#[test]
fn la_configuracion_predeterminada_es_valida() {
    assert!(ConfigMundo::default().validar().is_ok());
}

#[test]
fn enfermedad_segura_retira_a_todas_las_presas() {
    let mut config = ConfigMundo::default();
    config.conejo.enfermedad_por_mil = 1000;
    config.conejo.reproduccion_por_mil = 0;
    let mut mundo = Mundo::con_config(config, 137).unwrap();
    mundo.agregar_presas(Especie::Conejo, 12);

    let reporte = mundo.paso_dia();

    assert_eq!(mundo.total_presas(), 0);
    let enfermas = reporte
        .eventos
        .iter()
        .filter(|e| matches!(e, Evento::MuertePorEnfermedad { .. }))
        .count();
    assert_eq!(enfermas, 12);
}

#[test]
fn enfermedad_nula_no_retira_a_ninguna() {
    let mut config = ConfigMundo::default();
    config.conejo.enfermedad_por_mil = 0;
    config.conejo.reproduccion_por_mil = 0;
    let mut mundo = Mundo::con_config(config, 139).unwrap();
    mundo.agregar_presas(Especie::Conejo, 12);
    let reporte = mundo.paso_dia();
    assert_eq!(mundo.total_presas(), 12);
    assert!(reporte.eventos.iter().all(|e| !matches!(e, Evento::MuertePorEnfermedad { .. })));
}

#[test]
fn la_camada_respeta_sus_cotas() {
    let mut config = ConfigMundo::default();
    config.conejo.enfermedad_por_mil = 0;
    config.conejo.reproduccion_por_mil = 1000;
    config.conejo.min_crias_por_parto = 1;
    config.conejo.max_crias_por_parto = 2;
    let mut mundo = Mundo::con_config(config, 149).unwrap();
    let rasgos = config.conejo;
    for i in 0..10u64 {
        mundo.presas.push(ecosistema::animal::Animal::new(
            i + 1,
            Especie::Conejo,
            150,
            ecosistema::especies::Sexo::Hembra,
            &rasgos,
        ));
    }
    mundo.contador_animales = 10;

    mundo.paso_dia();

    let nacidas = mundo.presas.iter().filter(|a| a.edad_dias == 0).count();
    assert!(nacidas >= 10 && nacidas <= 20, "cada camada tiene una o dos crías");
}

#[test]
fn agregar_depredadores_respeta_el_limite() {
    let mut mundo = Mundo::con_config(ConfigMundo::default(), 151).unwrap();
    mundo.agregar_depredadores(5);
    assert_eq!(mundo.total_depredadores(), 1, "el límite clásico admite un solo depredador");

    let mut config = ConfigMundo::default();
    config.limite_depredadores = 3;
    let mut mundo = Mundo::con_config(config, 151).unwrap();
    mundo.agregar_depredadores(5);
    assert_eq!(mundo.total_depredadores(), 3);
    let ids: Vec<u32> = mundo.depredadores.iter().map(|d| d.id).collect();
    assert_eq!(ids, vec![0, 1, 2]);
    mundo.agregar_depredadores(5);
    assert_eq!(mundo.total_depredadores(), 3, "no se crean más allá del límite");
}

#[test]
fn crear_mundo_puebla_por_especie() {
    let mundo = crear_mundo(ConfigMundo::default(), 157, 1, 20, 5, 3).unwrap();
    assert_eq!(mundo.numero_dia(), 0);
    assert_eq!(mundo.total_depredadores(), 1);
    assert_eq!(mundo.presas_de_especie(Especie::Conejo), 20);
    assert_eq!(mundo.presas_de_especie(Especie::Cabra), 5);
    assert_eq!(mundo.presas_de_especie(Especie::Vaca), 3);
    assert_eq!(mundo.total_presas(), 28);
    // Las presas entran a la edad de sacrificio de su especie: ya cazables.
    for presa in &mundo.presas {
        assert_eq!(presa.edad_dias, mundo.config.rasgos(presa.especie).edad_sacrificio);
    }
}

#[test]
fn crear_mundo_rechaza_configuracion_invalida() {
    let mut config = ConfigMundo::default();
    config.conejo.max_crias_por_parto = 0;
    assert_eq!(crear_mundo(config, 1, 1, 1, 1, 1).err().unwrap(), ErrorConfig::CamadaInvalida);
}

#[test]
fn los_identificadores_de_presas_nunca_se_repiten() {
    let mut mundo = mundo_poblado(163);
    for _ in 0..6 {
        let mut ids: Vec<u64> = mundo.presas.iter().map(|a| a.id).collect();
        let cantidad = ids.len();
        ids.sort_unstable();
        ids.dedup();
        assert_eq!(ids.len(), cantidad, "sin identificadores repetidos");
        mundo.paso_dia();
    }
}
