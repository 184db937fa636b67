//! Pruebas unitarias del depredador, de la presa y de la población inicial.

use ecosistema::animal::{crear_poblacion_inicial, Animal};
use ecosistema::config::ConfigMundo;
use ecosistema::depredador::{Depredador, EstadoAlimentacion};
use ecosistema::especies::{predeterminados_de, Especie, EtapaDeVida, Sexo};

#[test]
fn depredador_clasico() {
    let depredador = Depredador::new(9);
    assert_eq!(depredador.id, 9);
    assert_eq!(depredador.edad_dias, 0);
    assert_eq!(depredador.edad_maxima, 4000);
    assert_eq!(depredador.reserva_gramos, 0);
    assert_eq!(depredador.dias_sin_comer, 0);
    assert_eq!(depredador.nivel_minimo_diario, 1000);
    assert_eq!(depredador.nivel_optimo_diario, 3000);
    assert_eq!(depredador.limite_dias_sin_comer, 5);
}

#[test]
fn consumir_diario_descuenta_o_vacia() {
    let mut depredador = Depredador::new(0);
    depredador.reserva_gramos = 2500;
    assert!(depredador.consumir_diario());
    assert_eq!(depredador.reserva_gramos, 1500);
    assert_eq!(depredador.dias_sin_comer, 0);

    depredador.reserva_gramos = 999;
    assert!(!depredador.consumir_diario());
    assert_eq!(depredador.reserva_gramos, 0, "lo que no alcanza el mínimo se pierde");
    assert_eq!(depredador.dias_sin_comer, 1);
    assert!(!depredador.consumir_diario());
    assert_eq!(depredador.dias_sin_comer, 2);
}

#[test]
fn necesita_cazar_por_debajo_del_optimo() {
    let mut depredador = Depredador::new(0);
    assert!(depredador.necesita_cazar());
    depredador.reserva_gramos = 2999;
    assert!(depredador.necesita_cazar());
    depredador.reserva_gramos = 3000;
    assert!(!depredador.necesita_cazar());
}

#[test]
fn esta_vivo_segun_racha_y_edad() {
    let mut depredador = Depredador::new(0);
    assert!(depredador.esta_vivo());
    depredador.dias_sin_comer = 5;
    assert!(!depredador.esta_vivo());
    depredador.dias_sin_comer = 4;
    assert!(depredador.esta_vivo());
    depredador.edad_dias = 4000;
    assert!(!depredador.esta_vivo());
}

#[test]
fn estado_de_alimentacion_por_umbrales() {
    let mut depredador = Depredador::new(0);
    assert_eq!(depredador.estado_alimentacion(), EstadoAlimentacion::Hambriento);
    depredador.reserva_gramos = 1000;
    assert_eq!(depredador.estado_alimentacion(), EstadoAlimentacion::Minimo);
    depredador.reserva_gramos = 3000;
    assert_eq!(depredador.estado_alimentacion(), EstadoAlimentacion::Optimo);
}

#[test]
fn cazar_suma_el_peso_completo() {
    let rasgos = predeterminados_de(Especie::Conejo);
    let presa = Animal::new(1, Especie::Conejo, 500, Sexo::Macho, &rasgos);
    let mut depredador = Depredador::new(0);
    depredador.cazar(&presa);
    assert_eq!(depredador.reserva_gramos, 4995);
}

#[test]
fn cazar_mas_pesada_elige_el_maximo_y_lo_retira() {
    let config = ConfigMundo::default();
    let rasgos = predeterminados_de(Especie::Conejo);
    let mut generador = <rand::rngs::StdRng as rand::SeedableRng>::seed_from_u64(5);
    let mut presas = vec![
        Animal::new(1, Especie::Conejo, 200, Sexo::Macho, &rasgos),
        Animal::new(2, Especie::Conejo, 500, Sexo::Hembra, &rasgos),
        Animal::new(3, Especie::Conejo, 121, Sexo::Macho, &rasgos),
    ];
    let mut depredador = Depredador::new(0);
    let cazada = depredador
        .cazar_mas_pesada(&mut presas, &config, &mut generador)
        .expect("hay presas elegibles");
    assert_eq!(cazada.id, 2);
    assert_eq!(presas.len(), 2);
    assert_eq!(depredador.reserva_gramos, cazada.peso_gramos);
    assert!(presas.iter().all(|a| a.id != 2));
}

#[test]
fn cazar_mas_pesada_sin_elegibles_no_cambia_nada() {
    let config = ConfigMundo::default();
    let rasgos = predeterminados_de(Especie::Conejo);
    let mut generador = <rand::rngs::StdRng as rand::SeedableRng>::seed_from_u64(5);
    // Todas por debajo de la edad de sacrificio del conejo (120 días).
    let mut presas = vec![
        Animal::new(1, Especie::Conejo, 119, Sexo::Macho, &rasgos),
        Animal::new(2, Especie::Conejo, 50, Sexo::Hembra, &rasgos),
    ];
    let mut depredador = Depredador::new(0);
    let resultado = depredador.cazar_mas_pesada(&mut presas, &config, &mut generador);
    assert!(resultado.is_none());
    assert_eq!(presas.len(), 2);
    assert_eq!(depredador.reserva_gramos, 0);
}

#[test]
fn envejecer_recalcula_el_peso() {
    let rasgos = predeterminados_de(Especie::Conejo);
    let mut presa = Animal::new(1, Especie::Conejo, 0, Sexo::Hembra, &rasgos);
    assert_eq!(presa.peso_gramos, 541);
    presa.envejecer_un_dia(&rasgos);
    assert_eq!(presa.edad_dias, 1);
    assert_eq!(presa.peso_gramos, 591);
}

#[test]
fn puede_ser_cazado_desde_la_edad_de_sacrificio() {
    let rasgos = predeterminados_de(Especie::Conejo);
    let joven = Animal::new(1, Especie::Conejo, 119, Sexo::Macho, &rasgos);
    let madura = Animal::new(2, Especie::Conejo, 120, Sexo::Macho, &rasgos);
    assert!(!joven.puede_ser_cazado(&rasgos));
    assert!(madura.puede_ser_cazado(&rasgos));
}

#[test]
fn etapa_de_vida_por_edad_adulta() {
    let rasgos = predeterminados_de(Especie::Cabra);
    let cria = Animal::new(1, Especie::Cabra, 364, Sexo::Hembra, &rasgos);
    let adulta = Animal::new(2, Especie::Cabra, 365, Sexo::Hembra, &rasgos);
    assert_eq!(cria.etapa(&rasgos), EtapaDeVida::Cria);
    assert_eq!(adulta.etapa(&rasgos), EtapaDeVida::Adulto);
}

#[test]
fn poblacion_inicial_con_identificadores_consecutivos() {
    let rasgos = predeterminados_de(Especie::Cabra);
    let mut generador = <rand::rngs::StdRng as rand::SeedableRng>::seed_from_u64(77);
    let mut contador: u64 = 100;
    let poblacion = crear_poblacion_inicial(25, Especie::Cabra, &mut contador, &rasgos, &mut generador);
    assert_eq!(poblacion.len(), 25);
    assert_eq!(contador, 125);
    for (i, animal) in poblacion.iter().enumerate() {
        assert_eq!(animal.id, 100 + i as u64);
        assert_eq!(animal.especie, Especie::Cabra);
        assert!(animal.edad_dias < rasgos.edad_adulta + 30);
        assert_eq!(animal.peso_gramos, rasgos.peso_gramos(animal.edad_dias));
    }
}
