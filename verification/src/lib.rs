//! Simulación de un ecosistema cerrado de presas y depredadores que avanza en
//! días discretos: los individuos envejecen, crecen según una curva por
//! especie, se reproducen, son cazados y mueren por inanición, vejez o
//! enfermedad. Los pesos se llevan en gramos enteros y las probabilidades en
//! milésimas, de modo que toda la lógica del núcleo queda verificada.

pub mod animal;
mod azar;
pub mod config;
pub mod crecimiento;
pub mod depredador;
pub mod especies;
pub mod mundo;
pub mod reporte;
