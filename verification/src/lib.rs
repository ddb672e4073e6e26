//! Home-automation controller: device states, device locks, the simulated
//! clock, access control and the rules that drive the house.

pub mod relogio;
pub mod dispositivos;
pub mod travas;
pub mod senhas;
pub mod estado;
pub mod clima;
pub mod leis;
