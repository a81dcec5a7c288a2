//! Control logic for Razer laptops and the Razer laptop cooling pad: battery
//! health optimizer encoding, controller reports, the power/lighting
//! configuration and the device manager's decisions.

pub mod bho;
pub mod packet;
pub mod config;
pub mod laptop;
pub mod cooling_pad;
pub mod hex;
pub mod manager;
pub mod settings;
pub mod laws;
pub mod report_laws;
pub mod messages;

pub use bho::{bho_to_byte, byte_to_bho};
