use vstd::prelude::*;

pub mod bytes;
pub mod clave;
pub mod config;
pub mod consultas;
pub mod error;
pub mod filtros;
pub mod espera;
pub mod modelos;
pub mod texto;
pub mod user;
pub mod pago;
pub mod producto;
pub mod proveedor;
pub mod sesion;
pub mod vista;

verus! {

} // verus!
