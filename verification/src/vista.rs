//! Types and helpers of the web view.
pub mod alta_producto;
pub mod enums;
pub mod proveedor;
pub mod utiles;
