//! Suppliers as the web view holds them.
use vstd::prelude::*;

use crate::bytes::{
    lemma_opcion_ida_y_vuelta, opcion_a_bytes, opcion_be_bytes, opcion_desde_bytes,
    opcion_from_be, vista_opcion_bytes,
};

verus! {

/// A supplier in the web view.
#[derive(Debug, Clone)]
pub struct Proveedor {
    pub id: i32,
    pub nombre: String,
    pub contacto: Option<i64>,
}

/// The shared form of a supplier in the web view.
#[derive(Clone, Debug)]
pub struct ProveedorSH {
    pub id: i32,
    pub nombre: String,
    pub contacto: Option<[u8; 8]>,
}

/// The fields of the shared form of a web-view supplier.
pub open spec fn compartir(p: Proveedor) -> (i32, Seq<char>, Option<Seq<u8>>) {
    (p.id, p.nombre@, opcion_be_bytes(p.contacto))
}

/// The fields of the web-view supplier read back from a shared form.
pub open spec fn leer(sh: (i32, Seq<char>, Option<Seq<u8>>)) -> (i32, Seq<char>, Option<i64>) {
    (sh.0, sh.1, opcion_from_be(sh.2))
}

/// Sharing a web-view supplier and reading it back gives the same fields.
pub proof fn lemma_proveedor_vista_ida_y_vuelta(p: Proveedor)
    ensures
        leer(compartir(p)) == (p.id, p.nombre@, p.contacto),
{
    lemma_opcion_ida_y_vuelta(p.contacto);
}

impl Proveedor {
    pub fn new(id: i32, nombre: String, contacto: Option<i64>) -> (res: Proveedor)
        ensures
            res.id == id,
            res.nombre == nombre,
            res.contacto == contacto,
    {
        Proveedor { id, nombre, contacto }
    }

    /// The shared form of the supplier.
    pub fn to_shared(&self) -> (res: ProveedorSH)
        ensures
            (res.id, res.nombre@, vista_opcion_bytes(res.contacto)) == compartir(*self),
    {
        ProveedorSH {
            id: self.id,
            nombre: self.nombre.clone(),
            contacto: opcion_a_bytes(self.contacto),
        }
    }

    /// The supplier that a shared form carries.
    pub fn from_shared(proveedor: ProveedorSH) -> (res: Self)
        ensures
            (res.id, res.nombre@, res.contacto) == leer(
                (proveedor.id, proveedor.nombre@, vista_opcion_bytes(proveedor.contacto)),
            ),
    {
        Proveedor {
            id: proveedor.id,
            nombre: proveedor.nombre,
            contacto: opcion_desde_bytes(proveedor.contacto),
        }
    }
}

} // verus!
