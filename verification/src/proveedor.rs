//! Suppliers, as the point of sale stores them.
use vstd::prelude::*;

use crate::bytes::{
    lemma_opcion_ida_y_vuelta, opcion_a_bytes, opcion_be_bytes, opcion_desde_bytes,
    opcion_from_be, vista_opcion_bytes,
};
use crate::texto::{decimal, texto_entero};

verus! {

/// Abstract value of a supplier.
pub struct ProveedorVista {
    pub id: i32,
    pub nombre: Seq<char>,
    pub contacto: Option<i64>,
}

/// Abstract value of the shared form of a supplier.
pub struct ProveedorCompartidoVista {
    pub id: i32,
    pub nombre: Seq<char>,
    pub contacto: Option<Seq<u8>>,
}

/// A supplier: id, name and optional contact number.
#[derive(Debug, Clone)]
pub struct Proveedor {
    id: i32,
    nombre: String,
    contacto: Option<i64>,
}

/// The shared form of a supplier: the contact number travels as bytes.
pub struct ProveedorSH {
    pub id: i32,
    pub nombre: String,
    pub contacto: Option<[u8; 8]>,
}

impl View for Proveedor {
    type V = ProveedorVista;

    closed spec fn view(&self) -> ProveedorVista {
        ProveedorVista { id: self.id, nombre: self.nombre@, contacto: self.contacto }
    }
}

impl View for ProveedorSH {
    type V = ProveedorCompartidoVista;

    open spec fn view(&self) -> ProveedorCompartidoVista {
        ProveedorCompartidoVista {
            id: self.id,
            nombre: self.nombre@,
            contacto: vista_opcion_bytes(self.contacto),
        }
    }
}

/// The shared form of a supplier.
pub open spec fn compartir_proveedor(p: ProveedorVista) -> ProveedorCompartidoVista {
    ProveedorCompartidoVista { id: p.id, nombre: p.nombre, contacto: opcion_be_bytes(p.contacto) }
}

/// The supplier read back from its shared form.
pub open spec fn proveedor_compartido(c: ProveedorCompartidoVista) -> ProveedorVista {
    ProveedorVista { id: c.id, nombre: c.nombre, contacto: opcion_from_be(c.contacto) }
}

/// The text that shows a supplier: its name, then its contact number if it has one.
pub open spec fn texto_proveedor(p: ProveedorVista) -> Seq<char> {
    match p.contacto {
        Some(c) => p.nombre + seq![' '] + decimal(c as int),
        None => p.nombre,
    }
}

/// Sharing a supplier and reading it back gives the same supplier.
pub proof fn lemma_proveedor_ida_y_vuelta(p: ProveedorVista)
    ensures
        proveedor_compartido(compartir_proveedor(p)) == p,
{
    lemma_opcion_ida_y_vuelta(p.contacto);
}

impl Proveedor {
    pub fn build(id: i32, nombre: &str, contacto: Option<i64>) -> (res: Self)
        ensures
            res@ == (ProveedorVista { id, nombre: nombre@, contacto }),
    {
        Proveedor { id, nombre: nombre.to_owned(), contacto }
    }

    pub fn nombre(&self) -> (res: String)
        ensures
            res@ == self@.nombre,
    {
        self.nombre.clone()
    }

    pub fn id(&self) -> (res: &i32)
        ensures
            *res == self@.id,
    {
        &self.id
    }

    pub fn contacto(&self) -> (res: &Option<i64>)
        ensures
            *res == self@.contacto,
    {
        &self.contacto
    }

    /// The shared form of the supplier.
    pub fn to_shared_complete(&self) -> (res: ProveedorSH)
        ensures
            res@ == compartir_proveedor(self@),
    {
        ProveedorSH {
            id: self.id,
            nombre: self.nombre.clone(),
            contacto: opcion_a_bytes(self.contacto),
        }
    }

    /// The supplier that a shared form carries.
    pub fn from_shared_complete(proveedor: ProveedorSH) -> (res: Self)
        ensures
            res@ == proveedor_compartido(proveedor@),
    {
        Proveedor {
            id: proveedor.id,
            nombre: proveedor.nombre,
            contacto: opcion_desde_bytes(proveedor.contacto),
        }
    }

    /// The text that shows the supplier, as its `Display` writes it.
    pub fn texto(&self) -> (res: String)
        ensures
            res@ == texto_proveedor(self@),
    {
        match self.contacto {
            Some(c) => {
                let mut s = self.nombre.clone();
                proof {
                    reveal_strlit(" ");
                }
                s.append(" ");
                let n = texto_entero(c);
                s.append(n.as_str());
                s
            },
            None => self.nombre.clone(),
        }
    }
}

} // verus!
