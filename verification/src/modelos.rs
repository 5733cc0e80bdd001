//! Rows that the database returns, and their mapping to the library's types.
use vstd::prelude::*;

use crate::consultas::TipoValuable;
use crate::producto::RelacionProdProv;

verus! {

/// A row with one 64-bit integer column.
pub struct BigIntDB {
    pub int: i64,
}

/// A row with one 32-bit integer column.
pub struct IntDB {
    pub int: i32,
}

/// A row with one boolean column.
pub struct BoolDB {
    pub val: bool,
}

/// A row with one text column.
pub struct StringDB {
    pub string: String,
}

/// A row of the means of payment.
pub struct MedioPagoDB {
    pub id: i32,
    pub medio: String,
}

/// A row of the barcodes: the barcode and the item it belongs to.
pub struct CodeDB {
    pub codigo: i64,
    pub producto: Option<i32>,
    pub pesable: Option<i32>,
    pub rubro: Option<i32>,
}

/// A row of the users.
pub struct UserDB {
    pub id: i32,
    pub user_id: String,
    pub nombre: String,
    pub pass: i64,
    pub rango: String,
}

/// A row of the relations between products and suppliers.
pub struct RelacionProdProvDB {
    pub id: i32,
    pub producto: i32,
    pub proveedor: i32,
    pub codigo: Option<i32>,
}

/// Maps rows of the database to the library's types.
#[derive(Clone)]
pub struct Mapper;

/// Operations on the database as a whole.
pub struct Db;

impl Mapper {
    /// The relation that a row describes.
    pub fn rel_prod_prov(rel: &RelacionProdProvDB) -> (res: RelacionProdProv)
        ensures
            res@ == (rel.proveedor, rel.codigo),
    {
        RelacionProdProv::build(rel.proveedor, rel.codigo)
    }
}

/// The kind of item that a barcode row points to: a product if it names one, else a
/// product sold by weight, else a department.
pub open spec fn tipo_de_fila(code: CodeDB) -> Option<TipoValuable> {
    if code.producto is Some {
        Some(TipoValuable::Prod)
    } else if code.pesable is Some {
        Some(TipoValuable::Pes)
    } else if code.rubro is Some {
        Some(TipoValuable::Rub)
    } else {
        None
    }
}

/// The kind of item that a barcode row points to (as `Sistema::val_filtrado` reads it).
pub fn tipo_de_codigo(code: &CodeDB) -> (res: Option<TipoValuable>)
    ensures
        res == tipo_de_fila(*code),
{
    if code.producto.is_some() {
        Some(TipoValuable::Prod)
    } else if code.pesable.is_some() {
        Some(TipoValuable::Pes)
    } else if code.rubro.is_some() {
        Some(TipoValuable::Rub)
    } else {
        None
    }
}

} // verus!
