//! The integer side of products: barcodes, supplier relations and the units of their sizes.
//!
//! A product carries up to three barcodes; an unused slot holds 0.
use vstd::prelude::*;

use crate::bytes::{a_bytes, be_bytes, desde_bytes, from_be, lemma_bytes_ida_y_vuelta};
use crate::error::AppError;
use crate::texto::iguales;

verus! {

/// A product's supplier and the supplier's own code for it, if any.
#[derive(Clone, Debug)]
pub struct RelacionProdProv {
    proveedor: i32,
    codigo_interno: Option<i32>,
}

impl View for RelacionProdProv {
    type V = (i32, Option<i32>);

    closed spec fn view(&self) -> (i32, Option<i32>) {
        (self.proveedor, self.codigo_interno)
    }
}

impl RelacionProdProv {
    pub fn build(proveedor: i32, codigo_interno: Option<i32>) -> (res: Self)
        ensures
            res@ == (proveedor, codigo_interno),
    {
        RelacionProdProv { proveedor, codigo_interno }
    }

    pub fn proveedor(&self) -> (res: &i32)
        ensures
            *res == self@.0,
    {
        &self.proveedor
    }

    pub fn codigo_interno(&self) -> (res: Option<i32>)
        ensures
            res == self@.1,
    {
        self.codigo_interno
    }
}

/// The barcodes left after removing the one in slot `i`: the later ones move up
/// and the last slot becomes 0.
pub open spec fn sin_codigo(c: Seq<i64>, i: int) -> Seq<i64> {
    if i < 3 {
        c.remove(i).push(0)
    } else {
        c.update(2, 0)
    }
}

/// Removes the barcode in slot `i` (`Producto::rm_code`).
pub fn quitar_codigo(codigos: &mut [i64; 3], i: usize)
    ensures
        final(codigos)@ == sin_codigo(old(codigos)@, i as int),
{
    let ghost inicial = codigos@;
    let mut j: usize = i;
    while j < 2
        invariant
            i <= j,
            inicial == old(codigos)@,
            codigos@.len() == 3,
            forall|k: int| 0 <= k < i && k < 3 ==> codigos@[k] == inicial[k],
            forall|k: int| i <= k < j && k < 2 ==> codigos@[k] == inicial[k + 1],
            forall|k: int| j <= k < 3 ==> codigos@[k] == inicial[k],
        decreases 2 - j,
    {
        codigos[j] = codigos[j + 1];
        j = j + 1;
    }
    codigos[2] = 0;
    assert(codigos@ =~= sin_codigo(inicial, i as int));
}

/// Two products share a barcode: some slot of one equals some slot of the other
/// (this is how products are compared).
pub open spec fn comparten(a: Seq<i64>, b: Seq<i64>) -> bool {
    exists|i: int, j: int| 0 <= i < a.len() && 0 <= j < b.len() && a[i] == b[j]
}

/// Whether two products share a barcode (`Producto::eq`).
pub fn comparten_codigo(a: &[i64; 3], b: &[i64; 3]) -> (res: bool)
    ensures
        res == comparten(a@, b@),
{
    let mut i: usize = 0;
    while i < 3
        invariant
            i <= 3,
            a@.len() == 3,
            b@.len() == 3,
            forall|x: int, y: int| 0 <= x < i && 0 <= y < 3 ==> a@[x] != b@[y],
        decreases 3 - i,
    {
        let mut j: usize = 0;
        while j < 3
            invariant
                i < 3,
                j <= 3,
                a@.len() == 3,
                b@.len() == 3,
                forall|x: int, y: int| 0 <= x < i && 0 <= y < 3 ==> a@[x] != b@[y],
                forall|y: int| 0 <= y < j ==> a@[i as int] != b@[y],
            decreases 3 - j,
        {
            if a[i] == b[j] {
                return true;
            }
            j = j + 1;
        }
        i = i + 1;
    }
    false
}

/// Sharing a barcode does not depend on which product comes first.
pub proof fn lemma_comparten_simetrico(a: Seq<i64>, b: Seq<i64>)
    ensures
        comparten(a, b) == comparten(b, a),
{
    if comparten(a, b) {
        let (i, j) = choose|i: int, j: int| 0 <= i < a.len() && 0 <= j < b.len() && a[i] == b[j];
        assert(0 <= j < b.len() && 0 <= i < a.len() && b[j] == a[i]);
    }
    if comparten(b, a) {
        let (i, j) = choose|i: int, j: int| 0 <= i < b.len() && 0 <= j < a.len() && b[i] == a[j];
        assert(0 <= j < a.len() && 0 <= i < b.len() && a[j] == b[i]);
    }
}

/// The bytes of the barcode `codigo` when it is one of the product's barcodes
/// (`Producto::to_shared`); otherwise the error "Codigo no encontrado".
pub fn buscar_codigo(codigos: &[i64; 3], codigo: i64) -> (res: Result<[u8; 8], AppError>)
    ensures
        res is Ok <==> codigos@.contains(codigo),
        res matches Ok(b) ==> b@ == be_bytes(codigo),
        res matches Err(e) ==> (e matches AppError::IncorrectError(m) && m@
            == "Codigo no encontrado"@),
{
    let mut i: usize = 0;
    while i < 3
        invariant
            i <= 3,
            codigos@.len() == 3,
            forall|k: int| 0 <= k < i ==> codigos@[k] != codigo,
        decreases 3 - i,
    {
        if codigos[i] == codigo {
            assert(codigos@[i as int] == codigo);
            return Ok(a_bytes(codigos[i]));
        }
        i = i + 1;
    }
    Err(AppError::IncorrectError("Codigo no encontrado".to_owned()))
}

/// The three barcode slots filled from the rows that the database returned, the unused
/// ones 0; an error with `mensaje` when there are none or more than three.
pub fn codigos_desde_filas(filas: &Vec<i64>, mensaje: &str) -> (res: Result<[i64; 3], AppError>)
    ensures
        res is Ok <==> 1 <= filas.len() <= 3,
        res matches Ok(c) ==> (forall|k: int|
            0 <= k < 3 ==> #[trigger] c@[k] == if k < filas.len() {
                filas@[k]
            } else {
                0
            }),
        res matches Err(e) ==> (e matches AppError::IncorrectError(m) && m@ == mensaje@),
{
    let len = filas.len();
    if len > 3 || len < 1 {
        return Err(AppError::IncorrectError(mensaje.to_owned()));
    }
    let mut codigos: [i64; 3] = [0, 0, 0];
    let mut i: usize = 0;
    while i < len
        invariant
            len == filas.len(),
            len <= 3,
            i <= len,
            codigos@.len() == 3,
            forall|k: int| 0 <= k < i ==> codigos@[k] == filas@[k],
            forall|k: int| i <= k < 3 ==> codigos@[k] == 0,
        decreases len - i,
    {
        codigos[i] = filas[i];
        i = i + 1;
    }
    Ok(codigos)
}

/// The bytes of the three barcodes, as the complete shared form of a product carries them.
pub fn codigos_a_bytes(codigos: &[i64; 3]) -> (res: [[u8; 8]; 3])
    ensures
        forall|k: int| 0 <= k < 3 ==> #[trigger] res@[k]@ == be_bytes(codigos@[k]),
{
    [a_bytes(codigos[0]), a_bytes(codigos[1]), a_bytes(codigos[2])]
}

/// The three barcodes read from their bytes.
pub fn codigos_desde_bytes(b: &[[u8; 8]; 3]) -> (res: [i64; 3])
    ensures
        forall|k: int| 0 <= k < 3 ==> #[trigger] res@[k] == from_be(b@[k]@),
{
    [desde_bytes(b[0]), desde_bytes(b[1]), desde_bytes(b[2])]
}

/// Barcodes written as bytes read back as the same barcodes.
pub proof fn lemma_codigos_ida_y_vuelta(c: Seq<i64>)
    requires
        c.len() == 3,
    ensures
        forall|k: int| 0 <= k < 3 ==> #[trigger] from_be(be_bytes(c[k])) == c[k],
{
    lemma_bytes_ida_y_vuelta(c[0]);
    lemma_bytes_ida_y_vuelta(c[1]);
    lemma_bytes_ida_y_vuelta(c[2]);
}

/// The unit in which a product's size is given (the name of its `Presentacion`).
#[derive(Debug, Clone, Copy, PartialEq, Eq, Structural)]
pub enum Unidad {
    Gr,
    Un,
    Lt,
    Ml,
    CC,
    Kg,
}

/// The name under which a unit is stored.
pub open spec fn nombre_unidad(u: Unidad) -> Seq<char> {
    match u {
        Unidad::Gr => "Gr"@,
        Unidad::Un => "Un"@,
        Unidad::Lt => "Lt"@,
        Unidad::Ml => "Ml"@,
        Unidad::CC => "CC"@,
        Unidad::Kg => "Kg"@,
    }
}

/// The unit stored under a name, if any.
pub open spec fn unidad_de_nombre(s: Seq<char>) -> Option<Unidad> {
    if s == "Gr"@ {
        Some(Unidad::Gr)
    } else if s == "Un"@ {
        Some(Unidad::Un)
    } else if s == "Lt"@ {
        Some(Unidad::Lt)
    } else if s == "Ml"@ {
        Some(Unidad::Ml)
    } else if s == "CC"@ {
        Some(Unidad::CC)
    } else if s == "Kg"@ {
        Some(Unidad::Kg)
    } else {
        None
    }
}

impl Unidad {
    /// The stored name of the unit (`Presentacion::get_string`).
    pub fn texto(&self) -> (res: String)
        ensures
            res@ == nombre_unidad(*self),
    {
        match self {
            Unidad::Gr => "Gr".to_owned(),
            Unidad::Un => "Un".to_owned(),
            Unidad::Lt => "Lt".to_owned(),
            Unidad::Ml => "Ml".to_owned(),
            Unidad::CC => "CC".to_owned(),
            Unidad::Kg => "Kg".to_owned(),
        }
    }
}

/// The unit of a stored product's size (`Mapper::producto`); any other name is refused
/// with `SizeSelection` and the name.
pub fn unidad_desde_texto(s: &str) -> (res: Result<Unidad, AppError>)
    ensures
        unidad_de_nombre(s@) matches Some(u) ==> res == Ok::<Unidad, AppError>(u),
        unidad_de_nombre(s@) is None ==> (res matches Err(AppError::SizeSelection(m)) && m@
            == s@),
{
    if iguales(s, "Gr") {
        Ok(Unidad::Gr)
    } else if iguales(s, "Un") {
        Ok(Unidad::Un)
    } else if iguales(s, "Lt") {
        Ok(Unidad::Lt)
    } else if iguales(s, "Ml") {
        Ok(Unidad::Ml)
    } else if iguales(s, "CC") {
        Ok(Unidad::CC)
    } else if iguales(s, "Kg") {
        Ok(Unidad::Kg)
    } else {
        Err(AppError::SizeSelection(s.to_owned()))
    }
}

/// A stored unit reads back as the same unit.
pub proof fn lemma_unidad_ida_y_vuelta(u: Unidad)
    ensures
        unidad_de_nombre(nombre_unidad(u)) == Some(u),
{
    reveal_strlit("Gr");
    reveal_strlit("Un");
    reveal_strlit("Lt");
    reveal_strlit("Ml");
    reveal_strlit("CC");
    reveal_strlit("Kg");
    assert("Gr"@[0] != "Un"@[0] && "Gr"@[0] != "Lt"@[0] && "Gr"@[0] != "Ml"@[0]);
    assert("Gr"@[0] != "CC"@[0] && "Gr"@[0] != "Kg"@[0] && "Un"@[0] != "Lt"@[0]);
    assert("Un"@[0] != "Ml"@[0] && "Un"@[0] != "CC"@[0] && "Un"@[0] != "Kg"@[0]);
    assert("Lt"@[0] != "Ml"@[0] && "Lt"@[0] != "CC"@[0] && "Lt"@[0] != "Kg"@[0]);
    assert("Ml"@[0] != "CC"@[0] && "Ml"@[0] != "Kg"@[0] && "CC"@[0] != "Kg"@[0]);
}

/// Each unit is stored under its own name ("Gr", "Un", "Lt", "Ml", "CC", "Kg"), and each of
/// those names reads as that unit.
pub proof fn lemma_nombres_de_unidad()
    ensures
        nombre_unidad(Unidad::Gr) == "Gr"@,
        nombre_unidad(Unidad::Un) == "Un"@,
        nombre_unidad(Unidad::Lt) == "Lt"@,
        nombre_unidad(Unidad::Ml) == "Ml"@,
        nombre_unidad(Unidad::CC) == "CC"@,
        nombre_unidad(Unidad::Kg) == "Kg"@,
        unidad_de_nombre("Gr"@) == Some(Unidad::Gr),
        unidad_de_nombre("Un"@) == Some(Unidad::Un),
        unidad_de_nombre("Lt"@) == Some(Unidad::Lt),
        unidad_de_nombre("Ml"@) == Some(Unidad::Ml),
        unidad_de_nombre("CC"@) == Some(Unidad::CC),
        unidad_de_nombre("Kg"@) == Some(Unidad::Kg),
{
    lemma_unidad_ida_y_vuelta(Unidad::Gr);
    lemma_unidad_ida_y_vuelta(Unidad::Un);
    lemma_unidad_ida_y_vuelta(Unidad::Lt);
    lemma_unidad_ida_y_vuelta(Unidad::Ml);
    lemma_unidad_ida_y_vuelta(Unidad::CC);
    lemma_unidad_ida_y_vuelta(Unidad::Kg);
}

} // verus!
