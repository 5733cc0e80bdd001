//! Lists offered while typing in the catalogue forms.
use vstd::prelude::*;

use crate::error::AppError;
use crate::texto::{decimal, iguales, texto_natural};

verus! {

/// The column by which the catalogue is filtered while typing.
#[derive(Debug, Clone, Copy, PartialEq, Eq, Structural)]
pub enum TipoFiltro {
    Marca,
    TipoProducto,
}

/// The column named by the request `tipo_filtro` (`get_filtrado_2`): "marca" or
/// "tipo_producto"; any other name is refused with "Parámetro incorrecto" and the name.
pub fn tipo_de_filtro(tipo_filtro: &str) -> (res: Result<TipoFiltro, AppError>)
    ensures
        tipo_filtro@ == "marca"@ ==> res == Ok::<TipoFiltro, AppError>(TipoFiltro::Marca),
        tipo_filtro@ == "tipo_producto"@ ==> res == Ok::<TipoFiltro, AppError>(
            TipoFiltro::TipoProducto,
        ),
        tipo_filtro@ != "marca"@ && tipo_filtro@ != "tipo_producto"@ ==> (res matches Err(
            AppError::IncorrectError(m),
        ) && m@ == "Parámetro incorrecto "@ + tipo_filtro@),
{
    proof {
        reveal_strlit("marca");
        reveal_strlit("tipo_producto");
        assert("marca"@.len() != "tipo_producto"@.len());
    }
    if iguales(tipo_filtro, "marca") {
        Ok(TipoFiltro::Marca)
    } else if iguales(tipo_filtro, "tipo_producto") {
        Ok(TipoFiltro::TipoProducto)
    } else {
        let mut m = "Parámetro incorrecto ".to_owned();
        m.append(tipo_filtro);
        Err(AppError::IncorrectError(m))
    }
}

/// The texts of a list of strings.
pub open spec fn vistas(v: Seq<String>) -> Seq<Seq<char>> {
    v.map_values(|s: String| s@)
}

/// The names found, each once, in the order of their first appearance (the original
/// collects them into a set, whose order is unspecified).
pub fn sin_repetidos(v: Vec<String>) -> (res: Vec<String>)
    ensures
        vistas(res@).no_duplicates(),
        forall|x: Seq<char>| #[trigger] vistas(res@).contains(x) <==> vistas(v@).contains(x),
{
    let ghost vs = vistas(v@);
    let mut res: Vec<String> = Vec::new();
    let mut i: usize = 0;
    while i < v.len()
        invariant
            vs == vistas(v@),
            i <= v.len(),
            vistas(res@).no_duplicates(),
            forall|x: Seq<char>|
                #[trigger] vistas(res@).contains(x) <==> exists|q: int|
                    0 <= q < i && #[trigger] vs[q] == x,
        decreases v.len() - i,
    {
        let ghost rs = vistas(res@);
        let mut j: usize = 0;
        let mut esta = false;
        while j < res.len()
            invariant
                rs == vistas(res@),
                j <= res.len(),
                esta == exists|k: int| 0 <= k < j && #[trigger] rs[k] == v@[i as int]@,
                i < v.len(),
            decreases res.len() - j,
        {
            assert(rs[j as int] == res@[j as int]@);
            if res[j] == v[i] {
                esta = true;
            }
            j = j + 1;
        }
        assert(vs[i as int] == v@[i as int]@);
        let ghost nuevo = v@[i as int]@;
        if !esta {
            res.push(v[i].clone());
            assert(vistas(res@) =~= rs.push(nuevo));
            assert forall|x: Seq<char>|
                #[trigger] rs.push(nuevo).contains(x) <==> exists|q: int|
                    0 <= q < i + 1 && #[trigger] vs[q] == x by {
                if rs.push(nuevo).contains(x) {
                    let k = choose|k: int| 0 <= k < rs.push(nuevo).len() && rs.push(nuevo)[k] == x;
                    if k < rs.len() {
                        assert(rs[k] == x);
                        assert(rs.contains(x));
                    } else {
                        assert(vs[i as int] == x);
                    }
                }
                if exists|q: int| 0 <= q < i + 1 && #[trigger] vs[q] == x {
                    let q = choose|q: int| 0 <= q < i + 1 && #[trigger] vs[q] == x;
                    if q < i {
                        assert(rs.contains(x));
                        let k = choose|k: int| 0 <= k < rs.len() && rs[k] == x;
                        assert(rs.push(nuevo)[k] == x);
                    } else {
                        assert(rs.push(nuevo)[rs.len() as int] == x);
                    }
                }
            }
            assert(!rs.contains(nuevo));
            assert(rs.push(nuevo).no_duplicates()) by {
                assert forall|a: int, b: int|
                    0 <= a < rs.push(nuevo).len() && 0 <= b < rs.push(nuevo).len() && a != b
                        implies rs.push(nuevo)[a] != rs.push(nuevo)[b] by {
                    if a < rs.len() && b < rs.len() {
                    } else if a < rs.len() {
                        assert(rs[a] == rs.push(nuevo)[a]);
                    } else if b < rs.len() {
                        assert(rs[b] == rs.push(nuevo)[b]);
                    }
                }
            }
        } else {
            let ghost k = choose|k: int| 0 <= k < j && #[trigger] rs[k] == nuevo;
            assert forall|x: Seq<char>|
                #[trigger] rs.contains(x) <==> exists|q: int|
                    0 <= q < i + 1 && #[trigger] vs[q] == x by {
                if exists|q: int| 0 <= q < i + 1 && #[trigger] vs[q] == x {
                    let q = choose|q: int| 0 <= q < i + 1 && #[trigger] vs[q] == x;
                    if q == i {
                        assert(rs[k] == x);
                    }
                }
            }
        }
        i = i + 1;
    }
    assert forall|x: Seq<char>| #[trigger] vistas(res@).contains(x) <==> vistas(v@).contains(x) by {
        if vistas(v@).contains(x) {
            let q = choose|q: int| 0 <= q < vs.len() && vs[q] == x;
        }
    }
    res
}

/// Checks that a sale has an item in position `index` before its quantity is set
/// (`Sistema::set_cantidad_producto_venta`): else the error "Producto" not found, with the
/// position as its instance.
pub fn verificar_indice(index: usize, cantidad: usize) -> (res: Result<(), AppError>)
    ensures
        res is Ok <==> index < cantidad,
        res matches Err(e) ==> (e matches AppError::NotFound { objeto, instancia } && objeto@
            == "Producto"@ && instancia@ == decimal(index as int)),
{
    if index < cantidad {
        Ok(())
    } else {
        Err(
            AppError::NotFound {
                objeto: "Producto".to_owned(),
                instancia: texto_natural(index as u64),
            },
        )
    }
}

} // verus!
