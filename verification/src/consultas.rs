//! The text of the SQL statements that the point of sale sends, and the values bound to them.
//!
//! Statements that insert many rows repeat a row of placeholders once per item;
//! the values are bound afterwards in the same order.
use vstd::prelude::*;

use crate::texto::{dividir_filtro, entero_desde_texto, entero_valido, palabras, valor_texto};

verus! {

/// `fila` written `n` times.
pub open spec fn repetir(fila: Seq<char>, n: nat) -> Seq<char>
    decreases n,
{
    if n == 0 {
        seq![]
    } else {
        repetir(fila, (n - 1) as nat) + fila
    }
}

/// How many rows follow the first one for `cantidad` items (a loop over `1..cantidad`).
pub open spec fn filas_extra(cantidad: nat) -> nat {
    if cantidad > 0 {
        (cantidad - 1) as nat
    } else {
        0
    }
}

/// `base` followed by `fila` `n` times.
pub fn repetir_filas(base: &str, fila: &str, n: usize) -> (res: String)
    ensures
        res@ == base@ + repetir(fila@, n as nat),
{
    let mut s = base.to_owned();
    let mut i: usize = 0;
    while i < n
        invariant
            i <= n,
            s@ == base@ + repetir(fila@, i as nat),
        decreases n - i,
    {
        s.append(fila);
        i = i + 1;
        assert(s@ =~= base@ + repetir(fila@, i as nat));
    }
    s
}

/// A statement for `cantidad` items whose first row is in `base` and whose other rows
/// are `fila` each: `base` followed by `fila` once per item after the first.
pub fn consulta_para(base: &str, fila: &str, cantidad: usize) -> (res: String)
    ensures
        res@ == base@ + repetir(fila@, filas_extra(cantidad as nat)),
{
    let extra: usize = if cantidad > 0 {
        cantidad - 1
    } else {
        0
    };
    repetir_filas(base, fila, extra)
}

/// The batches in which products are loaded: ten at a time, the last one shorter.
pub open spec fn lote(len: nat, k: int) -> (usize, usize) {
    let inicio = 10 * k;
    let fin = if len - inicio <= 10 {
        len as int
    } else {
        inicio + 10
    };
    (inicio as usize, fin as usize)
}

/// The ranges `[inicio, fin)` of the batches of ten in which `len` products are loaded
/// (`Db::cargar_todos_los_productos`).
pub fn lotes_de_diez(len: usize) -> (res: Vec<(usize, usize)>)
    ensures
        res.len() == (len + 9) / 10,
        forall|k: int| 0 <= k < res.len() ==> #[trigger] res@[k] == lote(len as nat, k),
{
    let mut res: Vec<(usize, usize)> = Vec::new();
    let mut i: usize = 0;
    while i < len
        invariant
            i <= len + 9,
            i % 10 == 0,
            res.len() == i / 10,
            i < len ==> res.len() * 10 == i,
            i >= len ==> res.len() == (len + 9) / 10,
            forall|k: int| 0 <= k < res.len() ==> #[trigger] res@[k] == lote(len as nat, k),
        decreases len - i,
    {
        let fin = if len - i <= 10 {
            len
        } else {
            i + 10
        };
        res.push((i, fin));
        assert(res@[res.len() - 1] == lote(len as nat, (res.len() - 1) as int));
        if len - i <= 10 {
            assert(res.len() == (len + 9) / 10);
            return res;
        }
        i = i + 10;
    }
    res
}

/// Consecutive batches cover all the products, each exactly once.
pub proof fn lemma_lotes_cubren(len: nat, k: int)
    requires
        len <= usize::MAX,
        0 <= k < (len + 9) / 10,
    ensures
        lote(len, k).0 as int == 10 * k,
        lote(len, k).0 < lote(len, k).1 <= len,
        k + 1 < (len + 9) / 10 ==> lote(len, k).1 == lote(len, k + 1).0,
        k + 1 == (len + 9) / 10 ==> lote(len, k).1 == len,
{
    assert(10 * k < len) by (nonlinear_arith)
        requires
            0 <= k < (len + 9) / 10,
    ;
    assert(k + 1 < (len + 9) / 10 ==> 10 * (k + 1) < len) by (nonlinear_arith)
        requires
            0 <= k,
    ;
    assert(k + 1 == (len + 9) / 10 ==> len - 10 * k <= 10) by (nonlinear_arith)
        requires
            0 <= k,
    ;
}

/// `fila` written `n` times, separated by commas.
#[verifier::opaque]
pub open spec fn lista_filas(fila: Seq<char>, n: nat) -> Seq<char>
    decreases n,
{
    if n == 0 {
        seq![]
    } else if n == 1 {
        fila
    } else {
        lista_filas(fila, (n - 1) as nat) + seq![','] + fila
    }
}

/// The row of placeholders for one barcode: `(?, ?)`.
pub open spec fn fila_codigo() -> Seq<char> {
    "(?, ?)"@
}

/// The row for barcode `c` of a product in the batch statement: nothing for an unused
/// slot (0), else the row, after a comma when it does not open the list.
pub open spec fn fila_de_codigo(c: i64, separar: bool) -> Seq<char> {
    if c != 0 {
        if separar {
            seq![','] + fila_codigo()
        } else {
            fila_codigo()
        }
    } else {
        seq![]
    }
}

/// The rows for the barcodes of the product in position `i` of the batch: its first
/// slot is preceded by a comma unless it is the first product.
pub open spec fn filas_de_producto(c: Seq<i64>, i: int) -> Seq<char> {
    fila_de_codigo(c[0], i > 0) + fila_de_codigo(c[1], true) + fila_de_codigo(c[2], true)
}

/// The barcode rows of a batch of products `(id, barcodes)`.
#[verifier::opaque]
pub open spec fn filas_codigos(ps: Seq<(i32, [i64; 3])>) -> Seq<char>
    decreases ps.len(),
{
    if ps.len() == 0 {
        seq![]
    } else {
        filas_codigos(ps.drop_last()) + filas_de_producto(ps.last().1@, ps.len() - 1)
    }
}

/// The `(barcode, product id)` pairs bound for one product: its non-zero barcodes in order.
pub open spec fn pares_de(id: i32, c: Seq<i64>) -> Seq<(i64, i32)> {
    (if c[0] != 0 {
        seq![(c[0], id)]
    } else {
        seq![]
    }) + (if c[1] != 0 {
        seq![(c[1], id)]
    } else {
        seq![]
    }) + (if c[2] != 0 {
        seq![(c[2], id)]
    } else {
        seq![]
    })
}

/// The `(barcode, product id)` pairs bound for a batch of products.
#[verifier::opaque]
pub open spec fn pares_codigos(ps: Seq<(i32, [i64; 3])>) -> Seq<(i64, i32)>
    decreases ps.len(),
{
    if ps.len() == 0 {
        seq![]
    } else {
        pares_codigos(ps.drop_last()) + pares_de(ps.last().0, ps.last().1@)
    }
}

/// The head of the statement that inserts a batch of products.
pub open spec fn inicio_lote_productos() -> Seq<char> {
    "insert into productos\n        (id, precio_venta, porcentaje, precio_costo, tipo, marca, variedad, presentacion, size, updated_at)\n         values "@
}

/// The row of placeholders for one product of a batch.
pub open spec fn fila_producto() -> Seq<char> {
    "(?, ?, ?, ?, ?, ?, ?, ?, ?, ?)"@
}

/// The head of the statement that inserts the barcodes of a batch of products.
pub open spec fn inicio_lote_codigos() -> Seq<char> {
    "insert into codigos (codigo, producto) values "@
}

/// The statements that load one batch of products, and the barcode values to bind.
pub struct LoteProductos {
    pub consulta_productos: String,
    pub consulta_codigos: String,
    pub codigos: Vec<(i64, i32)>,
}

fn agregar_codigo(
    consulta: &mut String,
    pares: &mut Vec<(i64, i32)>,
    c: i64,
    id: i32,
    separar: bool,
)
    ensures
        final(consulta)@ == old(consulta)@ + fila_de_codigo(c, separar),
        final(pares)@ == old(pares)@ + (if c != 0 {
            seq![(c, id)]
        } else {
            seq![]
        }),
{
    if c != 0 {
        if separar {
            consulta.append(",");
            proof {
                reveal_strlit(",");
            }
        }
        consulta.append("(?, ?)");
        pares.push((c, id));
    }
    assert(consulta@ =~= old(consulta)@ + fila_de_codigo(c, separar));
    assert(pares@ =~= old(pares)@ + (if c != 0 {
        seq![(c, id)]
    } else {
        seq![]
    }));
}

proof fn lemma_lista_filas_paso(fila: Seq<char>, i: nat)
    ensures
        lista_filas(fila, i + 1) == lista_filas(fila, i) + (if i > 0 {
            seq![',']
        } else {
            seq![]
        }) + fila,
{
    reveal_with_fuel(lista_filas, 2);
    if i == 0 {
        assert(lista_filas(fila, 0) + seq![] + fila =~= fila);
    }
}

proof fn lemma_lote_paso(ps: Seq<(i32, [i64; 3])>, i: int)
    requires
        0 <= i < ps.len(),
    ensures
        filas_codigos(ps.take(i + 1)) == filas_codigos(ps.take(i)) + filas_de_producto(
            ps[i].1@,
            i,
        ),
        pares_codigos(ps.take(i + 1)) == pares_codigos(ps.take(i)) + pares_de(ps[i].0, ps[i].1@),
{
    reveal(filas_codigos);
    reveal(pares_codigos);
    assert(ps.take(i + 1).drop_last() =~= ps.take(i));
    assert(ps.take(i + 1).last() == ps[i]);
}

/// The statements that load a batch of products with their barcodes
/// (`Db::cargar_batch_prods`): one product row per product, one barcode row per
/// non-zero barcode, and the `(barcode, product id)` pairs to bind, in order.
#[verifier::rlimit(40)]
pub fn lote_productos(productos: &Vec<(i32, [i64; 3])>) -> (res: LoteProductos)
    ensures
        res.consulta_productos@ == inicio_lote_productos() + lista_filas(
            fila_producto(),
            productos.len() as nat,
        ),
        res.consulta_codigos@ == inicio_lote_codigos() + filas_codigos(productos@),
        res.codigos@ == pares_codigos(productos@),
{
    let mut consulta_productos = "insert into productos\n        (id, precio_venta, porcentaje, precio_costo, tipo, marca, variedad, presentacion, size, updated_at)\n         values ".to_owned();
    let mut consulta_codigos = "insert into codigos (codigo, producto) values ".to_owned();
    let mut codigos: Vec<(i64, i32)> = Vec::new();
    let n = productos.len();
    let mut i: usize = 0;
    proof {
        reveal(lista_filas);
        reveal(filas_codigos);
        reveal(pares_codigos);
        assert(productos@.take(0) =~= Seq::<(i32, [i64; 3])>::empty());
        assert(consulta_productos@ =~= inicio_lote_productos() + lista_filas(fila_producto(), 0));
        assert(consulta_codigos@ =~= inicio_lote_codigos() + filas_codigos(productos@.take(0)));
    }
    while i < n
        invariant
            n == productos.len(),
            i <= n,
            consulta_productos@ == inicio_lote_productos() + lista_filas(
                fila_producto(),
                i as nat,
            ),
            consulta_codigos@ == inicio_lote_codigos() + filas_codigos(productos@.take(i as int)),
            codigos@ == pares_codigos(productos@.take(i as int)),
        decreases n - i,
    {
        proof {
            reveal_strlit(",");
        }
        if i > 0 {
            consulta_productos.append(",");
        }
        consulta_productos.append("(?, ?, ?, ?, ?, ?, ?, ?, ?, ?)");
        proof {
            lemma_lista_filas_paso(fila_producto(), i as nat);
            assert(consulta_productos@ =~= inicio_lote_productos() + lista_filas(
                fila_producto(),
                (i + 1) as nat,
            ));
        }
        let ghost antes_codigos = consulta_codigos@;
        let ghost antes_pares = codigos@;
        let (id, c) = productos[i];
        agregar_codigo(&mut consulta_codigos, &mut codigos, c[0], id, i > 0);
        agregar_codigo(&mut consulta_codigos, &mut codigos, c[1], id, true);
        agregar_codigo(&mut consulta_codigos, &mut codigos, c[2], id, true);
        proof {
            lemma_lote_paso(productos@, i as int);
            assert(consulta_codigos@ =~= antes_codigos + filas_de_producto(c@, i as int));
            assert(codigos@ =~= antes_pares + pares_de(id, c@));
        }
        i = i + 1;
    }
    assert(productos@.take(n as int) =~= productos@);
    LoteProductos { consulta_productos, consulta_codigos, codigos }
}

/// The kind of an item of the catalogue: a product sold by the unit, a product sold by
/// weight, or a department (an item whose amount is typed at the till).
#[derive(Debug, Clone, Copy, PartialEq, Eq, Structural)]
pub enum TipoValuable {
    Prod,
    Pes,
    Rub,
}

/// The head of the product search, with the condition for the first word.
pub open spec fn busqueda_productos() -> Seq<char> {
    "select id, precio_venta, porcentaje, precio_costo, tipo, marca, variedad, presentacion, size, updated_at from productos where ((tipo like ?) or (marca like ?) or (variedad like ?) or (presentacion like ?) or (size like ?))"@
}

/// The condition of the product search for each further word.
pub open spec fn condicion_productos() -> Seq<char> {
    " and ((tipo like ?) or (marca like ?) or (variedad like ?) or (presentacion like ?) or (size like ?))"@
}

/// The head of the search of products sold by weight.
pub open spec fn busqueda_pesables() -> Seq<char> {
    "select id, precio_peso, codigo, porcentaje, costo_kilo, descripcion, updated_at from pesables inner join codigos on pesables.id = codigos.pesable where (descripcion like ?)"@
}

/// The head of the search of departments.
pub open spec fn busqueda_rubros() -> Seq<char> {
    "select id, descripcion, updated_at, codigo from rubros inner join codigos on rubros.id = codigos.rubro where (descripcion like ?)"@
}

/// The condition of the searches by description for each further word.
pub open spec fn condicion_descripcion() -> Seq<char> {
    " and (descripcion like ?)"@
}

/// The limit that closes each search.
pub open spec fn limite_busqueda() -> Seq<char> {
    " limit 15"@
}

/// The pattern that matches a word anywhere in a column: `%word%`.
pub open spec fn patron(w: Seq<char>) -> Seq<char> {
    seq!['%'] + w + seq!['%']
}

/// The statements of a search by text and the patterns bound to them, one per word.
pub struct BusquedaTexto {
    pub productos: String,
    pub pesables: String,
    pub rubros: String,
    pub patrones: Vec<String>,
}

/// How a filter typed at the till is searched: a filter that reads as an integer is a
/// barcode; any other is split into words, each of which must match.
pub enum PlanFiltrado {
    Codigo(i64),
    Texto(BusquedaTexto),
}

/// The search for a filter (`Sistema::val_filtrado`).
pub fn plan_filtrado(filtro: &str) -> (res: PlanFiltrado)
    ensures
        entero_valido(filtro@) ==> (res matches PlanFiltrado::Codigo(c) && c as int == valor_texto(
            filtro@,
        )),
        !entero_valido(filtro@) ==> (res matches PlanFiltrado::Texto(b) && {
            let n = palabras(filtro@).len();
            &&& b.productos@ == busqueda_productos() + repetir(
                condicion_productos(),
                filas_extra(n),
            ) + limite_busqueda()
            &&& b.pesables@ == busqueda_pesables() + repetir(
                condicion_descripcion(),
                filas_extra(n),
            ) + limite_busqueda()
            &&& b.rubros@ == busqueda_rubros() + repetir(condicion_descripcion(), filas_extra(n))
                + limite_busqueda()
            &&& b.patrones@.map_values(|p: String| p@) == palabras(filtro@).map_values(
                |w: Seq<char>| patron(w),
            )
        }),
{
    match entero_desde_texto(filtro) {
        Some(c) => PlanFiltrado::Codigo(c),
        None => {
            let filtros = dividir_filtro(filtro);
            let n = filtros.len();
            let mut productos = consulta_para(
                "select id, precio_venta, porcentaje, precio_costo, tipo, marca, variedad, presentacion, size, updated_at from productos where ((tipo like ?) or (marca like ?) or (variedad like ?) or (presentacion like ?) or (size like ?))",
                " and ((tipo like ?) or (marca like ?) or (variedad like ?) or (presentacion like ?) or (size like ?))",
                n,
            );
            productos.append(" limit 15");
            let mut pesables = consulta_para(
                "select id, precio_peso, codigo, porcentaje, costo_kilo, descripcion, updated_at from pesables inner join codigos on pesables.id = codigos.pesable where (descripcion like ?)",
                " and (descripcion like ?)",
                n,
            );
            pesables.append(" limit 15");
            let mut rubros = consulta_para(
                "select id, descripcion, updated_at, codigo from rubros inner join codigos on rubros.id = codigos.rubro where (descripcion like ?)",
                " and (descripcion like ?)",
                n,
            );
            rubros.append(" limit 15");
            let mut patrones: Vec<String> = Vec::new();
            let mut i: usize = 0;
            while i < n
                invariant
                    n == filtros.len(),
                    i <= n,
                    patrones.len() == i,
                    forall|k: int|
                        0 <= k < i ==> #[trigger] patrones@[k]@ == patron(filtros@[k]@),
                decreases n - i,
            {
                proof {
                    reveal_strlit("%");
                }
                let mut p = "%".to_owned();
                p.append(filtros[i].as_str());
                p.append("%");
                assert(p@ =~= patron(filtros@[i as int]@));
                patrones.push(p);
                i = i + 1;
            }
            proof {
                let vistas = filtros@.map_values(|w: String| w@);
                assert(vistas == palabras(filtro@));
                let ma = patrones@.map_values(|p: String| p@);
                let mb = palabras(filtro@).map_values(|w: Seq<char>| patron(w));
                assert forall|k: int| 0 <= k < n implies #[trigger] ma[k] == mb[k] by {
                    assert(vistas[k] == filtros@[k]@);
                }
                assert(ma =~= mb);
            }
            PlanFiltrado::Texto(BusquedaTexto { productos, pesables, rubros, patrones })
        },
    }
}

/// How many items of kind `t` stand after the first position of `tipos`.
pub open spec fn despues_del_primero(tipos: Seq<TipoValuable>, t: TipoValuable) -> nat
    decreases tipos.len(),
{
    if tipos.len() == 0 {
        0
    } else {
        despues_del_primero(tipos.drop_last(), t) + if tipos.len() > 1 && tipos.last() == t {
            1nat
        } else {
            0nat
        }
    }
}

/// The row of placeholders for one item of a sale.
pub open spec fn fila_item_venta() -> Seq<char> {
    ", (?, ?, ?, ?, ?)"@
}

/// The statements that store a closed sale, and what decides which items are bound.
pub struct PlanGuardado {
    /// Whether the sale is stored as paid off.
    pub paga: bool,
    /// The customer under which the sale is stored (1 is the final consumer).
    pub cliente: i32,
    pub consulta_pagos: String,
    pub consulta_productos: String,
    pub consulta_pesables: String,
    pub consulta_rubros: String,
    /// Whether the products sold by the unit are stored (and bound).
    pub con_productos: bool,
    /// Whether the products sold by weight are stored (and bound).
    pub con_pesables: bool,
    /// Whether the departments are stored (and bound).
    pub con_rubros: bool,
}

/// The statements that store a sale (`Venta::guardar`), given the kinds of its items in
/// order, its number of payments, its customer (`None` for the final consumer, else the
/// customer's id) and whether it is paid off.
/// A sale of the final consumer is always stored as paid off under customer 1. A row is
/// added for each item of a kind after the first position of the sale; products sold by
/// weight and departments are stored only when one stands after the first position.
pub fn plan_guardar(
    tipos: &Vec<TipoValuable>,
    cantidad_pagos: usize,
    cliente: Option<i32>,
    paga: bool,
) -> (res: PlanGuardado)
    ensures
        res.paga == (cliente is None || paga),
        res.cliente == (match cliente {
            Some(d) => d,
            None => 1,
        }),
        res.consulta_pagos@ == "INSERT INTO pagos (medio_pago, monto, pagado, venta) VALUES (?, ?, ?, ?)"@
            + repetir(", (?, ?, ?, ?)"@, filas_extra(cantidad_pagos as nat)),
        res.consulta_productos@
            == "INSERT INTO relacion_venta_prod (venta, producto, cantidad, precio, pos) VALUES (?, ?, ?, ?, ?)"@
            + repetir(fila_item_venta(), despues_del_primero(tipos@, TipoValuable::Prod)),
        res.consulta_pesables@
            == "INSERT INTO relacion_venta_pes (venta, pesable, cantidad, precio_kilo) VALUES (?, ?, ?, ?, ?)"@
            + repetir(fila_item_venta(), despues_del_primero(tipos@, TipoValuable::Pes)),
        res.consulta_rubros@
            == "INSERT INTO relacion_venta_rub (venta, rubro, cantidad, precio) VALUES (?, ?, ?, ?, ?)"@
            + repetir(fila_item_venta(), despues_del_primero(tipos@, TipoValuable::Rub)),
        res.con_productos == tipos@.contains(TipoValuable::Prod),
        res.con_pesables == (despues_del_primero(tipos@, TipoValuable::Pes) > 0),
        res.con_rubros == (despues_del_primero(tipos@, TipoValuable::Rub) > 0),
{
    let (paga, cliente) = match cliente {
        None => (true, 1i32),
        Some(d) => (paga, d),
    };
    let consulta_pagos = consulta_para(
        "INSERT INTO pagos (medio_pago, monto, pagado, venta) VALUES (?, ?, ?, ?)",
        ", (?, ?, ?, ?)",
        cantidad_pagos,
    );
    let mut consulta_productos =
        "INSERT INTO relacion_venta_prod (venta, producto, cantidad, precio, pos) VALUES (?, ?, ?, ?, ?)".to_owned();
    let mut consulta_pesables =
        "INSERT INTO relacion_venta_pes (venta, pesable, cantidad, precio_kilo) VALUES (?, ?, ?, ?, ?)".to_owned();
    let mut consulta_rubros =
        "INSERT INTO relacion_venta_rub (venta, rubro, cantidad, precio) VALUES (?, ?, ?, ?, ?)".to_owned();
    let mut con_productos = false;
    let mut con_pesables = false;
    let mut con_rubros = false;
    let n = tipos.len();
    let mut i: usize = 0;
    proof {
        assert(tipos@.take(0) =~= Seq::<TipoValuable>::empty());
        assert(consulta_productos@ =~= consulta_productos@ + repetir(fila_item_venta(), 0));
        assert(consulta_pesables@ =~= consulta_pesables@ + repetir(fila_item_venta(), 0));
        assert(consulta_rubros@ =~= consulta_rubros@ + repetir(fila_item_venta(), 0));
    }
    while i < n
        invariant
            n == tipos.len(),
            i <= n,
            consulta_productos@
                == "INSERT INTO relacion_venta_prod (venta, producto, cantidad, precio, pos) VALUES (?, ?, ?, ?, ?)"@
                + repetir(
                fila_item_venta(),
                despues_del_primero(tipos@.take(i as int), TipoValuable::Prod),
            ),
            consulta_pesables@
                == "INSERT INTO relacion_venta_pes (venta, pesable, cantidad, precio_kilo) VALUES (?, ?, ?, ?, ?)"@
                + repetir(
                fila_item_venta(),
                despues_del_primero(tipos@.take(i as int), TipoValuable::Pes),
            ),
            consulta_rubros@
                == "INSERT INTO relacion_venta_rub (venta, rubro, cantidad, precio) VALUES (?, ?, ?, ?, ?)"@
                + repetir(
                fila_item_venta(),
                despues_del_primero(tipos@.take(i as int), TipoValuable::Rub),
            ),
            con_productos == tipos@.take(i as int).contains(TipoValuable::Prod),
            con_pesables == (despues_del_primero(tipos@.take(i as int), TipoValuable::Pes) > 0),
            con_rubros == (despues_del_primero(tipos@.take(i as int), TipoValuable::Rub) > 0),
        decreases n - i,
    {
        let t = tipos[i];
        let ghost previo = tipos@.take(i as int);
        let ghost siguiente = tipos@.take(i + 1);
        assert(siguiente.drop_last() =~= previo);
        assert(siguiente.last() == t);
        assert(siguiente =~= previo.push(t));
        match t {
            TipoValuable::Prod => {
                con_productos = true;
                if i > 0 {
                    consulta_productos.append(", (?, ?, ?, ?, ?)");
                }
            },
            TipoValuable::Pes => {
                if i > 0 {
                    con_pesables = true;
                    consulta_pesables.append(", (?, ?, ?, ?, ?)");
                }
            },
            TipoValuable::Rub => {
                if i > 0 {
                    con_rubros = true;
                    consulta_rubros.append(", (?, ?, ?, ?, ?)");
                }
            },
        }
        proof {
            assert(previo.push(t).contains(TipoValuable::Prod) == (previo.contains(
                TipoValuable::Prod,
            ) || t == TipoValuable::Prod)) by {
                if t == TipoValuable::Prod {
                    assert(previo.push(t)[previo.len() as int] == t);
                }
                if previo.contains(TipoValuable::Prod) {
                    let k = choose|k: int| 0 <= k < previo.len() && previo[k] == TipoValuable::Prod;
                    assert(previo.push(t)[k] == TipoValuable::Prod);
                }
                if previo.push(t).contains(TipoValuable::Prod) && t != TipoValuable::Prod {
                    let k = choose|k: int|
                        0 <= k < previo.push(t).len() && previo.push(t)[k] == TipoValuable::Prod;
                    assert(previo[k] == TipoValuable::Prod);
                }
            }
        }
        i = i + 1;
    }
    assert(tipos@.take(n as int) =~= tipos@);
    PlanGuardado {
        paga,
        cliente,
        consulta_pagos,
        consulta_productos,
        consulta_pesables,
        consulta_rubros,
        con_productos,
        con_pesables,
        con_rubros,
    }
}

/// How many of the second and third barcodes are in use (positive).
pub open spec fn codigos_extra(c: Seq<i64>) -> nat {
    (if c[1] > 0 {
        1nat
    } else {
        0nat
    }) + (if c[2] > 0 {
        1nat
    } else {
        0nat
    })
}

/// The positive barcodes, in order: the values bound to the barcode statements.
pub open spec fn positivos(c: Seq<i64>) -> Seq<i64> {
    (if c[0] > 0 {
        seq![c[0]]
    } else {
        seq![]
    }) + (if c[1] > 0 {
        seq![c[1]]
    } else {
        seq![]
    }) + (if c[2] > 0 {
        seq![c[2]]
    } else {
        seq![]
    })
}

/// The statements that register a new product's barcodes and supplier relations.
pub struct ConsultasAltaProducto {
    /// Looks for any of the barcodes among the registered ones.
    pub existentes: String,
    /// Inserts the barcodes.
    pub insertar_codigos: String,
    /// The barcodes bound to both statements.
    pub valores: Vec<i64>,
    /// Inserts the relations with the suppliers.
    pub relaciones: String,
}

/// The statements of `Producto::new_to_db` for a product with barcodes `codigos` and
/// `cantidad_proveedores` suppliers: one condition and one row per positive barcode after
/// the first slot, one row per supplier.
pub fn consultas_alta_producto(codigos: &[i64; 3], cantidad_proveedores: usize) -> (res:
    ConsultasAltaProducto)
    ensures
        res.existentes@ == "select id as \"int:_\" from codigos where codigo = ?"@ + repetir(
            " or codigo = ?"@,
            codigos_extra(codigos@),
        ),
        res.insertar_codigos@ == "insert into codigos values (?, ?)"@ + repetir(
            ", (?, ?)"@,
            codigos_extra(codigos@),
        ),
        res.valores@ == positivos(codigos@),
        res.valores@ == codigos@.filter(|x: i64| x > 0),
        forall|k: int| 0 <= k < 3 && codigos@[k] > 0 ==> res.valores@.contains(#[trigger] codigos@[k]),
        codigos@[0] > 0 ==> res.valores.len() == 1 + codigos_extra(codigos@),
        res.relaciones@ == "insert into relacion_prod_prov values (?, ?, ?)"@ + repetir(
            ", (?, ?, ?)"@,
            filas_extra(cantidad_proveedores as nat),
        ),
{
    let extra: usize = (if codigos[1] > 0 {
        1usize
    } else {
        0usize
    }) + (if codigos[2] > 0 {
        1usize
    } else {
        0usize
    });
    let existentes = repetir_filas(
        "select id as \"int:_\" from codigos where codigo = ?",
        " or codigo = ?",
        extra,
    );
    let insertar_codigos = repetir_filas("insert into codigos values (?, ?)", ", (?, ?)", extra);
    let mut valores: Vec<i64> = Vec::new();
    if codigos[0] > 0 {
        valores.push(codigos[0]);
    }
    if codigos[1] > 0 {
        valores.push(codigos[1]);
    }
    if codigos[2] > 0 {
        valores.push(codigos[2]);
    }
    assert(valores@ =~= positivos(codigos@));
    proof {
        lemma_valores_alta(codigos@);
    }
    let relaciones = consulta_para(
        "insert into relacion_prod_prov values (?, ?, ?)",
        ", (?, ?, ?)",
        cantidad_proveedores,
    );
    ConsultasAltaProducto { existentes, insertar_codigos, valores, relaciones }
}

/// The barcodes bound when a product is registered are its positive barcodes, in slot
/// order, each slot on its own: every positive slot is bound, nothing else is, and when
/// the first slot is used there is one value per `codigo = ?` placeholder.
pub proof fn lemma_valores_alta(c: Seq<i64>)
    requires
        c.len() == 3,
    ensures
        positivos(c) == c.filter(|x: i64| x > 0),
        forall|k: int| 0 <= k < 3 && c[k] > 0 ==> positivos(c).contains(#[trigger] c[k]),
        forall|j: int|
            0 <= j < positivos(c).len() ==> #[trigger] positivos(c)[j] > 0 && c.contains(
                positivos(c)[j],
            ),
        positivos(c).len() == (if c[0] > 0 {
            1int
        } else {
            0
        }) + (if c[1] > 0 {
            1int
        } else {
            0
        }) + (if c[2] > 0 {
            1int
        } else {
            0
        }),
        c[0] > 0 ==> positivos(c).len() == 1 + codigos_extra(c),
{
    let p = |x: i64| x > 0;
    reveal(Seq::filter);
    let c1 = c.drop_last();
    let c0 = c1.drop_last();
    assert(c0.drop_last() =~= Seq::<i64>::empty());
    assert(c0 =~= seq![c[0]]);
    assert(c0.drop_last().filter(p) =~= Seq::<i64>::empty());
    assert(c0.last() == c[0]);
    assert(c1.last() == c[1]);
    assert(c.last() == c[2]);
    assert(c1 =~= seq![c[0], c[1]]);
    assert(c0.filter(p) =~= (if c[0] > 0 { seq![c[0]] } else { seq![] }));
    assert(c1.filter(p) =~= (if c[0] > 0 { seq![c[0]] } else { seq![] }) + (if c[1] > 0 { seq![c[1]] } else { seq![] }));
    assert(c.filter(p) =~= positivos(c));
    assert forall|k: int| 0 <= k < 3 && c[k] > 0 implies positivos(c).contains(#[trigger] c[k]) by {
        c.lemma_filter_contains(p, k);
    }
    assert forall|j: int| 0 <= j < positivos(c).len() implies #[trigger] positivos(c)[j] > 0
        && c.contains(positivos(c)[j]) by {
        c.lemma_filter_pred(p, j);
        if c[0] > 0 && j == 0 {
            assert(c[0] == positivos(c)[j]);
        } else if c[0] > 0 && c[1] > 0 && j == 1 {
            assert(c[1] == positivos(c)[j]);
        } else if c[0] > 0 && c[1] <= 0 && j == 1 {
            assert(c[2] == positivos(c)[j]);
        } else if c[0] <= 0 && c[1] > 0 && j == 0 {
            assert(c[1] == positivos(c)[j]);
        } else if c[0] <= 0 && c[1] <= 0 && j == 0 {
            assert(c[2] == positivos(c)[j]);
        } else if c[0] <= 0 && j == 1 {
            assert(c[2] == positivos(c)[j]);
        } else {
            assert(c[2] == positivos(c)[j]);
        }
    }
}

/// In the barcode statement of a batch, the row of every product after the first whose
/// first barcode is in use comes after a comma: the rows written so far, a comma, then
/// that product's row `(?, ?)`.
pub proof fn lemma_coma_antes_de_cada_producto(ps: Seq<(i32, [i64; 3])>, p: (i32, [i64; 3]))
    requires
        ps.len() > 0,
        p.1@[0] != 0,
    ensures
        filas_codigos(ps.push(p)).subrange(0, filas_codigos(ps).len() + 7int) == filas_codigos(ps)
            + seq![','] + "(?, ?)"@,
{
    reveal(filas_codigos);
    assert(ps.push(p).drop_last() =~= ps);
    let a = filas_codigos(ps);
    let resto = fila_de_codigo(p.1@[1], true) + fila_de_codigo(p.1@[2], true);
    assert(filas_codigos(ps.push(p)) =~= a + (seq![','] + fila_codigo()) + resto);
    reveal_strlit("(?, ?)");
    assert(fila_codigo().len() == 6);
    assert(filas_codigos(ps.push(p)).subrange(0, a.len() + 7int) =~= a + seq![','] + "(?, ?)"@);
}

/// A batch of `n` products with one barcode each, in the first slot, binds its barcodes in
/// `(?, ?)` written `n` times, separated by commas.
pub proof fn lemma_filas_de_un_codigo(ps: Seq<(i32, [i64; 3])>)
    requires
        forall|k: int|
            0 <= k < ps.len() ==> #[trigger] ps[k].1@[0] != 0 && ps[k].1@[1] == 0 && ps[k].1@[2]
                == 0,
    ensures
        filas_codigos(ps) == lista_filas(fila_codigo(), ps.len()),
    decreases ps.len(),
{
    reveal(filas_codigos);
    reveal(lista_filas);
    if ps.len() > 0 {
        let q = ps.drop_last();
        assert forall|k: int| 0 <= k < q.len() implies #[trigger] q[k].1@[0] != 0 && q[k].1@[1]
            == 0 && q[k].1@[2] == 0 by {
            assert(q[k] == ps[k]);
        }
        lemma_filas_de_un_codigo(q);
        let c = ps.last().1@;
        assert(ps[ps.len() - 1] == ps.last());
        if ps.len() == 1 {
            assert(filas_codigos(q) =~= Seq::<char>::empty());
            assert(filas_codigos(ps) =~= fila_codigo());
        } else {
            assert(filas_codigos(ps) =~= lista_filas(fila_codigo(), q.len()) + seq![',']
                + fila_codigo());
        }
    }
}

/// The items of a kind after the first position are counted the same way for every kind: a
/// sale of one item has none after the first position, and an item added to a non-empty
/// sale counts once for its own kind and for no other.
pub proof fn lemma_despues_del_primero(s: Seq<TipoValuable>, u: TipoValuable, t: TipoValuable)
    ensures
        despues_del_primero(seq![u], t) == 0,
        s.len() > 0 ==> despues_del_primero(s.push(u), t) == despues_del_primero(s, t) + if u
            == t {
            1nat
        } else {
            0nat
        },
{
    assert(seq![u].drop_last() =~= Seq::<TipoValuable>::empty());
    assert(despues_del_primero(Seq::<TipoValuable>::empty(), t) == 0);
    assert(s.push(u).drop_last() =~= s);
}

/// The items of kind `t` after the first position of a sale are exactly the items of that
/// kind among all but the first.
pub proof fn lemma_despues_del_primero_cuenta(s: Seq<TipoValuable>, t: TipoValuable)
    requires
        s.len() > 0,
    ensures
        despues_del_primero(s, t) == s.drop_first().filter(|x: TipoValuable| x == t).len(),
    decreases s.len(),
{
    let p = |x: TipoValuable| x == t;
    reveal(Seq::filter);
    if s.len() == 1 {
        assert(s.drop_first() =~= Seq::<TipoValuable>::empty());
        assert(s.drop_last() =~= Seq::<TipoValuable>::empty());
        assert(despues_del_primero(Seq::<TipoValuable>::empty(), t) == 0);
        assert(s.drop_first().filter(p).len() == 0);
    } else {
        let q = s.drop_last();
        lemma_despues_del_primero_cuenta(q, t);
        let d = s.drop_first();
        assert(d.drop_last() =~= q.drop_first());
        assert(d.last() == s.last());
        assert(d.filter(p) == (if p(d.last()) {
            d.drop_last().filter(p).push(d.last())
        } else {
            d.drop_last().filter(p)
        }));
    }
}

proof fn lemma_agregar_fila(m: nat, c: i64, separar: bool)
    requires
        separar == (m > 0),
    ensures
        lista_filas(fila_codigo(), m) + fila_de_codigo(c, separar) == lista_filas(
            fila_codigo(),
            m + if c != 0 {
                1nat
            } else {
                0nat
            },
        ),
{
    lemma_lista_filas_paso(fila_codigo(), m);
    if c != 0 {
        if separar {
            assert(lista_filas(fila_codigo(), m) + fila_de_codigo(c, separar) =~= lista_filas(
                fila_codigo(),
                m,
            ) + seq![','] + fila_codigo());
        } else {
            assert(lista_filas(fila_codigo(), m) + fila_de_codigo(c, separar) =~= lista_filas(
                fila_codigo(),
                m,
            ) + seq![] + fila_codigo());
        }
    } else {
        assert(lista_filas(fila_codigo(), m) + fila_de_codigo(c, separar) =~= lista_filas(
            fila_codigo(),
            m,
        ));
    }
}

/// The barcode statement of a batch whose first product uses its first slot has one row
/// `(?, ?)` per bound `(barcode, product id)` pair, the rows separated by commas: every
/// barcode in use, of any product and any slot, gets exactly one well separated row.
pub proof fn lemma_filas_y_valores_del_lote(ps: Seq<(i32, [i64; 3])>)
    requires
        ps.len() > 0,
        ps[0].1@[0] != 0,
    ensures
        pares_codigos(ps).len() > 0,
        filas_codigos(ps) == lista_filas(fila_codigo(), pares_codigos(ps).len()),
    decreases ps.len(),
{
    reveal(filas_codigos);
    reveal(pares_codigos);
    let q = ps.drop_last();
    let c = ps.last().1@;
    let id = ps.last().0;
    let m: nat = if q.len() == 0 {
        0
    } else {
        assert(q[0] == ps[0]);
        lemma_filas_y_valores_del_lote(q);
        pares_codigos(q).len()
    };
    if q.len() == 0 {
        assert(filas_codigos(q) =~= lista_filas(fila_codigo(), 0)) by {
            reveal(lista_filas);
        }
        assert(pares_codigos(q) =~= Seq::<(i64, i32)>::empty());
        assert(ps.last() == ps[0]);
    }
    assert(filas_codigos(q) == lista_filas(fila_codigo(), m));
    let i = ps.len() - 1;
    let n0: nat = if c[0] != 0 { 1 } else { 0 };
    let n1: nat = if c[1] != 0 { 1 } else { 0 };
    let n2: nat = if c[2] != 0 { 1 } else { 0 };
    lemma_agregar_fila(m, c[0], i > 0);
    lemma_agregar_fila(m + n0, c[1], true);
    lemma_agregar_fila(m + n0 + n1, c[2], true);
    assert(filas_codigos(ps) =~= lista_filas(fila_codigo(), m) + fila_de_codigo(c[0], i > 0)
        + fila_de_codigo(c[1], true) + fila_de_codigo(c[2], true));
    assert(pares_de(id, c).len() == n0 + n1 + n2);
    assert(pares_codigos(ps).len() == m + n0 + n1 + n2);
}

} // verus!
