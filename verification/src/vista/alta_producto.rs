//! The form that registers a product in the web view: its barcodes and its suppliers.
use vstd::prelude::*;

use crate::texto::{entero_desde_texto, entero_valido, valor_texto};
use crate::vista::proveedor::Proveedor;

verus! {

/// Adds the barcode typed in the form (`AddProduct`). The form offers the field only while
/// fewer than three barcodes are listed, and its input holds a number; an empty field
/// adds nothing.
pub fn agregar_codigo(codigos: &mut Vec<i64>, texto: &str)
    requires
        old(codigos).len() < 3,
        texto@.len() > 0 ==> entero_valido(texto@),
    ensures
        texto@.len() == 0 ==> final(codigos)@ == old(codigos)@,
        texto@.len() > 0 ==> final(codigos)@ == old(codigos)@.push(valor_texto(texto@) as i64),
{
    if texto.unicode_len() > 0 {
        match entero_desde_texto(texto) {
            Some(codigo) => codigos.push(codigo),
            None => {},
        }
    }
}

/// `i` is the first position of `codigos` that holds `codigo`.
pub open spec fn primera_posicion(codigos: Seq<i64>, codigo: i64, i: int) -> bool {
    &&& 0 <= i < codigos.len()
    &&& codigos[i] == codigo
    &&& forall|j: int| 0 <= j < i ==> codigos[j] != codigo
}

/// Removes a listed barcode from the form (its first occurrence).
pub fn borrar_codigo(codigos: &mut Vec<i64>, codigo: i64)
    requires
        old(codigos)@.contains(codigo),
    ensures
        exists|i: int|
            primera_posicion(old(codigos)@, codigo, i) && final(codigos)@ == old(codigos)@.remove(
                i,
            ),
{
    let mut i: usize = 0;
    while i < codigos.len()
        invariant
            i <= codigos.len(),
            codigos@ == old(codigos)@,
            old(codigos)@.contains(codigo),
            forall|j: int| 0 <= j < i ==> codigos@[j] != codigo,
        decreases codigos.len() - i,
    {
        if codigos[i] == codigo {
            codigos.remove(i);
            assert(primera_posicion(old(codigos)@, codigo, i as int));
            return;
        }
        i = i + 1;
    }
    assert(false);
}

/// The ids of a list of suppliers.
pub open spec fn ids(s: Seq<Proveedor>) -> Seq<i32> {
    s.map_values(|p: Proveedor| p.id)
}

/// Some supplier of `s` has id `id`.
pub open spec fn tiene_id(s: Seq<Proveedor>, id: i32) -> bool {
    exists|i: int| 0 <= i < s.len() && s[i].id == id
}

/// `i` is the first position of `s` whose supplier has id `id`.
pub open spec fn primera_con_id(s: Seq<Proveedor>, id: i32, i: int) -> bool {
    &&& 0 <= i < s.len()
    &&& s[i].id == id
    &&& forall|j: int| 0 <= j < i ==> s[j].id != id
}

/// The first position of `s` whose supplier has id `id`.
pub open spec fn indice_de(s: Seq<Proveedor>, id: i32) -> int {
    choose|i: int| primera_con_id(s, id, i)
}

/// The first position of a supplier is the one that `indice_de` names.
proof fn lemma_indice_de(s: Seq<Proveedor>, id: i32, k: int)
    requires
        primera_con_id(s, id, k),
    ensures
        indice_de(s, id) == k,
{
    let i = indice_de(s, id);
    assert(primera_con_id(s, id, i));
    if i < k {
        assert(s[i].id != id);
    }
    if k < i {
        assert(s[k].id != id);
    }
}

/// A list with a supplier of id `id` has a first one.
proof fn lemma_existe_primera(s: Seq<Proveedor>, id: i32)
    requires
        tiene_id(s, id),
    ensures
        primera_con_id(s, id, indice_de(s, id)),
    decreases s.len(),
{
    if s[0].id == id {
        lemma_indice_de(s, id, 0);
    } else {
        let w = choose|j: int| 0 <= j < s.len() && s[j].id == id;
        let t = s.drop_first();
        assert(0 <= w - 1 < t.len() && t[w - 1].id == id);
        lemma_existe_primera(t, id);
        let k = indice_de(t, id);
        assert forall|j: int| 0 <= j < k + 1 implies s[j].id != id by {
            if j > 0 {
                assert(s[j] == t[j - 1]);
            }
        }
        assert(primera_con_id(s, id, k + 1));
        lemma_indice_de(s, id, k + 1);
    }
}

/// The first position of a supplier with id `id` in `s`.
fn posicion_de(s: &Vec<Proveedor>, id: i32) -> (res: usize)
    requires
        tiene_id(s@, id),
    ensures
        primera_con_id(s@, id, res as int),
        res as int == indice_de(s@, id),
{
    let mut i: usize = 0;
    while i < s.len()
        invariant
            i <= s.len(),
            tiene_id(s@, id),
            forall|j: int| 0 <= j < i ==> s@[j].id != id,
        decreases s.len() - i,
    {
        if s[i].id == id {
            proof {
                lemma_indice_de(s@, id, i as int);
            }
            return i;
        }
        i = i + 1;
    }
    assert(false);
    0
}

/// The supplier `p` with the internal code `contacto`.
pub open spec fn con_contacto(p: Proveedor, contacto: Option<i64>) -> Proveedor {
    Proveedor { contacto, ..p }
}

/// The internal code typed for a supplier: none when its field is empty.
pub open spec fn contacto_de(texto: Seq<char>) -> Option<i64> {
    if texto.len() == 0 {
        None
    } else {
        Some(valor_texto(texto) as i64)
    }
}

/// Moves the supplier with id `id` from those offered to those chosen for the product
/// (`AddProduct`), with the internal code typed in `codigo_interno`, a number or nothing.
pub fn elegir_proveedor(
    opciones: &mut Vec<Proveedor>,
    elegidos: &mut Vec<Proveedor>,
    id: i32,
    codigo_interno: &str,
)
    requires
        tiene_id(old(opciones)@, id),
        codigo_interno@.len() > 0 ==> entero_valido(codigo_interno@),
    ensures
        final(opciones)@ == old(opciones)@.remove(indice_de(old(opciones)@, id)),
        final(elegidos)@ == old(elegidos)@.push(
            con_contacto(old(opciones)@[indice_de(old(opciones)@, id)], contacto_de(codigo_interno@)),
        ),
{
    let contacto = if codigo_interno.unicode_len() == 0 {
        None
    } else {
        entero_desde_texto(codigo_interno)
    };
    let i = posicion_de(opciones, id);
    let p = opciones.remove(i);
    elegidos.push(Proveedor { id: p.id, nombre: p.nombre, contacto });
}

/// Gives a chosen supplier back to those offered (`AddProduct`), as it was chosen.
pub fn devolver_proveedor(elegidos: &mut Vec<Proveedor>, opciones: &mut Vec<Proveedor>, id: i32)
    requires
        tiene_id(old(elegidos)@, id),
    ensures
        final(elegidos)@ == old(elegidos)@.remove(indice_de(old(elegidos)@, id)),
        final(opciones)@ == old(opciones)@.push(old(elegidos)@[indice_de(old(elegidos)@, id)]),
{
    let i = posicion_de(elegidos, id);
    let p = elegidos.remove(i);
    opciones.push(p);
}

/// Moving a supplier from one list to the other keeps the ids of both lists together.
pub proof fn lemma_mover_conserva(de: Seq<Proveedor>, a: Seq<Proveedor>, i: int, p: Proveedor)
    requires
        0 <= i < de.len(),
        p.id == de[i].id,
    ensures
        ids(de.remove(i)).to_multiset().add(ids(a.push(p)).to_multiset()) == ids(
            de,
        ).to_multiset().add(ids(a).to_multiset()),
{
    broadcast use vstd::seq_lib::group_to_multiset_ensures;
    broadcast use vstd::multiset::group_multiset_axioms;

    assert(ids(de.remove(i)) =~= ids(de).remove(i));
    assert(ids(a.push(p)) =~= ids(a).push(p.id));
    assert(ids(de)[i] == p.id);
    assert(ids(de).to_multiset().contains(p.id));
    assert(ids(de.remove(i)).to_multiset().add(ids(a.push(p)).to_multiset()) =~= ids(
        de,
    ).to_multiset().add(ids(a).to_multiset()));
}

/// Choosing a supplier and giving it back leaves the chosen ones as they were (when no
/// chosen supplier had that id), and offers it again last, with the code it was given.
pub proof fn lemma_elegir_y_devolver(
    opciones: Seq<Proveedor>,
    elegidos: Seq<Proveedor>,
    id: i32,
    contacto: Option<i64>,
)
    requires
        tiene_id(opciones, id),
        !tiene_id(elegidos, id),
    ensures
        ({
            let i = indice_de(opciones, id);
            let opciones1 = opciones.remove(i);
            let elegidos1 = elegidos.push(con_contacto(opciones[i], contacto));
            let k = indice_de(elegidos1, id);
            &&& elegidos1.remove(k) == elegidos
            &&& opciones1.push(elegidos1[k]) == opciones.remove(i).push(
                con_contacto(opciones[i], contacto),
            )
        }),
{
    lemma_existe_primera(opciones, id);
    let i = indice_de(opciones, id);
    let elegidos1 = elegidos.push(con_contacto(opciones[i], contacto));
    let n = elegidos.len() as int;
    assert forall|j: int| 0 <= j < n implies elegidos1[j].id != id by {
        if elegidos1[j].id == id {
            assert(0 <= j < elegidos.len() && elegidos[j].id == id);
        }
    }
    assert(primera_con_id(elegidos1, id, n));
    lemma_indice_de(elegidos1, id, n);
    assert(elegidos1.remove(n) =~= elegidos);
}

} // verus!
