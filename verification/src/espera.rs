//! The two sales in progress at the till, the sales put aside, and the items of a sale.
//!
//! These operations do not read the items themselves, so they are written for any type
//! of sale or item.
use vstd::prelude::*;

use crate::error::AppError;

verus! {

/// Puts the current sale aside and makes `nueva` the current one (`Sistema::stash_sale`).
pub fn guardar_en_espera<T>(stash: &mut Vec<T>, actual: &mut T, nueva: T)
    ensures
        final(stash)@ == old(stash)@.push(*old(actual)),
        *final(actual) == nueva,
{
    let mut otra = nueva;
    core::mem::swap(actual, &mut otra);
    stash.push(otra);
}

/// Takes the sale in position `index` of those put aside as the current one
/// (`Sistema::unstash_sale`). The current sale is put aside in its turn when it has items;
/// an index past the end is refused with `SaleSelection` and changes nothing.
pub fn recuperar_de_espera<T>(
    stash: &mut Vec<T>,
    actual: &mut T,
    actual_con_productos: bool,
    index: usize,
) -> (res: Result<(), AppError>)
    ensures
        index < old(stash).len() ==> {
            &&& res is Ok
            &&& *final(actual) == old(stash)@[index as int]
            &&& final(stash)@ == if actual_con_productos {
                old(stash)@.remove(index as int).push(*old(actual))
            } else {
                old(stash)@.remove(index as int)
            }
        },
        index >= old(stash).len() ==> {
            &&& res == Err::<(), AppError>(AppError::SaleSelection)
            &&& final(stash)@ == old(stash)@
            &&& *final(actual) == *old(actual)
        },
{
    if index < stash.len() {
        let mut elegida = stash.remove(index);
        core::mem::swap(actual, &mut elegida);
        if actual_con_productos {
            stash.push(elegida);
        }
        Ok(())
    } else {
        Err(AppError::SaleSelection)
    }
}

/// Putting a sale aside and taking it back at once (the new current sale having no items)
/// restores the sales put aside.
pub proof fn lemma_guardar_y_recuperar<T>(stash: Seq<T>, actual: T)
    ensures
        stash.push(actual)[stash.len() as int] == actual,
        stash.push(actual).remove(stash.len() as int) == stash,
{
    assert(stash.push(actual).remove(stash.len() as int) =~= stash);
}

/// Taking back a sale loses no sale: the sales put aside and the current one are the
/// same, counted with repetition, before and after (when the current sale had items).
pub proof fn lemma_recuperar_conserva<T>(stash: Seq<T>, actual: T, index: int)
    requires
        0 <= index < stash.len(),
    ensures
        stash.remove(index).push(actual).push(stash[index]).to_multiset() == stash.push(
            actual,
        ).to_multiset(),
{
    broadcast use vstd::seq_lib::group_seq_properties;
    broadcast use vstd::multiset::group_multiset_axioms;

    let r = stash.remove(index);
    assert(stash =~= stash.subrange(0, index) + seq![stash[index]] + stash.subrange(
        index + 1,
        stash.len() as int,
    ));
    assert(r =~= stash.subrange(0, index) + stash.subrange(index + 1, stash.len() as int));
    vstd::seq_lib::lemma_multiset_commutative(
        stash.subrange(0, index) + seq![stash[index]],
        stash.subrange(index + 1, stash.len() as int),
    );
    vstd::seq_lib::lemma_multiset_commutative(stash.subrange(0, index), seq![stash[index]]);
    vstd::seq_lib::lemma_multiset_commutative(
        stash.subrange(0, index),
        stash.subrange(index + 1, stash.len() as int),
    );
    assert(r.push(actual).push(stash[index]).to_multiset() == r.to_multiset().insert(
        actual,
    ).insert(stash[index]));
    assert(stash.push(actual).to_multiset() == stash.to_multiset().insert(actual));
    assert(stash.to_multiset() == stash.subrange(0, index).to_multiset().add(
        seq![stash[index]].to_multiset(),
    ).add(stash.subrange(index + 1, stash.len() as int).to_multiset()));
    assert(r.to_multiset() == stash.subrange(0, index).to_multiset().add(
        stash.subrange(index + 1, stash.len() as int).to_multiset(),
    ));
    assert(seq![stash[index]].to_multiset() =~= vstd::multiset::Multiset::empty().insert(stash[index]));
    assert(r.push(actual).push(stash[index]).to_multiset() =~= stash.push(actual).to_multiset());
}

/// Removes item `index` of a sale, or removes all its items when it has at most one
/// (`Sistema::eliminar_producto_de_venta`); returns whether the sale was emptied.
pub fn quitar_item<T>(items: &mut Vec<T>, index: usize) -> (vaciada: bool)
    requires
        old(items).len() > 1 ==> index < old(items).len(),
    ensures
        vaciada == (old(items).len() <= 1),
        vaciada ==> final(items)@ == Seq::<T>::empty(),
        !vaciada ==> final(items)@ == old(items)@.remove(index as int),
{
    if items.len() > 1 {
        items.remove(index);
        false
    } else {
        items.clear();
        true
    }
}

} // verus!
