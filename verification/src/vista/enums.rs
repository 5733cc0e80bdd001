//! Keyboard navigation in the search list.
use vstd::prelude::*;

use crate::texto::iguales;

verus! {

/// A navigation key pressed in the search list.
#[derive(Debug, PartialEq, Eq, Clone, Copy, Structural)]
pub enum Nav {
    Up,
    Down,
    Enter,
    Esc,
    Nada,
}

/// The navigation key that a key of the search box stands for (`MainPage`): the arrows,
/// Escape and Enter; any other key is typed into the search.
pub open spec fn nav_de(tecla: Seq<char>) -> Option<Nav> {
    if tecla == "ArrowDown"@ {
        Some(Nav::Down)
    } else if tecla == "ArrowUp"@ {
        Some(Nav::Up)
    } else if tecla == "Escape"@ {
        Some(Nav::Esc)
    } else if tecla == "Enter"@ {
        Some(Nav::Enter)
    } else {
        None
    }
}

/// The navigation key for the key named `tecla`, if it is one.
pub fn nav_de_tecla(tecla: &str) -> (res: Option<Nav>)
    ensures
        res == nav_de(tecla@),
{
    if iguales(tecla, "ArrowDown") {
        Some(Nav::Down)
    } else if iguales(tecla, "ArrowUp") {
        Some(Nav::Up)
    } else if iguales(tecla, "Escape") {
        Some(Nav::Esc)
    } else if iguales(tecla, "Enter") {
        Some(Nav::Enter)
    } else {
        None
    }
}

/// A selection among `cantidad` search results: none, or the position of a result.
pub open spec fn seleccion_valida(actual: Option<u8>, cantidad: nat) -> bool {
    actual matches Some(i) ==> (i as nat) < cantidad
}

/// The selection when new results arrive (`Busqueda`): the first result, or none when
/// there are none.
pub fn seleccion_inicial(cantidad: usize) -> (res: Option<u8>)
    ensures
        res == if cantidad > 0 {
            Some(0u8)
        } else {
            None::<u8>
        },
        seleccion_valida(res, cantidad as nat),
{
    if cantidad > 0 {
        Some(0)
    } else {
        None
    }
}

/// The selection after a key: Up moves to the previous result and Down to the next, each
/// staying put at the end of the list; the other keys keep the selection.
pub open spec fn siguiente(actual: Option<u8>, cantidad: nat, nav: Nav) -> Option<u8> {
    match actual {
        None => None,
        Some(i) => match nav {
            Nav::Up => if i > 0 {
                Some((i - 1) as u8)
            } else {
                Some(i)
            },
            Nav::Down => if i + 1 < cantidad {
                Some((i + 1) as u8)
            } else {
                Some(i)
            },
            _ => Some(i),
        },
    }
}

/// What a key does in the list of search results: the selection after it, and the result
/// to add to the sale (Enter adds the selected one).
#[derive(Debug, Clone, Copy)]
pub struct PasoBusqueda {
    pub actual: Option<u8>,
    pub agregar: Option<u8>,
}

/// The step of the search list for the key `nav` (`Busqueda`), with `cantidad` results.
pub fn navegar(actual: Option<u8>, cantidad: usize, nav: Nav) -> (res: PasoBusqueda)
    requires
        cantidad < 256,
        seleccion_valida(actual, cantidad as nat),
    ensures
        res.actual == siguiente(actual, cantidad as nat, nav),
        res.agregar == if nav == Nav::Enter {
            actual
        } else {
            None::<u8>
        },
        seleccion_valida(res.actual, cantidad as nat),
{
    match actual {
        None => PasoBusqueda { actual: None, agregar: None },
        Some(i) => match nav {
            Nav::Up => {
                let nuevo = if i > 0 {
                    i - 1
                } else {
                    i
                };
                PasoBusqueda { actual: Some(nuevo), agregar: None }
            },
            Nav::Down => {
                let ultimo: u8 = (cantidad - 1) as u8;
                let nuevo = if i < ultimo {
                    i + 1
                } else {
                    i
                };
                PasoBusqueda { actual: Some(nuevo), agregar: None }
            },
            Nav::Enter => PasoBusqueda { actual: Some(i), agregar: Some(i) },
            _ => PasoBusqueda { actual: Some(i), agregar: None },
        },
    }
}

/// Down and then Up come back to the selected result, when it is not the last one.
pub proof fn lemma_bajar_y_subir(i: u8, cantidad: nat)
    requires
        (i as nat) + 1 < cantidad,
        cantidad <= 256,
    ensures
        siguiente(siguiente(Some(i), cantidad, Nav::Down), cantidad, Nav::Up) == Some(i),
{
}

/// Up and then Down come back to the selected result, when it is not the first one.
pub proof fn lemma_subir_y_bajar(i: u8, cantidad: nat)
    requires
        0 < i,
        (i as nat) < cantidad,
    ensures
        siguiente(siguiente(Some(i), cantidad, Nav::Up), cantidad, Nav::Down) == Some(i),
{
}

/// Every key keeps a selection among the results valid.
pub proof fn lemma_seleccion_se_mantiene(actual: Option<u8>, cantidad: nat, nav: Nav)
    requires
        seleccion_valida(actual, cantidad),
    ensures
        seleccion_valida(siguiente(actual, cantidad, nav), cantidad),
{
}

} // verus!
