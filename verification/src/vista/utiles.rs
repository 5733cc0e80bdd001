//! Small helpers of the web view.
use vstd::prelude::*;

use crate::texto::{decimal, texto_entero};

verus! {

/// The text that the web view shows for an integer amount. `{:.2}` leaves
/// integers as they are, so this is the plain decimal text of `number`.
pub fn round(number: i64) -> (res: String)
    ensures
        res@ == decimal(number as int),
{
    texto_entero(number)
}

} // verus!
