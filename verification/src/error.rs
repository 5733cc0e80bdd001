use vstd::prelude::*;

use crate::texto::{decimal, texto_entero};

verus! {

/// Errors that the verified library reports.
#[derive(Debug)]
pub enum AppError {
    IncorrectError(String),
    SaleSelection,
    SizeSelection(String),
    ExistingError { objeto: String, instancia: String },
    NotFound { objeto: String, instancia: String },
    ParseError,
}

impl AppError {
    /// The error for an `objeto` whose id `id` is not registered.
    pub fn no_encontrado(objeto: &str, id: i64) -> (res: AppError)
        ensures
            res matches AppError::NotFound { objeto: o, instancia: i } && o@ == objeto@ && i@
                == decimal(id as int),
    {
        AppError::NotFound { objeto: objeto.to_owned(), instancia: texto_entero(id) }
    }
}

} // verus!
