//! Logging in.
use vstd::prelude::*;

use crate::error::AppError;
use crate::modelos::UserDB;
use crate::user::{rango_de_nombre, Rango, User, UsuarioVista};

verus! {

/// The outcome of a login attempt (`Sistema::try_login`), given the user row found with
/// the id and password hash `pass`, if any, and whether some user has that id.
/// Without a row the attempt fails, naming the password when the id exists and the user
/// otherwise; with a row the logged user has the row's id, name and rank and the
/// password hash that was typed.
pub fn resolver_login(fila: Option<UserDB>, usuario_existe: bool, pass: i64) -> (res: Result<
    User,
    AppError,
>)
    requires
        fila matches Some(u) ==> rango_de_nombre(u.rango@) is Some,
    ensures
        fila is None ==> (res matches Err(AppError::IncorrectError(m)) && m@ == (if usuario_existe {
            "Contraseña"@
        } else {
            "Usuario"@
        })),
        fila matches Some(u) ==> (res matches Ok(usr) && usr@ == (UsuarioVista {
            id: u.user_id@,
            nombre: u.nombre@,
            pass,
            rango: rango_de_nombre(u.rango@)->0,
        })),
{
    match fila {
        None => {
            if usuario_existe {
                Err(AppError::IncorrectError("Contraseña".to_owned()))
            } else {
                Err(AppError::IncorrectError("Usuario".to_owned()))
            }
        },
        Some(u) => {
            let rango = match Rango::desde_texto(u.rango.as_str()) {
                Some(r) => r,
                None => Rango::Cajero,
            };
            Ok(User::build(u.user_id, u.nombre, pass, rango))
        },
    }
}

} // verus!
