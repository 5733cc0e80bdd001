//! Users of the point of sale and their rank.
use vstd::prelude::*;

use crate::bytes::{a_bytes, be_bytes, desde_bytes, from_be, lemma_bytes_ida_y_vuelta};
use crate::texto::iguales;

verus! {

/// Rank of a user: administrators may change the catalogue and the settings.
#[derive(Clone, Copy, Debug, PartialEq, Eq, Structural)]
pub enum Rango {
    Admin,
    Cajero,
}

/// The name under which a rank is written, as its `Display` shows it.
pub open spec fn nombre_rango(r: Rango) -> Seq<char> {
    match r {
        Rango::Admin => "Admin"@,
        Rango::Cajero => "Cajero"@,
    }
}

/// The rank written under the name `s`, if any.
pub open spec fn rango_de_nombre(s: Seq<char>) -> Option<Rango> {
    if s == "Admin"@ {
        Some(Rango::Admin)
    } else if s == "Cajero"@ {
        Some(Rango::Cajero)
    } else {
        None
    }
}

impl Rango {
    /// The name of the rank ("Admin" or "Cajero").
    pub fn texto(&self) -> (res: String)
        ensures
            res@ == nombre_rango(*self),
    {
        match self {
            Rango::Admin => "Admin".to_owned(),
            Rango::Cajero => "Cajero".to_owned(),
        }
    }

    /// The rank that a stored name denotes; `None` for any other text.
    pub fn desde_texto(s: &str) -> (res: Option<Rango>)
        ensures
            res == rango_de_nombre(s@),
    {
        if iguales(s, "Admin") {
            Some(Rango::Admin)
        } else if iguales(s, "Cajero") {
            Some(Rango::Cajero)
        } else {
            None
        }
    }
}

/// A stored rank name reads back as the same rank.
pub proof fn lemma_rango_ida_y_vuelta(r: Rango)
    ensures
        rango_de_nombre(nombre_rango(r)) == Some(r),
{
    reveal_strlit("Admin");
    reveal_strlit("Cajero");
    assert("Admin"@ != "Cajero"@) by {
        assert("Admin"@.len() != "Cajero"@.len());
    }
}

/// Abstract value of a user.
pub struct UsuarioVista {
    pub id: Seq<char>,
    pub nombre: Seq<char>,
    pub pass: i64,
    pub rango: Rango,
}

/// Abstract value of the complete shared form of a user.
pub struct UsuarioCompartidoVista {
    pub id: Seq<char>,
    pub nombre: Seq<char>,
    pub pass: Seq<u8>,
    pub rango: Rango,
}

/// A user: login id, display name, password hash and rank.
#[derive(Debug, Clone)]
pub struct User {
    id: String,
    nombre: String,
    pass: i64,
    rango: Rango,
}

/// The complete shared form of a user: the password hash travels as bytes.
#[derive(Clone)]
pub struct UserSHC {
    pub id: String,
    pub nombre: String,
    pub pass: [u8; 8],
    pub rango: Rango,
}

/// The shared form of a user without its password.
pub struct UserSH {
    pub id: String,
    pub nombre: String,
    pub rango: Rango,
}

impl View for User {
    type V = UsuarioVista;

    closed spec fn view(&self) -> UsuarioVista {
        UsuarioVista { id: self.id@, nombre: self.nombre@, pass: self.pass, rango: self.rango }
    }
}

impl View for UserSHC {
    type V = UsuarioCompartidoVista;

    open spec fn view(&self) -> UsuarioCompartidoVista {
        UsuarioCompartidoVista {
            id: self.id@,
            nombre: self.nombre@,
            pass: self.pass@,
            rango: self.rango,
        }
    }
}

/// The complete shared form of a user.
pub open spec fn compartir_usuario(u: UsuarioVista) -> UsuarioCompartidoVista {
    UsuarioCompartidoVista { id: u.id, nombre: u.nombre, pass: be_bytes(u.pass), rango: u.rango }
}

/// The user read back from its complete shared form.
pub open spec fn usuario_compartido(c: UsuarioCompartidoVista) -> UsuarioVista {
    UsuarioVista { id: c.id, nombre: c.nombre, pass: from_be(c.pass), rango: c.rango }
}

/// Sharing a user completely and reading it back gives the same user.
pub proof fn lemma_usuario_ida_y_vuelta(u: UsuarioVista)
    ensures
        usuario_compartido(compartir_usuario(u)) == u,
{
    lemma_bytes_ida_y_vuelta(u.pass);
}

impl User {
    pub fn build(id: String, nombre: String, pass: i64, rango: Rango) -> (res: User)
        ensures
            res@ == (UsuarioVista { id: id@, nombre: nombre@, pass, rango }),
    {
        User { id, pass, rango, nombre }
    }

    pub fn rango(&self) -> (res: &Rango)
        ensures
            *res == self@.rango,
    {
        &self.rango
    }

    pub fn id(&self) -> (res: &str)
        ensures
            res@ == self@.id,
    {
        self.id.as_str()
    }

    pub fn pass(&self) -> (res: &i64)
        ensures
            *res == self@.pass,
    {
        &self.pass
    }

    pub fn nombre(&self) -> (res: String)
        ensures
            res@ == self@.nombre,
    {
        self.nombre.clone()
    }

    /// The shared form of the user, without the password.
    pub fn to_shared(&self) -> (res: UserSH)
        ensures
            res.id@ == self@.id,
            res.nombre@ == self@.nombre,
            res.rango == self@.rango,
    {
        UserSH { id: self.id.clone(), nombre: self.nombre.clone(), rango: self.rango }
    }

    /// The complete shared form of the user.
    pub fn to_shared_complete(&self) -> (res: UserSHC)
        ensures
            res@ == compartir_usuario(self@),
    {
        UserSHC {
            id: self.id.clone(),
            nombre: self.nombre.clone(),
            pass: a_bytes(self.pass),
            rango: self.rango,
        }
    }

    /// The user that a complete shared form carries.
    pub fn from_shared_complete(user: UserSHC) -> (res: Self)
        ensures
            res@ == usuario_compartido(user@),
    {
        User { id: user.id, nombre: user.nombre, pass: desde_bytes(user.pass), rango: user.rango }
    }
}

/// The administrator's rank is stored as "Admin" and the cashier's as "Cajero", and each of
/// those names reads as that rank.
pub proof fn lemma_nombres_de_rango()
    ensures
        nombre_rango(Rango::Admin) == "Admin"@,
        nombre_rango(Rango::Cajero) == "Cajero"@,
        rango_de_nombre("Admin"@) == Some(Rango::Admin),
        rango_de_nombre("Cajero"@) == Some(Rango::Cajero),
{
    lemma_rango_ida_y_vuelta(Rango::Admin);
    lemma_rango_ida_y_vuelta(Rango::Cajero);
}

} // verus!
