//! Settings of the point of sale that are not amounts: product name format and letter case.
use vstd::prelude::*;

use crate::texto::iguales;

verus! {

/// Order in which a product's name is shown.
#[derive(Debug, Clone, Copy, PartialEq, Eq, Structural)]
pub enum Formato {
    Tmv,
    Mtv,
}

/// Letter case in which names are shown.
#[derive(Debug, Clone, Copy, PartialEq, Eq, Structural)]
pub enum Mayusculas {
    Upper,
    Lower,
    Camel,
}

/// The name under which a format is stored.
pub open spec fn nombre_formato(f: Formato) -> Seq<char> {
    match f {
        Formato::Tmv => "Tmv"@,
        Formato::Mtv => "Mtv"@,
    }
}

/// The format stored under the name `s`, if any.
pub open spec fn formato_de_nombre(s: Seq<char>) -> Option<Formato> {
    if s == "Tmv"@ {
        Some(Formato::Tmv)
    } else if s == "Mtv"@ {
        Some(Formato::Mtv)
    } else {
        None
    }
}

/// The name under which a letter case is stored.
pub open spec fn nombre_mayusculas(m: Mayusculas) -> Seq<char> {
    match m {
        Mayusculas::Upper => "Upper"@,
        Mayusculas::Lower => "Lower"@,
        Mayusculas::Camel => "Camel"@,
    }
}

/// The letter case stored under the name `s`, if any.
pub open spec fn mayusculas_de_nombre(s: Seq<char>) -> Option<Mayusculas> {
    if s == "Upper"@ {
        Some(Mayusculas::Upper)
    } else if s == "Lower"@ {
        Some(Mayusculas::Lower)
    } else if s == "Camel"@ {
        Some(Mayusculas::Camel)
    } else {
        None
    }
}

impl Default for Formato {
    fn default() -> (res: Self)
        ensures
            res == Formato::Tmv,
    {
        Formato::Tmv
    }
}

impl Default for Mayusculas {
    fn default() -> (res: Self)
        ensures
            res == Mayusculas::Upper,
    {
        Mayusculas::Upper
    }
}

impl Formato {
    /// The stored name of the format, as its `Display` writes it.
    pub fn texto(&self) -> (res: String)
        ensures
            res@ == nombre_formato(*self),
    {
        match self {
            Formato::Tmv => "Tmv".to_owned(),
            Formato::Mtv => "Mtv".to_owned(),
        }
    }

    /// The format stored under a name; `None` for any other text.
    pub fn desde_texto(s: &str) -> (res: Option<Formato>)
        ensures
            res == formato_de_nombre(s@),
    {
        if iguales(s, "Tmv") {
            Some(Formato::Tmv)
        } else if iguales(s, "Mtv") {
            Some(Formato::Mtv)
        } else {
            None
        }
    }
}

impl Mayusculas {
    /// The stored name of the letter case, as its `Display` writes it.
    pub fn texto(&self) -> (res: String)
        ensures
            res@ == nombre_mayusculas(*self),
    {
        match self {
            Mayusculas::Upper => "Upper".to_owned(),
            Mayusculas::Lower => "Lower".to_owned(),
            Mayusculas::Camel => "Camel".to_owned(),
        }
    }

    /// The letter case stored under a name; `None` for any other text.
    pub fn desde_texto(s: &str) -> (res: Option<Mayusculas>)
        ensures
            res == mayusculas_de_nombre(s@),
    {
        if iguales(s, "Upper") {
            Some(Mayusculas::Upper)
        } else if iguales(s, "Lower") {
            Some(Mayusculas::Lower)
        } else if iguales(s, "Camel") {
            Some(Mayusculas::Camel)
        } else {
            None
        }
    }
}

/// A stored format reads back as the same format.
pub proof fn lemma_formato_ida_y_vuelta(f: Formato)
    ensures
        formato_de_nombre(nombre_formato(f)) == Some(f),
{
    reveal_strlit("Tmv");
    reveal_strlit("Mtv");
    assert("Tmv"@[0] != "Mtv"@[0]);
}

/// A stored letter case reads back as the same letter case.
pub proof fn lemma_mayusculas_ida_y_vuelta(m: Mayusculas)
    ensures
        mayusculas_de_nombre(nombre_mayusculas(m)) == Some(m),
{
    reveal_strlit("Upper");
    reveal_strlit("Lower");
    reveal_strlit("Camel");
    assert("Upper"@[0] != "Lower"@[0]);
    assert("Upper"@[0] != "Camel"@[0]);
    assert("Lower"@[0] != "Camel"@[0]);
}

/// Each format is stored under its own name, and each of those names reads as that format:
/// "Tmv" (type, brand, variety) and "Mtv" (brand, type, variety).
pub proof fn lemma_nombres_de_formato()
    ensures
        nombre_formato(Formato::Tmv) == "Tmv"@,
        nombre_formato(Formato::Mtv) == "Mtv"@,
        formato_de_nombre("Tmv"@) == Some(Formato::Tmv),
        formato_de_nombre("Mtv"@) == Some(Formato::Mtv),
{
    lemma_formato_ida_y_vuelta(Formato::Tmv);
    lemma_formato_ida_y_vuelta(Formato::Mtv);
}

/// Each letter case is stored under its own name, and each of those names reads as that
/// letter case: "Upper", "Lower" and "Camel".
pub proof fn lemma_nombres_de_mayusculas()
    ensures
        nombre_mayusculas(Mayusculas::Upper) == "Upper"@,
        nombre_mayusculas(Mayusculas::Lower) == "Lower"@,
        nombre_mayusculas(Mayusculas::Camel) == "Camel"@,
        mayusculas_de_nombre("Upper"@) == Some(Mayusculas::Upper),
        mayusculas_de_nombre("Lower"@) == Some(Mayusculas::Lower),
        mayusculas_de_nombre("Camel"@) == Some(Mayusculas::Camel),
{
    lemma_mayusculas_ida_y_vuelta(Mayusculas::Upper);
    lemma_mayusculas_ida_y_vuelta(Mayusculas::Lower);
    lemma_mayusculas_ida_y_vuelta(Mayusculas::Camel);
}

} // verus!
