//! Means of payment and the rules for accepting a payment into a sale.
use vstd::prelude::*;

use crate::error::AppError;
use crate::texto::{iguales, iguales_ignorando_mayusculas, iguales_sin_mayusculas};

verus! {

/// The name of the means of payment "on the customer's account".
pub open spec fn cuenta_corriente() -> Seq<char> {
    "Cuenta Corriente"@
}

/// The name of cash as a means of payment.
pub open spec fn efectivo() -> Seq<char> {
    "Efectivo"@
}

/// The message of the error given when a customer may not pay on account.
pub open spec fn mensaje_cuenta_no_permitida() -> Seq<char> {
    "No esta permitido cuenta corriente en este cliente"@
}

/// Abstract value of a means of payment.
pub struct MedioPagoVista {
    pub medio: Seq<char>,
    pub id: i32,
}

/// A means of payment: its name and id.
#[derive(Debug, Clone)]
pub struct MedioPago {
    medio: String,
    id: i32,
}

impl View for MedioPago {
    type V = MedioPagoVista;

    closed spec fn view(&self) -> MedioPagoVista {
        MedioPagoVista { medio: self.medio@, id: self.id }
    }
}

impl Default for MedioPago {
    fn default() -> (res: Self)
        ensures
            res@ == (MedioPagoVista { medio: efectivo(), id: 1 }),
    {
        MedioPago { medio: "Efectivo".to_owned(), id: 1 }
    }
}

impl MedioPago {
    pub fn build(medio: &str, id: i32) -> (res: MedioPago)
        ensures
            res@ == (MedioPagoVista { medio: medio@, id }),
    {
        MedioPago { medio: medio.to_owned(), id }
    }

    pub fn id(&self) -> (res: &i32)
        ensures
            *res == self@.id,
    {
        &self.id
    }

    pub fn desc(&self) -> (res: String)
        ensures
            res@ == self@.medio,
    {
        self.medio.clone()
    }
}

/// The kind of account of the customer of a sale.
#[derive(Debug, Clone, Copy, PartialEq, Eq, Structural)]
pub enum CuentaCliente {
    /// The anonymous final consumer.
    Final,
    /// A registered customer with a credit limit.
    Autorizada,
    /// A registered customer without credit.
    NoAutorizada,
}

/// Whether a payment by means `medio` enters the sale of a customer with account `cuenta`.
/// `Ok(true)`: it enters marked as fully paid; `Ok(false)`: it enters as it is (on account);
/// an error: the customer may not pay on account.
pub fn admitir_pago(medio: &str, cuenta: CuentaCliente) -> (res: Result<bool, AppError>)
    ensures
        medio@ == cuenta_corriente() ==> (res is Ok <==> cuenta == CuentaCliente::Autorizada),
        medio@ != cuenta_corriente() ==> res is Ok,
        res matches Ok(saldado) ==> saldado == (medio@ != cuenta_corriente()),
        res matches Err(e) ==> (e matches AppError::IncorrectError(m) && m@
            == mensaje_cuenta_no_permitida()),
{
    if iguales(medio, "Cuenta Corriente") {
        match cuenta {
            CuentaCliente::Autorizada => Ok(false),
            _ => Err(
                AppError::IncorrectError(
                    "No esta permitido cuenta corriente en este cliente".to_owned(),
                ),
            ),
        }
    } else {
        Ok(true)
    }
}

/// Some payment of the sale is on account (its means is named "Cuenta Corriente",
/// letters compared without case).
pub open spec fn hay_credito(medios: Seq<Seq<char>>) -> bool {
    exists|i: int| 0 <= i < medios.len() && iguales_sin_mayusculas(#[trigger] medios[i], cuenta_corriente())
}

/// Whether some payment among `medios` is on account.
pub fn tiene_credito(medios: &Vec<String>) -> (res: bool)
    ensures
        res == hay_credito(medios@.map_values(|m: String| m@)),
        res <==> exists|i: int|
            0 <= i < medios.len() && iguales_sin_mayusculas(#[trigger] medios@[i]@, "Cuenta Corriente"@),
{
    let ghost vistas = medios@.map_values(|m: String| m@);
    let mut i: usize = 0;
    while i < medios.len()
        invariant
            vistas == medios@.map_values(|m: String| m@),
            i <= medios.len(),
            forall|j: int| 0 <= j < i ==> !iguales_sin_mayusculas(#[trigger] vistas[j], cuenta_corriente()),
        decreases medios.len() - i,
    {
        assert(vistas[i as int] == medios@[i as int]@);
        if iguales_ignorando_mayusculas(medios[i].as_str(), "Cuenta Corriente") {
            return true;
        }
        i = i + 1;
    }
    proof {
        assert forall|k: int| 0 <= k < medios.len() implies !iguales_sin_mayusculas(
            #[trigger] medios@[k]@,
            "Cuenta Corriente"@,
        ) by {
            assert(vistas[k] == medios@[k]@);
        }
    }
    false
}

/// The state of a sale after a payment: `(cerrada, paga)`. The sale closes once nothing is
/// left to pay; it is paid off once it is closed and no payment is on account.
pub fn estado_tras_pago(
    cerrada: bool,
    paga: bool,
    nada_por_pagar: bool,
    medios: &Vec<String>,
) -> (res: (bool, bool))
    ensures
        res.0 == (cerrada || nada_por_pagar),
        res.1 == (paga || ((cerrada || nada_por_pagar) && !hay_credito(
            medios@.map_values(|m: String| m@),
        ))),
{
    let cerrada = cerrada || nada_por_pagar;
    let credito = tiene_credito(medios);
    let paga = if cerrada && !credito {
        true
    } else {
        paga
    };
    (cerrada, paga)
}

/// Whether a payment must be refused because it exceeds what is left to pay: only cash may
/// exceed it (the change is given back).
pub fn excede_lo_permitido(medio: &str, excede_saldo: bool) -> (res: bool)
    ensures
        res == (medio@ != efectivo() && excede_saldo),
{
    !iguales(medio, "Efectivo") && excede_saldo
}

/// The means of payment that a new configuration offers.
pub fn medios_pago_por_defecto() -> (res: Vec<MedioPago>)
    ensures
        res@.map_values(|m: MedioPago| m@) == seq![
            MedioPagoVista { medio: "Efectivo"@, id: 1 },
            MedioPagoVista { medio: "Crédito"@, id: 2 },
            MedioPagoVista { medio: "Débito"@, id: 3 },
        ],
{
    let mut v = Vec::new();
    v.push(MedioPago::build("Efectivo", 1));
    v.push(MedioPago::build("Crédito", 2));
    v.push(MedioPago::build("Débito", 3));
    assert(v@.map_values(|m: MedioPago| m@) =~= seq![
        MedioPagoVista { medio: "Efectivo"@, id: 1 },
        MedioPagoVista { medio: "Crédito"@, id: 2 },
        MedioPagoVista { medio: "Débito"@, id: 3 },
    ]);
    v
}

/// The means of payment that a new database registers, with their ids.
pub fn medios_pago_iniciales() -> (res: Vec<MedioPago>)
    ensures
        res@.map_values(|m: MedioPago| m@) == seq![
            MedioPagoVista { medio: "Cuenta Corriente"@, id: 0 },
            MedioPagoVista { medio: "Efectivo"@, id: 1 },
            MedioPagoVista { medio: "Crédito"@, id: 2 },
            MedioPagoVista { medio: "Débito"@, id: 3 },
        ],
{
    let mut v = Vec::new();
    v.push(MedioPago::build("Cuenta Corriente", 0));
    v.push(MedioPago::build("Efectivo", 1));
    v.push(MedioPago::build("Crédito", 2));
    v.push(MedioPago::build("Débito", 3));
    assert(v@.map_values(|m: MedioPago| m@) =~= seq![
        MedioPagoVista { medio: "Cuenta Corriente"@, id: 0 },
        MedioPagoVista { medio: "Efectivo"@, id: 1 },
        MedioPagoVista { medio: "Crédito"@, id: 2 },
        MedioPagoVista { medio: "Débito"@, id: 3 },
    ]);
    v
}

/// The position of the payment with id `id` among the ids of a sale's payments, the first
/// one if several (`Venta::eliminar_pago`); the error "Error de id de pago" if none.
pub fn posicion_de_pago(ids: &Vec<i32>, id: i32) -> (res: Result<usize, AppError>)
    ensures
        res is Ok <==> ids@.contains(id),
        res matches Ok(i) ==> i < ids.len() && ids@[i as int] == id && forall|j: int|
            0 <= j < i ==> ids@[j] != id,
        res matches Err(e) ==> (e matches AppError::IncorrectError(m) && m@
            == "Error de id de pago"@),
{
    let mut i: usize = 0;
    while i < ids.len()
        invariant
            i <= ids.len(),
            forall|j: int| 0 <= j < i ==> ids@[j] != id,
        decreases ids.len() - i,
    {
        if ids[i] == id {
            return Ok(i);
        }
        i = i + 1;
    }
    Err(AppError::IncorrectError("Error de id de pago".to_owned()))
}

/// The views of a list of means of payment.
pub open spec fn vistas_medios(medios: Seq<MedioPago>) -> Seq<MedioPagoVista> {
    medios.map_values(|m: MedioPago| m@)
}

/// A means of payment other than the customer's account (id 0).
pub open spec fn no_es_cuenta(m: MedioPagoVista) -> bool {
    m.id != 0
}

/// The means of payment offered for a sale (`Pagos`): all of them to a customer with
/// credit; to any other customer, all but the account, in the same order.
pub open spec fn ofrecidos(medios: Seq<MedioPagoVista>, cuenta: CuentaCliente) -> Seq<
    MedioPagoVista,
> {
    if cuenta == CuentaCliente::Autorizada {
        medios
    } else {
        sin_cuenta(medios)
    }
}

/// The means of payment other than the account, in their order.
pub open spec fn sin_cuenta(medios: Seq<MedioPagoVista>) -> Seq<MedioPagoVista> {
    medios.filter(|m: MedioPagoVista| no_es_cuenta(m))
}

/// The means of payment among `medios` offered to a customer with account `cuenta`.
pub fn medios_ofrecidos(medios: Vec<MedioPago>, cuenta: CuentaCliente) -> (res: Vec<MedioPago>)
    ensures
        vistas_medios(res@) == ofrecidos(vistas_medios(medios@), cuenta),
{
    if cuenta == CuentaCliente::Autorizada {
        return medios;
    }
    let ghost orig = vistas_medios(medios@);
    let mut resto = medios;
    let mut res: Vec<MedioPago> = Vec::new();
    let ghost mut k: int = 0;
    while resto.len() > 0
        invariant
            0 <= k <= orig.len(),
            vistas_medios(resto@) == orig.skip(k),
            vistas_medios(res@) == sin_cuenta(orig.take(k)),
        decreases resto.len(),
    {
        let ghost antes = vistas_medios(resto@);
        let ghost filtrados = vistas_medios(res@);
        proof {
            assert(antes.len() == resto@.len());
            assert(antes[0] == resto@[0]@);
            assert(orig.take(k + 1).drop_last() =~= orig.take(k));
            assert(orig.take(k + 1).last() == orig[k]);
            reveal(Seq::filter);
            assert(sin_cuenta(orig.take(k + 1)) == (if no_es_cuenta(orig[k]) {
                sin_cuenta(orig.take(k)).push(orig[k])
            } else {
                sin_cuenta(orig.take(k))
            }));
        }
        let m = resto.remove(0);
        proof {
            assert(m@ == orig[k]);
            assert(vistas_medios(resto@) =~= orig.skip(k + 1)) by {
                assert forall|j: int| 0 <= j < resto@.len() implies #[trigger] vistas_medios(
                    resto@,
                )[j] == orig.skip(k + 1)[j] by {
                    assert(antes[j + 1] == orig.skip(k)[j + 1]);
                }
            }
        }
        let id = m.id;
        proof {
            assert(m@.id == id);
            assert(no_es_cuenta(orig[k]) == (id != 0));
        }
        if id != 0 {
            res.push(m);
            proof {
                assert(vistas_medios(res@) =~= filtrados.push(orig[k]));
            }
        }
        proof {
            assert(vistas_medios(res@) == sin_cuenta(orig.take(k + 1)));
            k = k + 1;
        }
    }
    proof {
        assert(orig.take(k) =~= orig);
    }
    res
}

/// To a customer without credit the account is never offered, and every other means is.
pub proof fn lemma_ofrecidos_sin_cuenta(medios: Seq<MedioPagoVista>, cuenta: CuentaCliente)
    requires
        cuenta != CuentaCliente::Autorizada,
    ensures
        forall|i: int|
            0 <= i < ofrecidos(medios, cuenta).len() ==> #[trigger] ofrecidos(medios, cuenta)[i].id
                != 0,
        forall|i: int|
            0 <= i < medios.len() && medios[i].id != 0 ==> #[trigger] ofrecidos(
                medios,
                cuenta,
            ).contains(medios[i]),
{
    let pred = |m: MedioPagoVista| no_es_cuenta(m);
    assert forall|i: int| 0 <= i < ofrecidos(medios, cuenta).len() implies #[trigger] ofrecidos(
        medios,
        cuenta,
    )[i].id != 0 by {
        medios.lemma_filter_pred(pred, i);
    }
    assert forall|i: int| 0 <= i < medios.len() && medios[i].id != 0 implies #[trigger] ofrecidos(
        medios,
        cuenta,
    ).contains(medios[i]) by {
        medios.lemma_filter_contains(pred, i);
    }
}

/// Whether a sale has a payment on account depends on each of its payments, the first one
/// included, alone: no payment means no credit, a single payment has credit exactly when it
/// is named "Cuenta Corriente" (letters compared without case), and a payment added at
/// either end adds its own credit to that of the others.
pub proof fn lemma_credito_de_cada_pago(medios: Seq<Seq<char>>, m: Seq<char>)
    ensures
        !hay_credito(Seq::<Seq<char>>::empty()),
        hay_credito(seq![m]) == iguales_sin_mayusculas(m, "Cuenta Corriente"@),
        hay_credito(medios.push(m)) == (hay_credito(medios) || iguales_sin_mayusculas(
            m,
            "Cuenta Corriente"@,
        )),
        hay_credito(seq![m] + medios) == (iguales_sin_mayusculas(m, "Cuenta Corriente"@)
            || hay_credito(medios)),
        hay_credito(seq!["Cuenta Corriente"@] + medios),
{
    let cc = "Cuenta Corriente"@;
    if iguales_sin_mayusculas(m, cc) {
        assert(seq![m][0] == m);
        assert(medios.push(m)[medios.len() as int] == m);
        assert((seq![m] + medios)[0] == m);
    }
    if hay_credito(seq![m]) {
        let i = choose|i: int| 0 <= i < 1 && iguales_sin_mayusculas(#[trigger] seq![m][i], cc);
        assert(i == 0);
    }
    if hay_credito(medios) {
        let i = choose|i: int| 0 <= i < medios.len() && iguales_sin_mayusculas(#[trigger] medios[i], cc);
        assert(medios.push(m)[i] == medios[i]);
        assert((seq![m] + medios)[i + 1] == medios[i]);
    }
    if hay_credito(medios.push(m)) {
        let i = choose|i: int| 0 <= i < medios.len() + 1 && iguales_sin_mayusculas(#[trigger] medios.push(m)[i], cc);
        if i < medios.len() {
            assert(medios.push(m)[i] == medios[i]);
        }
    }
    if hay_credito(seq![m] + medios) {
        let i = choose|i: int| 0 <= i < medios.len() + 1 && iguales_sin_mayusculas(#[trigger] (seq![m] + medios)[i], cc);
        if i > 0 {
            assert((seq![m] + medios)[i] == medios[i - 1]);
        }
    }
    assert(iguales_sin_mayusculas(cc, cc));
    assert((seq![cc] + medios)[0] == cc);
}

/// The account is recognised whatever the case of its letters: a payment named
/// "CUENTA CORRIENTE" or "cuenta corriente" is on account, and one named "Efectivo" is not.
pub proof fn lemma_credito_sin_mayusculas()
    ensures
        hay_credito(seq!["CUENTA CORRIENTE"@]),
        hay_credito(seq!["cuenta corriente"@]),
        !hay_credito(seq!["Efectivo"@]),
{
    let cc = "Cuenta Corriente"@;
    reveal_strlit("Cuenta Corriente");
    reveal_strlit("CUENTA CORRIENTE");
    reveal_strlit("cuenta corriente");
    reveal_strlit("Efectivo");
    assert(iguales_sin_mayusculas("CUENTA CORRIENTE"@, cc));
    assert(iguales_sin_mayusculas("cuenta corriente"@, cc));
    assert(seq!["CUENTA CORRIENTE"@][0] == "CUENTA CORRIENTE"@);
    assert(seq!["cuenta corriente"@][0] == "cuenta corriente"@);
    lemma_credito_de_cada_pago(Seq::<Seq<char>>::empty(), "Efectivo"@);
    assert(!iguales_sin_mayusculas("Efectivo"@, cc));
}

} // verus!
