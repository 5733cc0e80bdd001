use punto_venta::config::{Formato, Mayusculas};
use punto_venta::error::AppError;
use punto_venta::pago::{
    admitir_pago, estado_tras_pago, excede_lo_permitido, medios_ofrecidos, medios_pago_iniciales,
    medios_pago_por_defecto, posicion_de_pago, tiene_credito, CuentaCliente, MedioPago,
};

#[test]
fn medio_de_pago() {
    let m = MedioPago::build("Débito", 3);
    assert_eq!(*m.id(), 3);
    assert_eq!(m.desc(), "Débito");
    let d = MedioPago::default();
    assert_eq!(*d.id(), 1);
    assert_eq!(d.desc(), "Efectivo");
}

#[test]
fn medios_iniciales() {
    let v: Vec<(String, i32)> = medios_pago_por_defecto().iter().map(|m| (m.desc(), *m.id())).collect();
    assert_eq!(
        v,
        vec![("Efectivo".to_string(), 1), ("Crédito".to_string(), 2), ("Débito".to_string(), 3)]
    );
    let w: Vec<(String, i32)> = medios_pago_iniciales().iter().map(|m| (m.desc(), *m.id())).collect();
    assert_eq!(w[0], ("Cuenta Corriente".to_string(), 0));
    assert_eq!(w.len(), 4);
}

#[test]
fn cuenta_corriente_solo_con_credito() {
    assert!(matches!(admitir_pago("Cuenta Corriente", CuentaCliente::Autorizada), Ok(false)));
    for cuenta in [CuentaCliente::Final, CuentaCliente::NoAutorizada] {
        match admitir_pago("Cuenta Corriente", cuenta) {
            Err(AppError::IncorrectError(m)) => {
                assert_eq!(m, "No esta permitido cuenta corriente en este cliente")
            }
            _ => panic!("se esperaba rechazo"),
        }
    }
}

#[test]
fn otros_medios_quedan_pagados() {
    for cuenta in [CuentaCliente::Final, CuentaCliente::Autorizada, CuentaCliente::NoAutorizada] {
        assert!(matches!(admitir_pago("Efectivo", cuenta), Ok(true)));
        assert!(matches!(admitir_pago("cuenta corriente", cuenta), Ok(true)));
    }
}

#[test]
fn credito_sin_distinguir_mayusculas() {
    assert!(tiene_credito(&vec!["Efectivo".to_string(), "CUENTA CORRIENTE".to_string()]));
    assert!(!tiene_credito(&vec!["Efectivo".to_string(), "Débito".to_string()]));
    assert!(!tiene_credito(&vec![]));
}

#[test]
fn estado_de_la_venta_tras_un_pago() {
    let efectivo = vec!["Efectivo".to_string()];
    let cuenta = vec!["Efectivo".to_string(), "Cuenta Corriente".to_string()];
    assert_eq!(estado_tras_pago(false, false, false, &efectivo), (false, false));
    assert_eq!(estado_tras_pago(false, false, true, &efectivo), (true, true));
    assert_eq!(estado_tras_pago(false, false, true, &cuenta), (true, false));
    assert_eq!(estado_tras_pago(true, true, false, &cuenta), (true, true));
}

#[test]
fn solo_el_efectivo_puede_exceder() {
    assert!(!excede_lo_permitido("Efectivo", true));
    assert!(excede_lo_permitido("Débito", true));
    assert!(!excede_lo_permitido("Débito", false));
}

#[test]
fn formatos_y_mayusculas() {
    assert_eq!(Formato::Tmv.texto(), "Tmv");
    assert_eq!(Formato::desde_texto("Mtv"), Some(Formato::Mtv));
    assert_eq!(Formato::desde_texto("tmv"), None);
    assert_eq!(Formato::default(), Formato::Tmv);
    assert_eq!(Mayusculas::default(), Mayusculas::Upper);
    for m in [Mayusculas::Upper, Mayusculas::Lower, Mayusculas::Camel] {
        assert_eq!(Mayusculas::desde_texto(&m.texto()), Some(m));
    }
    for f in [Formato::Tmv, Formato::Mtv] {
        assert_eq!(Formato::desde_texto(&f.texto()), Some(f));
    }
    assert_eq!(Mayusculas::desde_texto("Title"), None);
}

#[test]
fn posicion_del_pago_a_eliminar() {
    assert_eq!(posicion_de_pago(&vec![7, 3, 9, 3], 3).ok(), Some(1));
    assert_eq!(posicion_de_pago(&vec![7, 3, 9], 7).ok(), Some(0));
    match posicion_de_pago(&vec![7, 3, 9], 4) {
        Err(AppError::IncorrectError(m)) => assert_eq!(m, "Error de id de pago"),
        _ => panic!("se esperaba un error"),
    }
    assert!(posicion_de_pago(&Vec::new(), 0).is_err());
}

fn nombres(medios: &[MedioPago]) -> Vec<String> {
    medios.iter().map(|m| m.desc()).collect()
}

#[test]
fn medios_ofrecidos_segun_el_cliente() {
    let todos = nombres(&medios_pago_iniciales());
    let con_credito = medios_ofrecidos(medios_pago_iniciales(), CuentaCliente::Autorizada);
    assert_eq!(nombres(&con_credito), todos);
    let sin_cuenta = vec!["Efectivo".to_string(), "Crédito".to_string(), "Débito".to_string()];
    let final_ = medios_ofrecidos(medios_pago_iniciales(), CuentaCliente::Final);
    assert_eq!(nombres(&final_), sin_cuenta);
    let sin_credito = medios_ofrecidos(medios_pago_iniciales(), CuentaCliente::NoAutorizada);
    assert_eq!(nombres(&sin_credito), sin_cuenta);
    assert!(sin_credito.iter().all(|m| *m.id() != 0));
    let solo_cuenta = vec![MedioPago::build("Cuenta Corriente", 0), MedioPago::build("Cuenta Corriente", 0)];
    assert!(medios_ofrecidos(solo_cuenta, CuentaCliente::Final).is_empty());
}
