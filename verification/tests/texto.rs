use punto_venta::error::AppError;
use punto_venta::texto::{
    dividir_filtro, entero_desde_texto, iguales, iguales_ignorando_mayusculas, partir_cantidad,
    texto_entero, texto_natural,
};
use punto_venta::vista::utiles::round;

#[test]
fn texto_de_enteros() {
    assert_eq!(texto_entero(0), "0");
    assert_eq!(texto_entero(7), "7");
    assert_eq!(texto_entero(1234), "1234");
    assert_eq!(texto_entero(-5), "-5");
    assert_eq!(texto_entero(-10), "-10");
    assert_eq!(texto_entero(i64::MAX), i64::MAX.to_string());
    assert_eq!(texto_entero(i64::MIN), i64::MIN.to_string());
    assert_eq!(texto_natural(u64::MAX), u64::MAX.to_string());
    assert_eq!(texto_natural(100), "100");
}

#[test]
fn round_muestra_el_entero() {
    assert_eq!(round(1500), "1500");
    assert_eq!(round(-3), format!("{:.2}", -3i64));
}

#[test]
fn comparaciones_de_texto() {
    assert!(iguales("Efectivo", "Efectivo"));
    assert!(!iguales("Efectivo", "efectivo"));
    assert!(iguales_ignorando_mayusculas("cuenta corriente", "Cuenta Corriente"));
    assert!(iguales_ignorando_mayusculas("CUENTA CORRIENTE", "Cuenta Corriente"));
    assert!(!iguales_ignorando_mayusculas("Cuenta Corrient", "Cuenta Corriente"));
    assert!(!iguales_ignorando_mayusculas("Débito", "DÉBITO"));
    assert!(iguales_ignorando_mayusculas("Débito", "DéBITO"));
}

#[test]
fn lectura_de_enteros() {
    assert_eq!(entero_desde_texto("123"), Some(123));
    assert_eq!(entero_desde_texto("-0"), Some(0));
    assert_eq!(entero_desde_texto("+7"), Some(7));
    assert_eq!(entero_desde_texto("007"), Some(7));
    assert_eq!(entero_desde_texto(""), None);
    assert_eq!(entero_desde_texto("-"), None);
    assert_eq!(entero_desde_texto("+"), None);
    assert_eq!(entero_desde_texto("12a"), None);
    assert_eq!(entero_desde_texto(" 1"), None);
    assert_eq!(entero_desde_texto("1 "), None);
    assert_eq!(entero_desde_texto("--1"), None);
    assert_eq!(entero_desde_texto("9223372036854775807"), Some(i64::MAX));
    assert_eq!(entero_desde_texto("9223372036854775808"), None);
    assert_eq!(entero_desde_texto("-9223372036854775808"), Some(i64::MIN));
    assert_eq!(entero_desde_texto("-9223372036854775809"), None);
    assert_eq!(entero_desde_texto("99999999999999999999999x"), None);
    assert_eq!(entero_desde_texto("٣"), None);
}

#[test]
fn lectura_como_la_de_std() {
    for s in ["0", "-1", "+1", "1_000", "12.5", "7790895000997", "coca", "", "-+1", "+-1"] {
        assert_eq!(entero_desde_texto(s), s.parse::<i64>().ok(), "{s}");
    }
}

#[test]
fn texto_de_un_entero_se_lee() {
    for n in [0i64, 1, -1, 42, -1000, i64::MAX, i64::MIN, 7790895000997] {
        assert_eq!(entero_desde_texto(&texto_entero(n)), Some(n));
    }
}

#[test]
fn palabras_de_un_filtro() {
    assert_eq!(dividir_filtro("coca  cola light"), vec!["coca", "cola", "light"]);
    assert_eq!(dividir_filtro(" galletitas "), vec!["galletitas"]);
    assert_eq!(dividir_filtro("   "), Vec::<String>::new());
    assert_eq!(dividir_filtro(""), Vec::<String>::new());
    assert_eq!(dividir_filtro("azúcar"), vec!["azúcar"]);
    let f = "yerba  mate\tsuave ";
    let esperado: Vec<String> =
        f.split(' ').filter(|p| !p.is_empty()).map(|p| p.to_string()).collect();
    assert_eq!(dividir_filtro(f), esperado);
}

#[test]
fn cantidad_antes_del_codigo() {
    match partir_cantidad("3*7791234") {
        Ok((Some(c), r)) => {
            assert_eq!(c, "3");
            assert_eq!(r, "7791234");
        }
        _ => panic!("se esperaba cantidad y código"),
    }
    match partir_cantidad("7791234") {
        Ok((None, r)) => assert_eq!(r, "7791234"),
        _ => panic!("se esperaba solo el código"),
    }
    match partir_cantidad("*") {
        Ok((Some(c), r)) => {
            assert_eq!(c, "");
            assert_eq!(r, "");
        }
        _ => panic!("se esperaba dos partes vacías"),
    }
    assert!(matches!(partir_cantidad("2*3*4"), Err(AppError::ParseError)));
}
