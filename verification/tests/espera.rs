use punto_venta::error::AppError;
use punto_venta::espera::{guardar_en_espera, quitar_item, recuperar_de_espera};
use punto_venta::filtros::{sin_repetidos, tipo_de_filtro, verificar_indice, TipoFiltro};

#[test]
fn guardar_y_recuperar_una_venta() {
    let mut stash = vec!["v1", "v2"];
    let mut actual = "v3";
    guardar_en_espera(&mut stash, &mut actual, "nueva");
    assert_eq!(stash, vec!["v1", "v2", "v3"]);
    assert_eq!(actual, "nueva");
    recuperar_de_espera(&mut stash, &mut actual, false, 2).unwrap();
    assert_eq!(stash, vec!["v1", "v2"]);
    assert_eq!(actual, "v3");
}

#[test]
fn recuperar_con_venta_en_curso() {
    let mut stash = vec![1, 2, 3];
    let mut actual = 9;
    recuperar_de_espera(&mut stash, &mut actual, true, 0).unwrap();
    assert_eq!(actual, 1);
    assert_eq!(stash, vec![2, 3, 9]);
}

#[test]
fn recuperar_fuera_de_rango() {
    let mut stash = vec![1];
    let mut actual = 9;
    assert!(matches!(recuperar_de_espera(&mut stash, &mut actual, true, 1), Err(AppError::SaleSelection)));
    assert_eq!(stash, vec![1]);
    assert_eq!(actual, 9);
}

#[test]
fn quitar_items() {
    let mut v = vec!['a', 'b', 'c'];
    assert!(!quitar_item(&mut v, 1));
    assert_eq!(v, vec!['a', 'c']);
    let mut w = vec!['a'];
    assert!(quitar_item(&mut w, 5));
    assert!(w.is_empty());
}

#[test]
fn filtros_de_catalogo() {
    assert_eq!(tipo_de_filtro("marca").unwrap(), TipoFiltro::Marca);
    assert_eq!(tipo_de_filtro("tipo_producto").unwrap(), TipoFiltro::TipoProducto);
    match tipo_de_filtro("color") {
        Err(AppError::IncorrectError(m)) => assert_eq!(m, "Parámetro incorrecto color"),
        _ => panic!("se esperaba error"),
    }
}

#[test]
fn marcas_sin_repetir() {
    let v: Vec<String> = ["Arcor", "Bagley", "Arcor", "Terrabusi", "Bagley"].iter().map(|s| s.to_string()).collect();
    assert_eq!(sin_repetidos(v), vec!["Arcor", "Bagley", "Terrabusi"]);
    assert!(sin_repetidos(vec![]).is_empty());
}

#[test]
fn indice_de_item() {
    assert!(verificar_indice(0, 1).is_ok());
    match verificar_indice(3, 3) {
        Err(AppError::NotFound { objeto, instancia }) => {
            assert_eq!(objeto, "Producto");
            assert_eq!(instancia, "3");
        }
        _ => panic!("se esperaba error"),
    }
}

#[test]
fn error_no_encontrado() {
    match AppError::no_encontrado("Rubro", 12) {
        AppError::NotFound { objeto, instancia } => {
            assert_eq!(objeto, "Rubro");
            assert_eq!(instancia, "12");
        }
        _ => panic!(),
    }
}

