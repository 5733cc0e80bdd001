use punto_venta::error::AppError;
use punto_venta::modelos::{CodeDB, Mapper, RelacionProdProvDB};
use punto_venta::modelos::tipo_de_codigo;
use punto_venta::consultas::TipoValuable;
use punto_venta::producto::{
    buscar_codigo, codigos_desde_filas, comparten_codigo, quitar_codigo, unidad_desde_texto,
    RelacionProdProv, Unidad,
};

#[test]
fn relacion_con_proveedor() {
    let r = RelacionProdProv::build(3, Some(77));
    assert_eq!(*r.proveedor(), 3);
    assert_eq!(r.codigo_interno(), Some(77));
    let fila = RelacionProdProvDB { id: 1, producto: 2, proveedor: 5, codigo: None };
    let m = Mapper::rel_prod_prov(&fila);
    assert_eq!(*m.proveedor(), 5);
    assert_eq!(m.codigo_interno(), None);
}

#[test]
fn quitar_codigos() {
    let mut c = [11, 22, 33];
    quitar_codigo(&mut c, 0);
    assert_eq!(c, [22, 33, 0]);
    let mut c = [11, 22, 33];
    quitar_codigo(&mut c, 1);
    assert_eq!(c, [11, 33, 0]);
    let mut c = [11, 22, 33];
    quitar_codigo(&mut c, 2);
    assert_eq!(c, [11, 22, 0]);
    let mut c = [11, 22, 33];
    quitar_codigo(&mut c, 7);
    assert_eq!(c, [11, 22, 0]);
}

#[test]
fn productos_que_comparten_codigo() {
    assert!(comparten_codigo(&[1, 2, 3], &[9, 8, 3]));
    assert!(comparten_codigo(&[9, 8, 3], &[1, 2, 3]));
    assert!(!comparten_codigo(&[1, 2, 3], &[4, 5, 6]));
    assert!(comparten_codigo(&[1, 0, 0], &[4, 0, 0]));
}

#[test]
fn buscar_un_codigo() {
    assert_eq!(buscar_codigo(&[5, 7790895000997, 0], 7790895000997).unwrap(), 7790895000997i64.to_be_bytes());
    match buscar_codigo(&[5, 6, 0], 4) {
        Err(AppError::IncorrectError(m)) => assert_eq!(m, "Codigo no encontrado"),
        _ => panic!("se esperaba error"),
    }
}

#[test]
fn codigos_de_la_base() {
    assert_eq!(codigos_desde_filas(&vec![7, 8], "m").unwrap(), [7, 8, 0]);
    assert_eq!(codigos_desde_filas(&vec![7, 8, 9], "m").unwrap(), [7, 8, 9]);
    for filas in [vec![], vec![1, 2, 3, 4]] {
        match codigos_desde_filas(&filas, "Error de codigos en db incorrecto") {
            Err(AppError::IncorrectError(m)) => assert_eq!(m, "Error de codigos en db incorrecto"),
            _ => panic!("se esperaba error"),
        }
    }
}

#[test]
fn tipo_de_un_codigo() {
    let c = |p, pe, r| CodeDB { codigo: 1, producto: p, pesable: pe, rubro: r };
    assert_eq!(tipo_de_codigo(&c(Some(1), None, None)), Some(TipoValuable::Prod));
    assert_eq!(tipo_de_codigo(&c(Some(1), Some(2), None)), Some(TipoValuable::Prod));
    assert_eq!(tipo_de_codigo(&c(None, Some(2), Some(3))), Some(TipoValuable::Pes));
    assert_eq!(tipo_de_codigo(&c(None, None, Some(3))), Some(TipoValuable::Rub));
    assert_eq!(tipo_de_codigo(&c(None, None, None)), None);
}

#[test]
fn unidades_de_presentacion() {
    for (nombre, unidad) in [
        ("Gr", Unidad::Gr),
        ("Un", Unidad::Un),
        ("Lt", Unidad::Lt),
        ("Ml", Unidad::Ml),
        ("CC", Unidad::CC),
        ("Kg", Unidad::Kg),
    ] {
        assert_eq!(unidad_desde_texto(nombre).ok(), Some(unidad));
        assert_eq!(unidad.texto(), nombre);
    }
    match unidad_desde_texto("gr") {
        Err(AppError::SizeSelection(m)) => assert_eq!(m, "gr"),
        _ => panic!("se esperaba SizeSelection"),
    }
}
