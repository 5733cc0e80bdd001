use punto_venta::consultas::{
    consulta_para, consultas_alta_producto, lote_productos, lotes_de_diez, plan_filtrado,
    plan_guardar, repetir_filas, PlanFiltrado, TipoValuable,
};

#[test]
fn filas_repetidas() {
    assert_eq!(repetir_filas("a", ", b", 0), "a");
    assert_eq!(repetir_filas("a", ", b", 2), "a, b, b");
    assert_eq!(
        consulta_para("insert into proveedores values (?, ?, ?, ?)", ", (?, ?, ?, ?)", 3),
        "insert into proveedores values (?, ?, ?, ?), (?, ?, ?, ?), (?, ?, ?, ?)"
    );
    assert_eq!(consulta_para("x", "y", 1), "x");
    assert_eq!(consulta_para("x", "y", 0), "x");
}

#[test]
fn lotes() {
    assert_eq!(lotes_de_diez(0), vec![]);
    assert_eq!(lotes_de_diez(10), vec![(0, 10)]);
    assert_eq!(lotes_de_diez(25), vec![(0, 10), (10, 20), (20, 25)]);
    assert_eq!(lotes_de_diez(11), vec![(0, 10), (10, 11)]);
}

#[test]
fn lote_de_productos() {
    let l = lote_productos(&vec![(1, [11, 0, 12]), (2, [21, 22, 0])]);
    assert_eq!(
        l.consulta_productos,
        "insert into productos\n        (id, precio_venta, porcentaje, precio_costo, tipo, marca, variedad, presentacion, size, updated_at)\n         values (?, ?, ?, ?, ?, ?, ?, ?, ?, ?),(?, ?, ?, ?, ?, ?, ?, ?, ?, ?)"
    );
    assert_eq!(
        l.consulta_codigos,
        "insert into codigos (codigo, producto) values (?, ?),(?, ?),(?, ?),(?, ?)"
    );
    assert_eq!(l.codigos, vec![(11, 1), (12, 1), (21, 2), (22, 2)]);
}

#[test]
fn lote_con_primer_codigo_vacio() {
    let l = lote_productos(&vec![(5, [0, 51, 0])]);
    assert_eq!(l.consulta_codigos, "insert into codigos (codigo, producto) values ,(?, ?)");
    assert_eq!(l.codigos, vec![(51, 5)]);
}

#[test]
fn filtro_numerico_es_codigo() {
    assert!(matches!(plan_filtrado("7790895000997"), PlanFiltrado::Codigo(7790895000997)));
    assert!(matches!(plan_filtrado("-3"), PlanFiltrado::Codigo(-3)));
}

#[test]
fn filtro_de_texto() {
    match plan_filtrado("coca  cola") {
        PlanFiltrado::Texto(b) => {
            assert_eq!(b.patrones, vec!["%coca%", "%cola%"]);
            assert_eq!(
                b.productos,
                "select id, precio_venta, porcentaje, precio_costo, tipo, marca, variedad, presentacion, size, updated_at from productos where ((tipo like ?) or (marca like ?) or (variedad like ?) or (presentacion like ?) or (size like ?)) and ((tipo like ?) or (marca like ?) or (variedad like ?) or (presentacion like ?) or (size like ?)) limit 15"
            );
            assert_eq!(
                b.pesables,
                "select id, precio_peso, codigo, porcentaje, costo_kilo, descripcion, updated_at from pesables inner join codigos on pesables.id = codigos.pesable where (descripcion like ?) and (descripcion like ?) limit 15"
            );
            assert_eq!(
                b.rubros,
                "select id, descripcion, updated_at, codigo from rubros inner join codigos on rubros.id = codigos.rubro where (descripcion like ?) and (descripcion like ?) limit 15"
            );
        }
        PlanFiltrado::Codigo(_) => panic!("se esperaba texto"),
    }
}

#[test]
fn guardar_venta_de_consumidor_final() {
    let p = plan_guardar(&vec![TipoValuable::Prod, TipoValuable::Prod, TipoValuable::Pes], 2, None, false);
    assert!(p.paga);
    assert_eq!(p.cliente, 1);
    assert_eq!(
        p.consulta_pagos,
        "INSERT INTO pagos (medio_pago, monto, pagado, venta) VALUES (?, ?, ?, ?), (?, ?, ?, ?)"
    );
    assert_eq!(
        p.consulta_productos,
        "INSERT INTO relacion_venta_prod (venta, producto, cantidad, precio, pos) VALUES (?, ?, ?, ?, ?), (?, ?, ?, ?, ?)"
    );
    assert!(p.con_productos && p.con_pesables && !p.con_rubros);
    assert_eq!(
        p.consulta_pesables,
        "INSERT INTO relacion_venta_pes (venta, pesable, cantidad, precio_kilo) VALUES (?, ?, ?, ?, ?), (?, ?, ?, ?, ?)"
    );
}

#[test]
fn guardar_venta_de_cliente() {
    let p = plan_guardar(&vec![TipoValuable::Rub, TipoValuable::Prod], 1, Some(30111222), false);
    assert!(!p.paga);
    assert_eq!(p.cliente, 30111222);
    assert!(p.con_productos);
    assert!(!p.con_rubros);
    assert_eq!(
        p.consulta_rubros,
        "INSERT INTO relacion_venta_rub (venta, rubro, cantidad, precio) VALUES (?, ?, ?, ?, ?)"
    );
    assert!(plan_guardar(&vec![], 0, Some(5), true).paga);
}

#[test]
fn alta_de_producto() {
    let c = consultas_alta_producto(&[7790895000997, 0, 123], 2);
    assert_eq!(c.existentes, "select id as \"int:_\" from codigos where codigo = ? or codigo = ?");
    assert_eq!(c.insertar_codigos, "insert into codigos values (?, ?), (?, ?)");
    assert_eq!(c.valores, vec![7790895000997, 123]);
    assert_eq!(
        c.relaciones,
        "insert into relacion_prod_prov values (?, ?, ?), (?, ?, ?)"
    );
    let d = consultas_alta_producto(&[1, 0, 0], 0);
    assert_eq!(d.valores, vec![1]);
    assert_eq!(d.relaciones, "insert into relacion_prod_prov values (?, ?, ?)");
}
