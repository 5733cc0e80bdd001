use punto_venta::vista::alta_producto::{
    agregar_codigo, borrar_codigo, devolver_proveedor, elegir_proveedor,
};
use punto_venta::vista::enums::{nav_de_tecla, navegar, seleccion_inicial, Nav};
use punto_venta::vista::proveedor::Proveedor;

#[test]
fn teclas_de_navegacion() {
    assert_eq!(nav_de_tecla("ArrowDown"), Some(Nav::Down));
    assert_eq!(nav_de_tecla("ArrowUp"), Some(Nav::Up));
    assert_eq!(nav_de_tecla("Escape"), Some(Nav::Esc));
    assert_eq!(nav_de_tecla("Enter"), Some(Nav::Enter));
    assert_eq!(nav_de_tecla("a"), None);
    assert_eq!(nav_de_tecla("enter"), None);
    assert_eq!(nav_de_tecla(""), None);
}

#[test]
fn seleccion_al_buscar() {
    assert_eq!(seleccion_inicial(0), None);
    assert_eq!(seleccion_inicial(5), Some(0));
}

#[test]
fn navegar_la_lista_de_resultados() {
    let paso = navegar(Some(0), 3, Nav::Down);
    assert_eq!((paso.actual, paso.agregar), (Some(1), None));
    let paso = navegar(paso.actual, 3, Nav::Down);
    assert_eq!(paso.actual, Some(2));
    let paso = navegar(paso.actual, 3, Nav::Down);
    assert_eq!(paso.actual, Some(2));
    let paso = navegar(paso.actual, 3, Nav::Up);
    assert_eq!(paso.actual, Some(1));
    let paso = navegar(Some(0), 3, Nav::Up);
    assert_eq!(paso.actual, Some(0));
    let paso = navegar(Some(1), 3, Nav::Enter);
    assert_eq!((paso.actual, paso.agregar), (Some(1), Some(1)));
    let paso = navegar(Some(1), 3, Nav::Esc);
    assert_eq!((paso.actual, paso.agregar), (Some(1), None));
    let paso = navegar(Some(1), 3, Nav::Nada);
    assert_eq!((paso.actual, paso.agregar), (Some(1), None));
    let paso = navegar(None, 0, Nav::Enter);
    assert_eq!((paso.actual, paso.agregar), (None, None));
}

#[test]
fn bajar_y_subir_vuelve() {
    let abajo = navegar(Some(3), 10, Nav::Down).actual;
    assert_eq!(navegar(abajo, 10, Nav::Up).actual, Some(3));
}

#[test]
fn codigos_del_formulario() {
    let mut codigos: Vec<i64> = Vec::new();
    agregar_codigo(&mut codigos, "779123");
    agregar_codigo(&mut codigos, "");
    agregar_codigo(&mut codigos, "-5");
    assert_eq!(codigos, vec![779123, -5]);
    agregar_codigo(&mut codigos, "779123");
    assert_eq!(codigos, vec![779123, -5, 779123]);
    borrar_codigo(&mut codigos, 779123);
    assert_eq!(codigos, vec![-5, 779123]);
    borrar_codigo(&mut codigos, 779123);
    assert_eq!(codigos, vec![-5]);
}

fn ids(v: &[Proveedor]) -> Vec<i32> {
    v.iter().map(|p| p.id).collect()
}

#[test]
fn proveedores_del_formulario() {
    let mut opciones = vec![
        Proveedor::new(1, "Arcor".to_string(), None),
        Proveedor::new(2, "Coto".to_string(), Some(5)),
        Proveedor::new(3, "Dia".to_string(), None),
    ];
    let mut elegidos: Vec<Proveedor> = Vec::new();
    elegir_proveedor(&mut opciones, &mut elegidos, 2, "44");
    assert_eq!(ids(&opciones), vec![1, 3]);
    assert_eq!(ids(&elegidos), vec![2]);
    assert_eq!(elegidos[0].contacto, Some(44));
    assert_eq!(elegidos[0].nombre, "Coto");
    elegir_proveedor(&mut opciones, &mut elegidos, 1, "");
    assert_eq!(elegidos[1].contacto, None);
    assert_eq!(ids(&opciones), vec![3]);
    devolver_proveedor(&mut elegidos, &mut opciones, 2);
    assert_eq!(ids(&elegidos), vec![1]);
    assert_eq!(ids(&opciones), vec![3, 2]);
    assert_eq!(opciones[1].contacto, Some(44));
}

#[test]
fn elegir_y_devolver_conserva_los_proveedores() {
    let mut opciones = vec![
        Proveedor::new(4, "A".to_string(), None),
        Proveedor::new(5, "B".to_string(), None),
    ];
    let mut elegidos = vec![Proveedor::new(9, "C".to_string(), Some(1))];
    elegir_proveedor(&mut opciones, &mut elegidos, 4, "7");
    devolver_proveedor(&mut elegidos, &mut opciones, 4);
    assert_eq!(ids(&elegidos), vec![9]);
    let mut todos = ids(&opciones);
    todos.sort();
    assert_eq!(todos, vec![4, 5]);
    assert_eq!(opciones[1].contacto, Some(7));
}
