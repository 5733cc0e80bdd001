use punto_venta::proveedor::Proveedor;
use punto_venta::vista::proveedor::Proveedor as ProveedorVista;

#[test]
fn proveedor_y_sus_datos() {
    let p = Proveedor::build(4, "Arcor", Some(1155443322));
    assert_eq!(*p.id(), 4);
    assert_eq!(p.nombre(), "Arcor");
    assert_eq!(*p.contacto(), Some(1155443322));
}

#[test]
fn texto_de_proveedor() {
    assert_eq!(Proveedor::build(1, "Arcor", Some(1155)).texto(), "Arcor 1155");
    assert_eq!(Proveedor::build(2, "Molinos", None).texto(), "Molinos");
    assert_eq!(Proveedor::build(3, "X", Some(-7)).texto(), "X -7");
}

#[test]
fn proveedor_compartido_ida_y_vuelta() {
    for contacto in [None, Some(0), Some(1155443322), Some(i64::MIN)] {
        let p = Proveedor::build(9, "Quilmes", contacto);
        let sh = p.to_shared_complete();
        assert_eq!(sh.id, 9);
        assert_eq!(sh.nombre, "Quilmes");
        assert_eq!(sh.contacto, contacto.map(|c| c.to_be_bytes()));
        let q = Proveedor::from_shared_complete(sh);
        assert_eq!(*q.id(), 9);
        assert_eq!(q.nombre(), "Quilmes");
        assert_eq!(*q.contacto(), contacto);
    }
}

#[test]
fn proveedor_de_la_vista_ida_y_vuelta() {
    let p = ProveedorVista::new(2, "La Serenísima".to_string(), Some(48001234));
    assert_eq!(p.id, 2);
    let sh = p.to_shared();
    assert_eq!(sh.contacto, Some(48001234i64.to_be_bytes()));
    let q = ProveedorVista::from_shared(sh);
    assert_eq!(q.id, 2);
    assert_eq!(q.nombre, "La Serenísima");
    assert_eq!(q.contacto, Some(48001234));
    let r = ProveedorVista::from_shared(ProveedorVista::new(5, "Y".to_string(), None).to_shared());
    assert_eq!(r.contacto, None);
}
