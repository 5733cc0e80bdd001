use punto_venta::bytes::{a_bytes, desde_bytes, opcion_a_bytes, opcion_desde_bytes};
use punto_venta::producto::{codigos_a_bytes, codigos_desde_bytes};

#[test]
fn bytes_de_un_entero_positivo() {
    assert_eq!(a_bytes(0x0102_0304_0506_0708), [1, 2, 3, 4, 5, 6, 7, 8]);
    assert_eq!(a_bytes(7791234567890), 7791234567890i64.to_be_bytes());
}

#[test]
fn bytes_de_un_entero_negativo() {
    assert_eq!(a_bytes(-1), [0xff; 8]);
    assert_eq!(a_bytes(i64::MIN), [0x80, 0, 0, 0, 0, 0, 0, 0]);
}

#[test]
fn bytes_ida_y_vuelta() {
    for x in [0i64, 1, -1, 42, i64::MAX, i64::MIN, 7790895000997, -123456789] {
        assert_eq!(desde_bytes(a_bytes(x)), x);
        assert_eq!(desde_bytes(x.to_be_bytes()), x);
    }
}

#[test]
fn bytes_vuelta_e_ida() {
    let b = [0xde, 0xad, 0xbe, 0xef, 0, 1, 2, 3];
    assert_eq!(a_bytes(desde_bytes(b)), b);
}

#[test]
fn opcion_de_bytes() {
    assert_eq!(opcion_a_bytes(None), None);
    assert_eq!(opcion_desde_bytes(opcion_a_bytes(Some(1155443322))), Some(1155443322));
    assert_eq!(opcion_desde_bytes(None), None);
}

#[test]
fn codigos_ida_y_vuelta() {
    let c = [7790895000997, 0, -5];
    let b = codigos_a_bytes(&c);
    assert_eq!(b[0], 7790895000997i64.to_be_bytes());
    assert_eq!(codigos_desde_bytes(&b), c);
}
