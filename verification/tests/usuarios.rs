use punto_venta::clave::get_hash;
use punto_venta::error::AppError;
use punto_venta::modelos::UserDB;
use punto_venta::sesion::resolver_login;
use punto_venta::user::{Rango, User, UserSHC};

#[test]
fn rango_por_nombre() {
    assert_eq!(Rango::Admin.texto(), "Admin");
    assert_eq!(Rango::Cajero.texto(), "Cajero");
    assert_eq!(Rango::desde_texto("Admin"), Some(Rango::Admin));
    assert_eq!(Rango::desde_texto("Cajero"), Some(Rango::Cajero));
    assert_eq!(Rango::desde_texto("admin"), None);
    for r in [Rango::Admin, Rango::Cajero] {
        assert_eq!(Rango::desde_texto(&r.texto()), Some(r));
    }
}

#[test]
fn usuario_y_sus_datos() {
    let u = User::build("admin".to_string(), "Admin".to_string(), 987654321, Rango::Admin);
    assert_eq!(u.id(), "admin");
    assert_eq!(u.nombre(), "Admin");
    assert_eq!(*u.pass(), 987654321);
    assert_eq!(*u.rango(), Rango::Admin);
    let sh = u.to_shared();
    assert_eq!(sh.id, "admin");
    assert_eq!(sh.nombre, "Admin");
    assert_eq!(sh.rango, Rango::Admin);
}

#[test]
fn usuario_compartido_ida_y_vuelta() {
    let u = User::build("caja2".to_string(), "María".to_string(), -42, Rango::Cajero);
    let c = u.to_shared_complete();
    assert_eq!(c.pass, (-42i64).to_be_bytes());
    let v = User::from_shared_complete(c);
    assert_eq!(v.id(), "caja2");
    assert_eq!(v.nombre(), "María");
    assert_eq!(*v.pass(), -42);
    assert_eq!(*v.rango(), Rango::Cajero);
}

#[test]
fn usuario_desde_bytes() {
    let c = UserSHC {
        id: "x".to_string(),
        nombre: "X".to_string(),
        pass: [0, 0, 0, 0, 0, 0, 1, 0],
        rango: Rango::Admin,
    };
    assert_eq!(*User::from_shared_complete(c).pass(), 256);
}

#[test]
fn hash_de_contrasenas() {
    assert_eq!(get_hash("1234"), get_hash("1234"));
    assert_ne!(get_hash("1234"), get_hash("9876"));
    assert_ne!(get_hash(""), get_hash("1234"));
    let mut h = std::collections::hash_map::DefaultHasher::new();
    std::hash::Hash::hash("1234", &mut h);
    assert_eq!(get_hash("1234"), std::hash::Hasher::finish(&h) as i64);
}

#[test]
fn login_sin_fila() {
    match resolver_login(None, true, 5) {
        Err(AppError::IncorrectError(m)) => assert_eq!(m, "Contraseña"),
        _ => panic!("se esperaba error de contraseña"),
    }
    match resolver_login(None, false, 5) {
        Err(AppError::IncorrectError(m)) => assert_eq!(m, "Usuario"),
        _ => panic!("se esperaba error de usuario"),
    }
}

#[test]
fn login_con_fila() {
    let fila = UserDB {
        id: 3,
        user_id: "lucas".to_string(),
        nombre: "Lucas".to_string(),
        pass: 111,
        rango: "Cajero".to_string(),
    };
    let u = resolver_login(Some(fila), true, 222).unwrap();
    assert_eq!(u.id(), "lucas");
    assert_eq!(u.nombre(), "Lucas");
    assert_eq!(*u.pass(), 222);
    assert_eq!(*u.rango(), Rango::Cajero);
}
