use practicas::fecha::Fecha;
use practicas::veterinaria::Animal;
use practicas::veterinaria::Atencion;
use practicas::veterinaria::Duenio;
use practicas::veterinaria::Mascota;
use practicas::veterinaria::Veterinaria;

#[test]
fn test_duenio_new() {
    let d = Duenio::new(String::from("Test1"), String::from("Test2"), String::from("Test3"));

    assert_eq!(String::from("Test1"), d.nombre);
    assert_eq!(String::from("Test2"), d.direccion);
    assert_eq!(String::from("Test3"), d.telefono);
}

#[test]
fn test_mascota_new() {
    let d = Duenio::new(String::from("Test1"), String::from("Test2"), String::from("Test3"));
    let m = Mascota::new(String::from("Test4"), 4, Animal::Perro, d);

    assert_eq!(String::from("Test4"), m.nombre);
    assert_eq!(4, m.edad);
    assert_eq!(Animal::Perro, m.tipo);
    assert_eq!(String::from("Test1"), m.duenio.nombre);
}

#[test]
fn test_atencion_new() {
    let d = Duenio::new(String::from("Test1"), String::from("Test2"), String::from("Test3"));
    let m = Mascota::new(String::from("Test4"), 4, Animal::Perro, d);

    let a = Atencion::new(m, String::from("Test5"), String::from("Test6"), None);
    assert_eq!(String::from("Test4"), a.mascota.nombre);
    assert_eq!(String::from("Test5"), a.diagnostico);
    assert_eq!(String::from("Test6"), a.tratamiento);
}

#[test]
fn test_veterinaria_new() {
    let v = Veterinaria::new(String::from("Test1"), String::from("Test2"), 5);

    assert_eq!(String::from("Test1"), v.nombre);
    assert_eq!(String::from("Test2"), v.direccion);
    assert_eq!(5, v.id);
}

#[test]
fn test_veterinaria_agregar_cola() {
    let mut v = Veterinaria::new(String::from("Test1"), String::from("Test2"), 5);

    let d = Duenio::new(String::from("Test1"), String::from("Test2"), String::from("Test3"));
    let m = Mascota::new(String::from("Test4"), 4, Animal::Perro, d);

    assert_eq!(true, v.cola.is_empty());

    v.agregar_cola(m);

    assert_eq!(String::from("Test4"), v.cola[0].nombre);
}

#[test]
fn test_veterinaria_agregar_cola_prioridad() {
    let mut v = Veterinaria::new(String::from("Test1"), String::from("Test2"), 5);

    let d = Duenio::new(String::from("Test1"), String::from("Test2"), String::from("Test3"));
    let d1 = Duenio::new(String::from("Test2"), String::from("Test3"), String::from("Test4"));
    let m = Mascota::new(String::from("Test4"), 4, Animal::Perro, d);
    let m1 = Mascota::new(String::from("Test5"), 8, Animal::Gato, d1);

    v.agregar_cola(m);
    v.agregar_cola_prioridad(m1);

    assert_eq!(String::from("Test5"), v.cola[0].nombre);
}

#[test]
fn test_veterinaria_atender_prox() {
    let mut v = Veterinaria::new(String::from("Test1"), String::from("Test2"), 5);

    let d = Duenio::new(String::from("Test1"), String::from("Test2"), String::from("Test3"));
    let d1 = Duenio::new(String::from("Test2"), String::from("Test3"), String::from("Test4"));
    let m = Mascota::new(String::from("Test4"), 4, Animal::Perro, d);
    let m1 = Mascota::new(String::from("Test5"), 8, Animal::Gato, d1);

    v.agregar_cola(m);
    v.agregar_cola_prioridad(m1);

    let m2 = v.atender_prox();
    assert_eq!(String::from("Test5"), m2.unwrap().nombre);
    assert_eq!(1, v.cola.len());
}

#[test]
fn test_veterinaria_eliminar() {
    let mut v = Veterinaria::new(String::from("Test1"), String::from("Test2"), 5);

    let d = Duenio::new(String::from("Test1"), String::from("Test2"), String::from("Test3"));
    let d1 = Duenio::new(String::from("Test2"), String::from("Test3"), String::from("Test4"));
    let m = Mascota::new(String::from("Test4"), 4, Animal::Perro, d);
    let m1 = Mascota::new(String::from("Test5"), 8, Animal::Gato, d1.clone());

    v.agregar_cola(m);
    v.agregar_cola_prioridad(m1.clone());

    v.eliminar(&m1);

    assert_eq!(String::from("Test4"), v.cola[0].nombre);
}

#[test]
fn test_veterinaria_buscar_atencion() {
    let mut v = Veterinaria::new(String::from("Test1"), String::from("Test2"), 5);

    let d = Duenio::new(String::from("Test1"), String::from("Test2"), String::from("Test3"));
    let d1 = Duenio::new(String::from("Test2"), String::from("Test3"), String::from("Test4"));
    let m = Mascota::new(String::from("Test4"), 4, Animal::Perro, d);
    let m1 = Mascota::new(String::from("Test5"), 8, Animal::Gato, d1.clone());

    v.registrar_atencion(m, String::from("Test6"), String::from("Test7"), None);
    v.registrar_atencion(m1, String::from("Test8"), String::from("Test9"), Some(Fecha::new(20, 7, 2024)));

    assert_eq!(
        String::from("Test6"),
        v.buscar_atencion("Test4", "Test1", "Test3").unwrap().diagnostico
    );
    assert_eq!(None, v.buscar_atencion("Test200", "Test100", "Test23"));
}

#[test]
fn test_veterinaria_modificar_diagnostico() {
    let mut v = Veterinaria::new(String::from("Test1"), String::from("Test2"), 5);

    let d = Duenio::new(String::from("Test1"), String::from("Test2"), String::from("Test3"));
    let m = Mascota::new(String::from("Test4"), 4, Animal::Perro, d);

    v.registrar_atencion(m, String::from("Test6"), String::from("Test7"), None);

    v.modificar_diagnostico(&v.atenciones_realizadas[0].clone(), &String::from("Diagnostico"));
    assert_eq!(
        String::from("Diagnostico"),
        v.buscar_atencion("Test4", "Test1", "Test3").unwrap().diagnostico
    );
}

#[test]
fn test_veterinaria_modificar_fecha() {
    let mut v = Veterinaria::new(String::from("Test1"), String::from("Test2"), 5);

    let d = Duenio::new(String::from("Test1"), String::from("Test2"), String::from("Test3"));
    let m = Mascota::new(String::from("Test4"), 4, Animal::Perro, d);

    v.registrar_atencion(m, String::from("Test6"), String::from("Test7"), None);

    v.modificar_fecha(&v.atenciones_realizadas[0].clone(), Some(Fecha::new(10, 6, 2024)));
    assert_eq!(
        10,
        v.buscar_atencion("Test4", "Test1", "Test3").unwrap().visita.as_ref().unwrap().dia
    );
}

#[test]
fn test_veterinaria_eliminar_atencion() {
    let mut v = Veterinaria::new(String::from("Test1"), String::from("Test2"), 5);

    let d = Duenio::new(String::from("Test1"), String::from("Test2"), String::from("Test3"));
    let m = Mascota::new(String::from("Test4"), 4, Animal::Perro, d);

    v.registrar_atencion(m, String::from("Test6"), String::from("Test7"), None);
    assert_eq!(1, v.atenciones_realizadas.len());

    v.eliminar_atencion(&v.atenciones_realizadas[0].clone());
    assert_eq!(0, v.atenciones_realizadas.len());
}

#[test]
fn test_veterinaria_atender_prox_vacia() {
    let mut v = Veterinaria::new(String::from("Test1"), String::from("Test2"), 5);
    assert_eq!(None, v.atender_prox());
}

#[test]
fn test_veterinaria_eliminar_ausente() {
    let mut v = Veterinaria::new(String::from("Test1"), String::from("Test2"), 5);
    let d = Duenio::new(String::from("Test1"), String::from("Test2"), String::from("Test3"));
    let m = Mascota::new(String::from("Test4"), 4, Animal::Perro, d.clone());
    let otra = Mascota::new(String::from("Otra"), 2, Animal::Gato, d);

    v.agregar_cola(m);
    assert_eq!(false, v.eliminar(&otra));
    assert_eq!(1, v.cola.len());
}
