use practicas::ventas::Cliente;
use practicas::ventas::InfoPersona;
use practicas::ventas::Vendedor;

#[test]
fn ventas_test_cliente_new() {
    let info = InfoPersona::new(
        String::from("John"),
        String::from("Doe"),
        String::from("123 Main St"),
        String::from("12345678"),
    );
    let cliente = Cliente::new(info.clone(), Some(String::from("john.doe@example.com")));
    assert_eq!(cliente.info, info);
    assert_eq!(cliente.news_letter, Some(String::from("john.doe@example.com")));
}

#[test]
fn test_vendedor_new() {
    let info = InfoPersona::new(
        String::from("John"),
        String::from("Doe"),
        String::from("123 Main St"),
        String::from("12345678"),
    );
    let vendedor = Vendedor::new(info.clone(), String::from("1234"), 5, 50000);
    assert_eq!(vendedor.info, info);
    assert_eq!(vendedor.legajo, "1234");
    assert_eq!(vendedor.antiguedad, 5);
    assert_eq!(vendedor.salario, 50000);
}

#[test]
fn test_info_persona_new() {
    let info = InfoPersona::new(
        String::from("John"),
        String::from("Doe"),
        String::from("123 Main St"),
        String::from("12345678"),
    );
    assert_eq!(info.nombre, "John");
    assert_eq!(info.apellido, "Doe");
    assert_eq!(info.direccion, "123 Main St");
    assert_eq!(info.dni, "12345678");
}
