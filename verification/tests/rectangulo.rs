use practicas::rectangulo::Rectangulo;

#[test]
fn rectangulo_test_new() {
    let rectangulo = Rectangulo { longitud: 20, ancho: 32 };

    assert_eq!(20, rectangulo.longitud);
    assert_eq!(32, rectangulo.ancho);
}

#[test]
fn rectangulo_test_calcular_area() {
    let rectangulo = Rectangulo { longitud: 22, ancho: 35 };

    assert_eq!(770, rectangulo.calcular_area());
}

#[test]
fn rectangulo_test_calcular_perimetro() {
    let rectangulo = Rectangulo { longitud: 22, ancho: 35 };

    assert_eq!(114, rectangulo.calcular_perimetro());
}

#[test]
fn test_es_cuadrado() {
    let cuadrado = Rectangulo { longitud: 10, ancho: 10 };

    let rectangulo = Rectangulo { longitud: 22, ancho: 35 };

    assert_eq!(true, cuadrado.es_cuadrado());
    assert_ne!(true, rectangulo.es_cuadrado());
}
