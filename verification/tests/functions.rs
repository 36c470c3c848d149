use practicas::functions::cantidad_de_mayores;
use practicas::functions::cantidad_en_rango;
use practicas::functions::cantidad_impares;
use practicas::functions::es_par;
use practicas::functions::es_primo;
use practicas::functions::longitud_de_cadenas;
use practicas::functions::suma_pares;

#[test]
fn test_es_par() {
    assert_eq!(true, es_par(4));
    assert_ne!(true, es_par(5));
}

#[test]
fn functions_test_es_primo() {
    assert_eq!(true, es_primo(7));
    assert_ne!(true, es_primo(4));
}

#[test]
fn test_suma_pares() {
    assert_eq!(16, suma_pares([1, 2, 3, 6, 8]));
}

#[test]
fn test_cantidad_impares() {
    assert_eq!(3, cantidad_impares([1, 2, 3, 4, 5]));
}

#[test]
fn test_longitud_de_cadenas() {
    let strings = [
        String::from("123"),
        String::from("1234"),
        String::from("12345"),
        String::from("123456"),
        String::from("1234567"),
    ];

    assert_eq!([3, 4, 5, 6, 7], longitud_de_cadenas(strings));
}

#[test]
fn test_cantidad_de_mayores() {
    assert_eq!(3, cantidad_de_mayores([5, 2, 1, 10, 15], 2));
}

#[test]
fn test_cantidad_en_rango() {
    let arr = [1, 2, 3, 4, 5];
    assert_eq!(3, cantidad_en_rango(arr, 3, 5));
}

#[test]
fn test_es_par_negativos() {
    assert_eq!(true, es_par(-4));
    assert_eq!(false, es_par(-3));
    assert_eq!(true, es_par(0));
}
