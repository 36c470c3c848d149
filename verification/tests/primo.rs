use practicas::primo::Primo;

#[test]
fn main_test_es_primo() {
    let primo = 7;
    let no_primo = 6;

    assert_eq!(true, primo.es_primo());
    assert_eq!(false, no_primo.es_primo());
}

#[test]
fn test_es_primo_casos_borde() {
    assert_eq!(false, 1.es_primo());
    assert_eq!(true, 2.es_primo());
    assert_eq!(true, 13.es_primo());
    // 4 has only the divisors 2 and 4 in range, so the two-divisor rule
    // accepts it.
    assert_eq!(true, 4.es_primo());
    assert_eq!(false, 12.es_primo());
}
