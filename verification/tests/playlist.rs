use practicas::playlist::Cancion;
use practicas::playlist::Genero;
use practicas::playlist::Playlist;

#[test]
fn test_cancion_new() {
    let c = Cancion::new(String::from("Test1"), String::from("Test2"), Genero::Otros);

    assert_eq!(String::from("Test1"), c.titulo);
    assert_eq!(String::from("Test2"), c.artista);
    assert_eq!(Genero::Otros, c.genero);
}

#[test]
fn test_playlist_new() {
    let p = Playlist::new(String::from("Test1"));

    assert_eq!(String::from("Test1"), p.nombre);
    assert_eq!(true, p.canciones.is_empty());
}

#[test]
fn test_playlist_agregar_cancion() {
    let mut p = Playlist::new(String::from("Test1"));
    let c = Cancion::new(String::from("Test2"), String::from("Test3"), Genero::Otros);

    assert_eq!(true, p.canciones.is_empty());
    p.agregar_cancion(c);

    assert_eq!(1, p.canciones.len());
    assert_eq!(String::from("Test2"), p.canciones[0].titulo);
}

#[test]
fn test_playlist_eliminar_cancion() {
    let mut p = Playlist::new(String::from("Test1"));
    let c = Cancion::new(String::from("Test2"), String::from("Test3"), Genero::Otros);
    p.agregar_cancion(Cancion::new(String::from("Test2"), String::from("Test3"), Genero::Otros));

    p.eliminar_cancion(&c);

    assert_eq!(true, p.canciones.is_empty());
}

#[test]
fn test_playlist_mover_cancion() {
    let mut p = Playlist::new(String::from("Test1"));
    let c = Cancion::new(String::from("Test2"), String::from("Test3"), Genero::Otros);
    p.agregar_cancion(Cancion::new(String::from("Test2"), String::from("Test3"), Genero::Otros));
    p.agregar_cancion(Cancion::new(String::from("Test4"), String::from("Test5"), Genero::Pop));

    p.mover_cancion(&c, 2);
    assert_eq!(c, p.canciones[1]);
    assert_ne!(c, p.canciones[0]);
}

#[test]
fn test_playlist_buscar_nombre() {
    let mut p = Playlist::new(String::from("Test1"));
    p.agregar_cancion(Cancion::new(String::from("Test2"), String::from("Test3"), Genero::Otros));
    p.agregar_cancion(Cancion::new(String::from("Test4"), String::from("Test5"), Genero::Rock));
    p.agregar_cancion(Cancion::new(String::from("Test6"), String::from("Test7"), Genero::Jazz));

    let c = p.buscar_cancion_nombre(String::from("Test6"));
    let c2 = p.buscar_cancion_nombre(String::from("No existe"));
    assert_eq!(p.canciones[2], c.unwrap());
    assert_eq!(None, c2);
}

#[test]
fn test_playlist_obtener_genero() {
    let mut p = Playlist::new(String::from("Test1"));
    p.agregar_cancion(Cancion::new(String::from("Test2"), String::from("Test3"), Genero::Jazz));
    p.agregar_cancion(Cancion::new(String::from("Test4"), String::from("Test5"), Genero::Rock));
    p.agregar_cancion(Cancion::new(String::from("Test6"), String::from("Test7"), Genero::Otros));
    p.agregar_cancion(Cancion::new(String::from("Test8"), String::from("Test9"), Genero::Rock));
    p.agregar_cancion(Cancion::new(String::from("Test10"), String::from("Test11"), Genero::Jazz));
    p.agregar_cancion(Cancion::new(String::from("Test12"), String::from("Test13"), Genero::Rock));

    let rock = p.obtener_canciones_genero(Genero::Rock);
    let pop = p.obtener_canciones_genero(Genero::Pop);
    assert_eq!(3, rock.len());
    assert_eq!(true, pop.is_empty());
}

#[test]
fn test_playlist_obtener_artista() {
    let mut p = Playlist::new(String::from("Test1"));
    p.agregar_cancion(Cancion::new(String::from("Test2"), String::from("Ana"), Genero::Jazz));
    p.agregar_cancion(Cancion::new(String::from("Test4"), String::from("Luis"), Genero::Rock));
    p.agregar_cancion(Cancion::new(String::from("Test6"), String::from("Ana"), Genero::Otros));

    let de_ana = p.obtener_canciones_artista(String::from("Ana"));
    assert_eq!(2, de_ana.len());
    assert_eq!(String::from("Test2"), de_ana[0].titulo);
    assert_eq!(String::from("Test6"), de_ana[1].titulo);
}

#[test]
fn test_playlist_modificar_titulo() {
    let mut p = Playlist::new(String::from("Test1"));

    p.modificar_titulo(String::from("Playlist musica"));

    assert_eq!(String::from("Playlist musica"), p.nombre);
}

#[test]
fn test_playlist_eliminar_canciones() {
    let mut p = Playlist::new(String::from("Test1"));
    p.agregar_cancion(Cancion::new(String::from("Test2"), String::from("Test3"), Genero::Jazz));
    p.agregar_cancion(Cancion::new(String::from("Test4"), String::from("Test5"), Genero::Rock));
    p.agregar_cancion(Cancion::new(String::from("Test6"), String::from("Test7"), Genero::Otros));
    p.agregar_cancion(Cancion::new(String::from("Test8"), String::from("Test9"), Genero::Rock));

    p.eliminar_canciones();
    assert_eq!(true, p.canciones.is_empty());
}

#[test]
fn test_playlist_eliminar_cancion_ausente() {
    let mut p = Playlist::new(String::from("Test1"));
    p.agregar_cancion(Cancion::new(String::from("Test2"), String::from("Test3"), Genero::Otros));
    let otra = Cancion::new(String::from("Nada"), String::from("Nadie"), Genero::Rock);

    p.eliminar_cancion(&otra);
    assert_eq!(1, p.canciones.len());
}
