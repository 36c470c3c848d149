//! A playlist: a named list of songs that can be appended, pruned, reordered
//! and searched by title, artist or genre. Songs compare by their contents, so
//! equality is written by hand over the string views.

use vstd::prelude::*;

verus! {

broadcast use vstd::seq_lib::group_filter_ensures;

#[derive(Debug, PartialEq, Eq, Structural, Clone, Copy)]
pub enum Genero {
    Rock,
    Pop,
    Jazz,
    Otros,
}

#[derive(Debug)]
pub struct Cancion {
    pub titulo: String,
    pub artista: String,
    pub genero: Genero,
}

/// The genre filter used by `obtener_canciones_genero`.
pub open spec fn filtro_genero(genero: Genero) -> spec_fn(Cancion) -> bool {
    |c: Cancion| c.genero == genero
}

/// The artist filter used by `obtener_canciones_artista`.
pub open spec fn filtro_artista(artista: Seq<char>) -> spec_fn(Cancion) -> bool {
    |c: Cancion| c.artista@ == artista
}

/// Two songs hold the same data.
pub open spec fn cancion_igual(a: Cancion, b: Cancion) -> bool {
    a.titulo@ == b.titulo@ && a.artista@ == b.artista@ && a.genero == b.genero
}

impl PartialEq for Cancion {
    fn eq(&self, o: &Cancion) -> (r: bool) {
        self.titulo == o.titulo && self.artista == o.artista && self.genero == o.genero
    }
}

impl vstd::std_specs::cmp::PartialEqSpecImpl for Cancion {
    open spec fn obeys_eq_spec() -> bool {
        true
    }

    open spec fn eq_spec(&self, o: &Cancion) -> bool {
        cancion_igual(*self, *o)
    }
}

impl Clone for Cancion {
    /// A copy that provably holds the very same data.
    fn clone(&self) -> (r: Cancion)
        ensures
            r == *self,
    {
        Cancion {
            titulo: self.titulo.clone(),
            artista: self.artista.clone(),
            genero: self.genero,
        }
    }
}

impl Cancion {
    pub fn new(titulo: String, artista: String, genero: Genero) -> (c: Cancion)
        ensures
            c == (Cancion { titulo, artista, genero }),
    {
        Cancion { titulo, artista, genero }
    }
}

pub struct Playlist {
    pub nombre: String,
    pub canciones: Vec<Cancion>,
}

impl Playlist {
    pub fn new(nombre: String) -> (p: Playlist)
        ensures
            p.nombre == nombre,
            p.canciones@ == Seq::<Cancion>::empty(),
    {
        Playlist { nombre, canciones: Vec::new() }
    }

    pub fn agregar_cancion(&mut self, cancion: Cancion)
        ensures
            final(self).canciones@ == old(self).canciones@.push(cancion),
            final(self).nombre == old(self).nombre,
    {
        self.canciones.push(cancion);
    }

    /// Removes the last song whose data equals `cancion`, if one exists.
    pub fn eliminar_cancion(&mut self, cancion: &Cancion)
        ensures
            (exists|i: int|
                0 <= i < old(self).canciones@.len() && cancion_igual(
                    old(self).canciones@[i],
                    *cancion,
                )) ==> (exists|i: int|
                {
                    &&& 0 <= i < old(self).canciones@.len()
                    &&& cancion_igual(old(self).canciones@[i], *cancion)
                    &&& forall|j: int|
                        i < j < old(self).canciones@.len() ==> !cancion_igual(
                            old(self).canciones@[j],
                            *cancion,
                        )
                    &&& final(self).canciones@ == old(self).canciones@.remove(i)
                }),
            (forall|i: int|
                0 <= i < old(self).canciones@.len() ==> !cancion_igual(
                    old(self).canciones@[i],
                    *cancion,
                )) ==> final(self).canciones@ == old(self).canciones@,
            final(self).nombre == old(self).nombre,
    {
        let mut index: Option<usize> = None;
        let mut i: usize = 0;
        while i < self.canciones.len()
            invariant
                i <= self.canciones.len(),
                self.canciones@ == old(self).canciones@,
                self.nombre == old(self).nombre,
                match index {
                    Some(k) => {
                        &&& k < i
                        &&& cancion_igual(self.canciones@[k as int], *cancion)
                        &&& forall|j: int|
                            k < j < i ==> !cancion_igual(self.canciones@[j], *cancion)
                    },
                    None => forall|j: int| 0 <= j < i ==> !cancion_igual(self.canciones@[j], *cancion),
                },
            decreases self.canciones.len() - i,
        {
            if self.canciones[i] == *cancion {
                index = Some(i);
            }
            i = i + 1;
        }
        if let Some(k) = index {
            self.canciones.remove(k);
        }
    }

    /// Swaps the last song whose data equals `cancion` into position `pos - 1`
    /// (positions count from 1). A `pos` past one beyond the end is ignored;
    /// the precondition is only what the machine forces, that `pos` is not 0
    /// and that a found song is not swapped one past the end.
    pub fn mover_cancion(&mut self, cancion: &Cancion, pos: usize)
        requires
            pos >= 1,
            pos - 1 == old(self).canciones@.len() ==> forall|i: int|
                0 <= i < old(self).canciones@.len() ==> !cancion_igual(
                    old(self).canciones@[i],
                    *cancion,
                ),
        ensures
            (exists|i: int|
                0 <= i < old(self).canciones@.len() && cancion_igual(
                    old(self).canciones@[i],
                    *cancion,
                )) && pos - 1 <= old(self).canciones@.len() ==> (exists|i: int|
                {
                    &&& 0 <= i < old(self).canciones@.len()
                    &&& cancion_igual(old(self).canciones@[i], *cancion)
                    &&& forall|j: int|
                        i < j < old(self).canciones@.len() ==> !cancion_igual(
                            old(self).canciones@[j],
                            *cancion,
                        )
                    &&& final(self).canciones@ == old(self).canciones@.update(
                        i,
                        old(self).canciones@[pos - 1],
                    ).update(pos - 1, old(self).canciones@[i])
                }),
            (forall|i: int|
                0 <= i < old(self).canciones@.len() ==> !cancion_igual(
                    old(self).canciones@[i],
                    *cancion,
                )) || pos - 1 > old(self).canciones@.len() ==> final(self).canciones@ == old(
                self,
            ).canciones@,
            final(self).nombre == old(self).nombre,
    {
        if pos - 1 > self.canciones.len() {
            return ;
        }
        let mut index: Option<usize> = None;
        let mut i: usize = 0;
        while i < self.canciones.len()
            invariant
                i <= self.canciones.len(),
                self.canciones@ == old(self).canciones@,
                self.nombre == old(self).nombre,
                match index {
                    Some(k) => {
                        &&& k < i
                        &&& cancion_igual(self.canciones@[k as int], *cancion)
                        &&& forall|j: int|
                            k < j < i ==> !cancion_igual(self.canciones@[j], *cancion)
                    },
                    None => forall|j: int| 0 <= j < i ==> !cancion_igual(self.canciones@[j], *cancion),
                },
            decreases self.canciones.len() - i,
        {
            if self.canciones[i] == *cancion {
                index = Some(i);
            }
            i = i + 1;
        }
        if let Some(k) = index {
            let destino: usize = pos - 1;
            let a = self.canciones[k].clone();
            let b = self.canciones[destino].clone();
            self.canciones[k] = b;
            self.canciones[destino] = a;
        }
    }

    /// Finds the first song with the given title and hands back a copy of it.
    pub fn buscar_cancion_nombre(&self, nombre: String) -> (r: Option<Cancion>)
        ensures
            match r {
                Some(c) => exists|i: int|
                    {
                        &&& 0 <= i < self.canciones@.len()
                        &&& c == self.canciones@[i]
                        &&& self.canciones@[i].titulo@ == nombre@
                        &&& forall|j: int| 0 <= j < i ==> self.canciones@[j].titulo@ != nombre@
                    },
                None => forall|j: int|
                    0 <= j < self.canciones@.len() ==> self.canciones@[j].titulo@ != nombre@,
            },
    {
        let mut i: usize = 0;
        while i < self.canciones.len()
            invariant
                i <= self.canciones.len(),
                forall|j: int| 0 <= j < i ==> self.canciones@[j].titulo@ != nombre@,
            decreases self.canciones.len() - i,
        {
            if self.canciones[i].titulo == nombre {
                return Some(self.canciones[i].clone());
            }
            i = i + 1;
        }
        None
    }

    /// Copies of every song of the given genre, in playlist order.
    pub fn obtener_canciones_genero(&self, genero: Genero) -> (r: Vec<Cancion>)
        ensures
            r@ == self.canciones@.filter(filtro_genero(genero)),
    {
        let mut canciones: Vec<Cancion> = Vec::new();
        let mut i: usize = 0;
        while i < self.canciones.len()
            invariant
                i <= self.canciones.len(),
                canciones@ == self.canciones@.take(i as int).filter(filtro_genero(genero)),
            decreases self.canciones.len() - i,
        {
            proof {
                self.canciones@.lemma_take_succ_push(i as int);
                self.canciones@.take(i as int).lemma_filter_push(
                    self.canciones@[i as int],
                    filtro_genero(genero),
                );
            }
            if self.canciones[i].genero == genero {
                canciones.push(self.canciones[i].clone());
            }
            i = i + 1;
        }
        proof {
            self.canciones@.lemma_take_len();
        }
        canciones
    }

    /// Copies of every song by the given artist, in playlist order.
    pub fn obtener_canciones_artista(&self, artista: String) -> (r: Vec<Cancion>)
        ensures
            r@ == self.canciones@.filter(filtro_artista(artista@)),
    {
        let mut canciones: Vec<Cancion> = Vec::new();
        let mut i: usize = 0;
        while i < self.canciones.len()
            invariant
                i <= self.canciones.len(),
                canciones@ == self.canciones@.take(i as int).filter(filtro_artista(artista@)),
            decreases self.canciones.len() - i,
        {
            proof {
                self.canciones@.lemma_take_succ_push(i as int);
                self.canciones@.take(i as int).lemma_filter_push(
                    self.canciones@[i as int],
                    filtro_artista(artista@),
                );
            }
            if self.canciones[i].artista == artista {
                canciones.push(self.canciones[i].clone());
            }
            i = i + 1;
        }
        proof {
            self.canciones@.lemma_take_len();
        }
        canciones
    }

    /// Renames the playlist.
    pub fn modificar_titulo(&mut self, titulo: String)
        ensures
            final(self).nombre == titulo,
            final(self).canciones == old(self).canciones,
    {
        self.nombre = titulo;
    }

    /// Empties the playlist.
    pub fn eliminar_canciones(&mut self)
        ensures
            final(self).canciones@ == Seq::<Cancion>::empty(),
            final(self).nombre == old(self).nombre,
    {
        self.canciones = Vec::new();
    }
}

} // verus!
