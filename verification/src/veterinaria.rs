//! A veterinary clinic: a waiting queue of pets, served from the front with an
//! optional priority lane, and a log of past visits that can be searched,
//! edited and pruned. Pets and visit records compare by their contents, so
//! equality is written by hand over the string views.

use std::collections::VecDeque;
use vstd::prelude::*;
use crate::fecha::Fecha;

verus! {

#[derive(Debug, Clone)]
pub struct Duenio {
    pub nombre: String,
    pub direccion: String,
    pub telefono: String,
}

#[derive(Debug, PartialEq, Eq, Structural, Clone)]
pub enum Animal {
    Perro,
    Gato,
    Caballo,
    Otros,
}

#[derive(Debug, Clone)]
pub struct Mascota {
    pub nombre: String,
    pub edad: u8,
    pub tipo: Animal,
    pub duenio: Duenio,
}

#[derive(Debug, Clone)]
pub struct Atencion {
    pub mascota: Mascota,
    pub diagnostico: String,
    pub tratamiento: String,
    pub visita: Option<Fecha>,
}

/// Two owners hold the same data: the three strings agree character for
/// character.
pub open spec fn duenio_igual(a: Duenio, b: Duenio) -> bool {
    a.nombre@ == b.nombre@ && a.direccion@ == b.direccion@ && a.telefono@ == b.telefono@
}

/// Two pets hold the same data, owner included.
pub open spec fn mascota_igual(a: Mascota, b: Mascota) -> bool {
    a.nombre@ == b.nombre@ && a.edad == b.edad && a.tipo == b.tipo && duenio_igual(a.duenio, b.duenio)
}

/// Two optional visit dates agree.
pub open spec fn visita_igual(a: Option<Fecha>, b: Option<Fecha>) -> bool {
    match (a, b) {
        (Some(f), Some(g)) => f == g,
        (None, None) => true,
        _ => false,
    }
}

/// Two visit records hold the same data.
pub open spec fn atencion_igual(a: Atencion, b: Atencion) -> bool {
    mascota_igual(a.mascota, b.mascota) && a.diagnostico@ == b.diagnostico@ && a.tratamiento@
        == b.tratamiento@ && visita_igual(a.visita, b.visita)
}

/// The search key of `buscar_atencion`: pet name, owner name and owner phone.
pub open spec fn atencion_coincide(
    a: Atencion,
    nombre_mascota: Seq<char>,
    nombre_duenio: Seq<char>,
    telefono_duenio: Seq<char>,
) -> bool {
    a.mascota.nombre@ == nombre_mascota && a.mascota.duenio.nombre@ == nombre_duenio
        && a.mascota.duenio.telefono@ == telefono_duenio
}

impl PartialEq for Duenio {
    fn eq(&self, o: &Duenio) -> (r: bool) {
        self.nombre == o.nombre && self.direccion == o.direccion && self.telefono == o.telefono
    }
}

impl vstd::std_specs::cmp::PartialEqSpecImpl for Duenio {
    open spec fn obeys_eq_spec() -> bool {
        true
    }

    open spec fn eq_spec(&self, o: &Duenio) -> bool {
        duenio_igual(*self, *o)
    }
}

impl PartialEq for Mascota {
    fn eq(&self, o: &Mascota) -> (r: bool) {
        self.nombre == o.nombre && self.edad == o.edad && self.tipo == o.tipo && self.duenio
            == o.duenio
    }
}

impl vstd::std_specs::cmp::PartialEqSpecImpl for Mascota {
    open spec fn obeys_eq_spec() -> bool {
        true
    }

    open spec fn eq_spec(&self, o: &Mascota) -> bool {
        mascota_igual(*self, *o)
    }
}

impl PartialEq for Atencion {
    fn eq(&self, o: &Atencion) -> (r: bool) {
        self.mascota == o.mascota && self.diagnostico == o.diagnostico && self.tratamiento
            == o.tratamiento && (match (&self.visita, &o.visita) {
            (Some(f), Some(g)) => *f == *g,
            (None, None) => true,
            _ => false,
        })
    }
}

impl vstd::std_specs::cmp::PartialEqSpecImpl for Atencion {
    open spec fn obeys_eq_spec() -> bool {
        true
    }

    open spec fn eq_spec(&self, o: &Atencion) -> bool {
        atencion_igual(*self, *o)
    }
}

impl Duenio {
    pub fn new(nombre: String, direccion: String, telefono: String) -> (d: Duenio)
        ensures
            d == (Duenio { nombre, direccion, telefono }),
    {
        Duenio { nombre, direccion, telefono }
    }
}

impl Mascota {
    pub fn new(nombre: String, edad: u8, tipo: Animal, duenio: Duenio) -> (m: Mascota)
        ensures
            m == (Mascota { nombre, edad, tipo, duenio }),
    {
        Mascota { nombre, edad, tipo, duenio }
    }
}

impl Atencion {
    pub fn new(mascota: Mascota, diagnostico: String, tratamiento: String, visita: Option<Fecha>)
        -> (a: Atencion)
        ensures
            a == (Atencion { mascota, diagnostico, tratamiento, visita }),
    {
        Atencion { mascota, diagnostico, tratamiento, visita }
    }
}

pub struct Veterinaria {
    pub nombre: String,
    pub direccion: String,
    pub id: u32,
    pub cola: VecDeque<Mascota>,
    pub atenciones_realizadas: Vec<Atencion>,
}

pub struct Cadena {
    pub veterinarias: Vec<Veterinaria>,
}

impl Veterinaria {
    pub fn new(nombre: String, direccion: String, id: u32) -> (v: Veterinaria)
        ensures
            v.nombre == nombre,
            v.direccion == direccion,
            v.id == id,
            v.cola@ == Seq::<Mascota>::empty(),
            v.atenciones_realizadas@ == Seq::<Atencion>::empty(),
    {
        Veterinaria {
            nombre,
            direccion,
            id,
            cola: VecDeque::new(),
            atenciones_realizadas: Vec::new(),
        }
    }

    /// Joins the end of the queue.
    pub fn agregar_cola(&mut self, mascota: Mascota)
        ensures
            final(self).cola@ == old(self).cola@.push(mascota),
            final(self).nombre == old(self).nombre,
            final(self).direccion == old(self).direccion,
            final(self).id == old(self).id,
            final(self).atenciones_realizadas == old(self).atenciones_realizadas,
    {
        self.cola.push_back(mascota);
    }

    /// Jumps to the head of the queue.
    pub fn agregar_cola_prioridad(&mut self, mascota: Mascota)
        ensures
            final(self).cola@ == seq![mascota] + old(self).cola@,
            final(self).nombre == old(self).nombre,
            final(self).direccion == old(self).direccion,
            final(self).id == old(self).id,
            final(self).atenciones_realizadas == old(self).atenciones_realizadas,
    {
        self.cola.push_front(mascota);
    }

    /// Serves and removes the pet at the head of the queue, if any.
    pub fn atender_prox(&mut self) -> (r: Option<Mascota>)
        ensures
            match r {
                Some(m) => old(self).cola@.len() > 0 && m == old(self).cola@[0] && final(self).cola@
                    == old(self).cola@.subrange(1, old(self).cola@.len() as int),
                None => old(self).cola@.len() == 0 && final(self).cola@ == old(self).cola@,
            },
            final(self).nombre == old(self).nombre,
            final(self).direccion == old(self).direccion,
            final(self).id == old(self).id,
            final(self).atenciones_realizadas == old(self).atenciones_realizadas,
    {
        self.cola.pop_front()
    }

    /// Removes the last pet in the queue whose data equals `mascota`, telling
    /// whether one was found.
    pub fn eliminar(&mut self, mascota: &Mascota) -> (r: bool)
        ensures
            r == (exists|i: int|
                0 <= i < old(self).cola@.len() && mascota_igual(old(self).cola@[i], *mascota)),
            r ==> (exists|i: int|
                {
                    &&& 0 <= i < old(self).cola@.len()
                    &&& mascota_igual(old(self).cola@[i], *mascota)
                    &&& forall|j: int|
                        i < j < old(self).cola@.len() ==> !mascota_igual(
                            old(self).cola@[j],
                            *mascota,
                        )
                    &&& final(self).cola@ == old(self).cola@.remove(i)
                }),
            !r ==> final(self).cola@ == old(self).cola@,
            final(self).nombre == old(self).nombre,
            final(self).direccion == old(self).direccion,
            final(self).id == old(self).id,
            final(self).atenciones_realizadas == old(self).atenciones_realizadas,
    {
        let mut index: Option<usize> = None;
        let mut i: usize = 0;
        while i < self.cola.len()
            invariant
                i <= self.cola.len(),
                self.cola@ == old(self).cola@,
                self.nombre == old(self).nombre,
                self.direccion == old(self).direccion,
                self.id == old(self).id,
                self.atenciones_realizadas == old(self).atenciones_realizadas,
                match index {
                    Some(k) => {
                        &&& k < i
                        &&& mascota_igual(self.cola@[k as int], *mascota)
                        &&& forall|j: int|
                            k < j < i ==> !mascota_igual(self.cola@[j], *mascota)
                    },
                    None => forall|j: int| 0 <= j < i ==> !mascota_igual(self.cola@[j], *mascota),
                },
            decreases self.cola.len() - i,
        {
            if self.cola[i] == *mascota {
                index = Some(i);
            }
            i = i + 1;
        }
        if let Some(k) = index {
            self.cola.remove(k);
            true
        } else {
            false
        }
    }

    /// Appends a new visit record built from the given parts.
    pub fn registrar_atencion(
        &mut self,
        mascota: Mascota,
        diagnostico: String,
        tratamiento: String,
        prox_visita: Option<Fecha>,
    )
        ensures
            final(self).atenciones_realizadas@ == old(self).atenciones_realizadas@.push(
                Atencion { mascota, diagnostico, tratamiento, visita: prox_visita },
            ),
            final(self).nombre == old(self).nombre,
            final(self).direccion == old(self).direccion,
            final(self).id == old(self).id,
            final(self).cola == old(self).cola,
    {
        self.atenciones_realizadas.push(Atencion::new(mascota, diagnostico, tratamiento, prox_visita));
    }

    /// Finds the first visit record matching pet name, owner name and owner
    /// phone, if any.
    pub fn buscar_atencion(
        &self,
        nombre_mascota: &str,
        nombre_duenio: &str,
        telefono_duenio: &str,
    ) -> (r: Option<&Atencion>)
        ensures
            match r {
                Some(a) => exists|i: int|
                    {
                        &&& 0 <= i < self.atenciones_realizadas@.len()
                        &&& *a == self.atenciones_realizadas@[i]
                        &&& atencion_coincide(
                            self.atenciones_realizadas@[i],
                            nombre_mascota@,
                            nombre_duenio@,
                            telefono_duenio@,
                        )
                        &&& forall|j: int|
                            0 <= j < i ==> !atencion_coincide(
                                self.atenciones_realizadas@[j],
                                nombre_mascota@,
                                nombre_duenio@,
                                telefono_duenio@,
                            )
                    },
                None => forall|j: int|
                    0 <= j < self.atenciones_realizadas@.len() ==> !atencion_coincide(
                        self.atenciones_realizadas@[j],
                        nombre_mascota@,
                        nombre_duenio@,
                        telefono_duenio@,
                    ),
            },
    {
        let nm = nombre_mascota.to_owned();
        let nd = nombre_duenio.to_owned();
        let td = telefono_duenio.to_owned();
        let mut i: usize = 0;
        while i < self.atenciones_realizadas.len()
            invariant
                i <= self.atenciones_realizadas.len(),
                nm@ == nombre_mascota@,
                nd@ == nombre_duenio@,
                td@ == telefono_duenio@,
                forall|j: int|
                    0 <= j < i ==> !atencion_coincide(
                        self.atenciones_realizadas@[j],
                        nombre_mascota@,
                        nombre_duenio@,
                        telefono_duenio@,
                    ),
            decreases self.atenciones_realizadas.len() - i,
        {
            let a = &self.atenciones_realizadas[i];
            if a.mascota.nombre == nm && a.mascota.duenio.nombre == nd && a.mascota.duenio.telefono
                == td {
                return Some(a);
            }
            i = i + 1;
        }
        None
    }

    /// Rewrites the diagnosis of every record whose data equals `atencion`.
    pub fn modificar_diagnostico(&mut self, atencion: &Atencion, nuevo_diagnostico: &String)
        ensures
            final(self).atenciones_realizadas@.len() == old(self).atenciones_realizadas@.len(),
            forall|i: int|
                0 <= i < old(self).atenciones_realizadas@.len() ==> final(self).atenciones_realizadas@[i] == (if atencion_igual(
                    old(self).atenciones_realizadas@[i],
                    *atencion,
                ) {
                    Atencion {
                        mascota: old(self).atenciones_realizadas@[i].mascota,
                        diagnostico: *nuevo_diagnostico,
                        tratamiento: old(self).atenciones_realizadas@[i].tratamiento,
                        visita: old(self).atenciones_realizadas@[i].visita,
                    }
                } else {
                    old(self).atenciones_realizadas@[i]
                }),
            final(self).nombre == old(self).nombre,
            final(self).direccion == old(self).direccion,
            final(self).id == old(self).id,
            final(self).cola == old(self).cola,
    {
        let mut i: usize = 0;
        while i < self.atenciones_realizadas.len()
            invariant
                i <= self.atenciones_realizadas.len(),
                self.atenciones_realizadas@.len() == old(self).atenciones_realizadas@.len(),
                forall|j: int|
                    i <= j < old(self).atenciones_realizadas@.len() ==> self.atenciones_realizadas@[j]
                        == old(self).atenciones_realizadas@[j],
                forall|j: int|
                    0 <= j < i ==> self.atenciones_realizadas@[j] == (if atencion_igual(
                        old(self).atenciones_realizadas@[j],
                        *atencion,
                    ) {
                        Atencion {
                            mascota: old(self).atenciones_realizadas@[j].mascota,
                            diagnostico: *nuevo_diagnostico,
                            tratamiento: old(self).atenciones_realizadas@[j].tratamiento,
                            visita: old(self).atenciones_realizadas@[j].visita,
                        }
                    } else {
                        old(self).atenciones_realizadas@[j]
                    }),
                self.nombre == old(self).nombre,
                self.direccion == old(self).direccion,
                self.id == old(self).id,
                self.cola == old(self).cola,
            decreases self.atenciones_realizadas.len() - i,
        {
            if self.atenciones_realizadas[i] == *atencion {
                self.atenciones_realizadas[i].diagnostico = nuevo_diagnostico.clone();
            }
            i = i + 1;
        }
    }

    /// Rewrites the next-visit date of every record whose data equals
    /// `atencion`.
    pub fn modificar_fecha(&mut self, atencion: &Atencion, nueva_fecha: Option<Fecha>)
        ensures
            final(self).atenciones_realizadas@.len() == old(self).atenciones_realizadas@.len(),
            forall|i: int|
                0 <= i < old(self).atenciones_realizadas@.len() ==> final(self).atenciones_realizadas@[i] == (if atencion_igual(
                    old(self).atenciones_realizadas@[i],
                    *atencion,
                ) {
                    Atencion {
                        mascota: old(self).atenciones_realizadas@[i].mascota,
                        diagnostico: old(self).atenciones_realizadas@[i].diagnostico,
                        tratamiento: old(self).atenciones_realizadas@[i].tratamiento,
                        visita: nueva_fecha,
                    }
                } else {
                    old(self).atenciones_realizadas@[i]
                }),
            final(self).nombre == old(self).nombre,
            final(self).direccion == old(self).direccion,
            final(self).id == old(self).id,
            final(self).cola == old(self).cola,
    {
        let mut i: usize = 0;
        while i < self.atenciones_realizadas.len()
            invariant
                i <= self.atenciones_realizadas.len(),
                self.atenciones_realizadas@.len() == old(self).atenciones_realizadas@.len(),
                forall|j: int|
                    i <= j < old(self).atenciones_realizadas@.len() ==> self.atenciones_realizadas@[j]
                        == old(self).atenciones_realizadas@[j],
                forall|j: int|
                    0 <= j < i ==> self.atenciones_realizadas@[j] == (if atencion_igual(
                        old(self).atenciones_realizadas@[j],
                        *atencion,
                    ) {
                        Atencion {
                            mascota: old(self).atenciones_realizadas@[j].mascota,
                            diagnostico: old(self).atenciones_realizadas@[j].diagnostico,
                            tratamiento: old(self).atenciones_realizadas@[j].tratamiento,
                            visita: nueva_fecha,
                        }
                    } else {
                        old(self).atenciones_realizadas@[j]
                    }),
                self.nombre == old(self).nombre,
                self.direccion == old(self).direccion,
                self.id == old(self).id,
                self.cola == old(self).cola,
            decreases self.atenciones_realizadas.len() - i,
        {
            if self.atenciones_realizadas[i] == *atencion {
                self.atenciones_realizadas[i].visita = nueva_fecha;
            }
            i = i + 1;
        }
    }

    /// Removes the last record whose data equals `atencion`, if one exists.
    pub fn eliminar_atencion(&mut self, atencion: &Atencion)
        ensures
            (exists|i: int|
                0 <= i < old(self).atenciones_realizadas@.len() && atencion_igual(
                    old(self).atenciones_realizadas@[i],
                    *atencion,
                )) ==> (exists|i: int|
                {
                    &&& 0 <= i < old(self).atenciones_realizadas@.len()
                    &&& atencion_igual(old(self).atenciones_realizadas@[i], *atencion)
                    &&& forall|j: int|
                        i < j < old(self).atenciones_realizadas@.len() ==> !atencion_igual(
                            old(self).atenciones_realizadas@[j],
                            *atencion,
                        )
                    &&& final(self).atenciones_realizadas@ == old(
                        self,
                    ).atenciones_realizadas@.remove(i)
                }),
            (forall|i: int|
                0 <= i < old(self).atenciones_realizadas@.len() ==> !atencion_igual(
                    old(self).atenciones_realizadas@[i],
                    *atencion,
                )) ==> final(self).atenciones_realizadas@ == old(self).atenciones_realizadas@,
            final(self).nombre == old(self).nombre,
            final(self).direccion == old(self).direccion,
            final(self).id == old(self).id,
            final(self).cola == old(self).cola,
    {
        let mut index: Option<usize> = None;
        let mut i: usize = 0;
        while i < self.atenciones_realizadas.len()
            invariant
                i <= self.atenciones_realizadas.len(),
                self.atenciones_realizadas@ == old(self).atenciones_realizadas@,
                self.nombre == old(self).nombre,
                self.direccion == old(self).direccion,
                self.id == old(self).id,
                self.cola == old(self).cola,
                match index {
                    Some(k) => {
                        &&& k < i
                        &&& atencion_igual(self.atenciones_realizadas@[k as int], *atencion)
                        &&& forall|j: int|
                            k < j < i ==> !atencion_igual(self.atenciones_realizadas@[j], *atencion)
                    },
                    None => forall|j: int|
                        0 <= j < i ==> !atencion_igual(self.atenciones_realizadas@[j], *atencion),
                },
            decreases self.atenciones_realizadas.len() - i,
        {
            if self.atenciones_realizadas[i] == *atencion {
                index = Some(i);
            }
            i = i + 1;
        }
        if let Some(k) = index {
            self.atenciones_realizadas.remove(k);
        }
    }
}

impl Cadena {
    pub fn new() -> (c: Cadena)
        ensures
            c.veterinarias@ == Seq::<Veterinaria>::empty(),
    {
        Cadena { veterinarias: Vec::new() }
    }
}

} // verus!
