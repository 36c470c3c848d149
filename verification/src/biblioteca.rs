//! A lending library: a stock of copies keyed by ISBN, and a log of loans with
//! due dates. Checking which loans are due compares dates against the current
//! day, which only the system clock can supply; the clock is read behind one
//! trusted wrapper, and every rule about its value is proved in functions that
//! take the date as an argument.

use std::collections::HashMap;
use vstd::prelude::*;
use crate::fecha::Fecha;
use crate::fecha::DiaMesAnio;
use crate::fecha::es_mayor_que;
use crate::fecha::lema_suma_definida_en_rango;
use chrono::Datelike;

verus! {

broadcast use {vstd::std_specs::hash::group_hash_axioms, vstd::seq_lib::group_filter_ensures};

#[derive(Debug, PartialEq, Eq, Structural, Clone, Copy)]
pub enum Genero {
    Novela,
    Infantil,
    Tecnico,
    Otros,
}

#[derive(Debug, PartialEq, Eq, Structural, Clone, Copy)]
pub enum Estado {
    Prestamo,
    Devuelto,
}

#[derive(Debug)]
pub struct Cliente {
    pub nombre: String,
    pub telefono: String,
    pub correo: String,
}

#[derive(Debug)]
pub struct Libro {
    pub isbn: u32,
    pub titulo: String,
    pub autor: String,
    pub paginas: u32,
    pub genero: Genero,
}

#[derive(Debug)]
pub struct Prestamo {
    pub libro: Libro,
    pub cliente: Cliente,
    pub vencimiento: Fecha,
    pub devolucion: Option<Fecha>,
    pub estado: Estado,
}

/// Two clients hold the same data.
pub open spec fn cliente_igual(a: Cliente, b: Cliente) -> bool {
    a.nombre@ == b.nombre@ && a.telefono@ == b.telefono@ && a.correo@ == b.correo@
}

/// Is `p` a live loan held by client `c`?
pub open spec fn prestamo_activo_de(p: Prestamo, c: Cliente) -> bool {
    cliente_igual(p.cliente, c) && p.estado == Estado::Prestamo
}

/// How many of the first `i` loans are live loans of client `c`.
pub open spec fn activos_hasta(s: Seq<Prestamo>, c: Cliente, i: int) -> int
    decreases i,
{
    if i <= 0 {
        0
    } else {
        activos_hasta(s, c, i - 1) + if prestamo_activo_de(s[i - 1], c) {
            1int
        } else {
            0int
        }
    }
}

/// The copies on stock for `isbn`: the stored count, or 0 for an unknown ISBN.
pub open spec fn copias_de(m: Map<u32, u32>, isbn: u32) -> u32 {
    if m.contains_key(isbn) {
        m[isbn]
    } else {
        0
    }
}

/// The loan log after returning to `c`: when the ISBN is on record
/// (`isbn_conocido`), every live loan of `c` is closed and stamped with the
/// return date `f`; otherwise the log is unchanged.
pub open spec fn tras_devolucion(s: Seq<Prestamo>, c: Cliente, isbn_conocido: bool, f: Fecha)
    -> Seq<Prestamo> {
    Seq::new(
        s.len(),
        |i: int|
            if prestamo_activo_de(s[i], c) && isbn_conocido {
                Prestamo {
                    libro: s[i].libro,
                    cliente: s[i].cliente,
                    vencimiento: s[i].vencimiento,
                    devolucion: Some(f),
                    estado: Estado::Devuelto,
                }
            } else {
                s[i]
            },
    )
}

/// The filter of `prestamos_a_vencer_desde`: loans whose due date the
/// reference date is on or after, an invalid due date counting as due.
pub open spec fn filtro_vencido(referencia: DiaMesAnio) -> spec_fn(Prestamo) -> bool {
    |p: Prestamo| es_mayor_que(referencia, p.vencimiento.vista())
}

impl PartialEq for Cliente {
    fn eq(&self, o: &Cliente) -> (r: bool) {
        self.nombre == o.nombre && self.telefono == o.telefono && self.correo == o.correo
    }
}

impl vstd::std_specs::cmp::PartialEqSpecImpl for Cliente {
    open spec fn obeys_eq_spec() -> bool {
        true
    }

    open spec fn eq_spec(&self, o: &Cliente) -> bool {
        cliente_igual(*self, *o)
    }
}

impl Clone for Cliente {
    /// A copy that provably holds the very same data.
    fn clone(&self) -> (r: Cliente)
        ensures
            r == *self,
    {
        Cliente {
            nombre: self.nombre.clone(),
            telefono: self.telefono.clone(),
            correo: self.correo.clone(),
        }
    }
}

impl Clone for Libro {
    /// A copy that provably holds the very same data.
    fn clone(&self) -> (r: Libro)
        ensures
            r == *self,
    {
        Libro {
            isbn: self.isbn,
            titulo: self.titulo.clone(),
            autor: self.autor.clone(),
            paginas: self.paginas,
            genero: self.genero,
        }
    }
}

impl Clone for Prestamo {
    /// A copy that provably holds the very same data.
    fn clone(&self) -> (r: Prestamo)
        ensures
            r == *self,
    {
        Prestamo {
            libro: self.libro.clone(),
            cliente: self.cliente.clone(),
            vencimiento: self.vencimiento,
            devolucion: self.devolucion,
            estado: self.estado,
        }
    }
}

impl Cliente {
    pub fn new(nombre: String, telefono: String, correo: String) -> (c: Cliente)
        ensures
            c == (Cliente { nombre, telefono, correo }),
    {
        Cliente { nombre, telefono, correo }
    }
}

impl Libro {
    pub fn new(isbn: u32, titulo: String, autor: String, paginas: u32, genero: Genero) -> (l: Libro)
        ensures
            l == (Libro { isbn, titulo, autor, paginas, genero }),
    {
        Libro { isbn, titulo, autor, paginas, genero }
    }
}

impl Prestamo {
    /// A fresh loan starts live and without a return date.
    pub fn new(libro: Libro, cliente: Cliente, vencimiento: Fecha, estado: Estado) -> (p: Prestamo)
        ensures
            p == (Prestamo { libro, cliente, vencimiento, devolucion: None, estado }),
    {
        Prestamo { libro, cliente, vencimiento, devolucion: None, estado }
    }
}

/// The current UTC date, read from the system clock.
///
/// Relies on chrono's `Utc::now` and the `Datelike` accessors `day`, `month`
/// and `year`: chrono documents `day` to lie in 1..=31 and `month` in 1..=12.
/// Nothing more can be promised of a clock reading; the year is whatever the
/// clock says, cast from `i32` to `u32` bit for bit.
#[verifier::external_body]
fn fecha_de_hoy() -> (f: Fecha)
    ensures
        1 <= f.dia <= 31,
        1 <= f.mes <= 12,
{
    let ahora = chrono::Utc::now();
    Fecha::new(ahora.day(), ahora.month(), ahora.year() as u32)
}

pub struct Biblioteca {
    pub nombre: String,
    pub direccion: String,
    pub disposicion: HashMap<u32, u32>,
    pub prestamos: Vec<Prestamo>,
}

impl Biblioteca {
    pub fn new(
        nombre: String,
        direccion: String,
        disposicion: HashMap<u32, u32>,
        prestamos: Vec<Prestamo>,
    ) -> (b: Biblioteca)
        ensures
            b.nombre == nombre,
            b.direccion == direccion,
            b.disposicion == disposicion,
            b.prestamos == prestamos,
    {
        Biblioteca { nombre, direccion, disposicion, prestamos }
    }

    /// The copies on stock for `isbn`; an unknown ISBN has none.
    pub fn cantidad_copias(&self, isbn: u32) -> (r: u32)
        ensures
            r == copias_de(self.disposicion@, isbn),
    {
        match self.disposicion.get(&isbn) {
            Some(value) => *value,
            None => 0,
        }
    }

    /// Takes one copy of `isbn` off the stock, unless the ISBN is unknown or
    /// already at zero.
    pub fn decrementar_copias(&mut self, isbn: u32)
        ensures
            final(self).disposicion@ == (if old(self).disposicion@.contains_key(isbn) && old(
                self,
            ).disposicion@[isbn] > 0 {
                old(self).disposicion@.insert(isbn, (old(self).disposicion@[isbn] - 1) as u32)
            } else {
                old(self).disposicion@
            }),
            final(self).nombre == old(self).nombre,
            final(self).direccion == old(self).direccion,
            final(self).prestamos == old(self).prestamos,
    {
        let actual = match self.disposicion.get(&isbn) {
            Some(value) => Some(*value),
            None => None,
        };
        match actual {
            Some(value) => {
                if value > 0 {
                    self.disposicion.insert(isbn, value - 1);
                }
            },
            None => (),
        }
    }

    /// Puts one more copy of `isbn` on the stock, unless the ISBN is unknown.
    /// The precondition is only what the machine forces: the count must fit.
    pub fn incrementar_copias(&mut self, isbn: u32)
        requires
            old(self).disposicion@.contains_key(isbn) ==> old(self).disposicion@[isbn] < u32::MAX,
        ensures
            final(self).disposicion@ == (if old(self).disposicion@.contains_key(isbn) {
                old(self).disposicion@.insert(isbn, (old(self).disposicion@[isbn] + 1) as u32)
            } else {
                old(self).disposicion@
            }),
            final(self).nombre == old(self).nombre,
            final(self).direccion == old(self).direccion,
            final(self).prestamos == old(self).prestamos,
    {
        let actual = match self.disposicion.get(&isbn) {
            Some(value) => Some(*value),
            None => None,
        };
        match actual {
            Some(value) => {
                self.disposicion.insert(isbn, value + 1);
            },
            None => (),
        }
    }

    /// How many live loans `cliente` holds.
    pub fn prestamos_cliente(&self, cliente: &Cliente) -> (r: u32)
        requires
            self.prestamos@.len() <= u32::MAX,
        ensures
            r == activos_hasta(self.prestamos@, *cliente, self.prestamos@.len() as int),
    {
        let mut total: u32 = 0;
        let mut i: usize = 0;
        while i < self.prestamos.len()
            invariant
                i <= self.prestamos@.len(),
                self.prestamos@.len() <= u32::MAX,
                total as int == activos_hasta(self.prestamos@, *cliente, i as int),
                total <= i,
            decreases self.prestamos@.len() - i,
        {
            let p = &self.prestamos[i];
            if p.cliente == *cliente && p.estado == Estado::Prestamo {
                total = total + 1;
            }
            i = i + 1;
        }
        total
    }

    /// Lends a copy of `libro` to `cliente` until `vencimiento`. The loan is
    /// made, and true returned, exactly when the client holds at most five
    /// live loans and a copy is on stock; the stock then drops by one.
    pub fn realizar_prestamo(&mut self, cliente: Cliente, libro: Libro, vencimiento: Fecha) -> (r:
        bool)
        requires
            old(self).prestamos@.len() < usize::MAX,
            old(self).prestamos@.len() <= u32::MAX,
        ensures
            r == (activos_hasta(old(self).prestamos@, cliente, old(self).prestamos@.len() as int)
                <= 5 && copias_de(old(self).disposicion@, libro.isbn) > 0),
            r ==> final(self).disposicion@ == old(self).disposicion@.insert(
                libro.isbn,
                (old(self).disposicion@[libro.isbn] - 1) as u32,
            ) && final(self).prestamos@ == old(self).prestamos@.push(
                Prestamo {
                    libro,
                    cliente,
                    vencimiento,
                    devolucion: None,
                    estado: Estado::Prestamo,
                },
            ),
            !r ==> final(self).disposicion@ == old(self).disposicion@ && final(self).prestamos@
                == old(self).prestamos@,
            final(self).nombre == old(self).nombre,
            final(self).direccion == old(self).direccion,
    {
        if self.prestamos_cliente(&cliente) > 5 || self.cantidad_copias(libro.isbn) == 0 {
            return false;
        }
        let copias: u32 = self.cantidad_copias(libro.isbn);
        self.disposicion.insert(libro.isbn, copias - 1);
        self.prestamos.push(Prestamo::new(libro, cliente, vencimiento, Estado::Prestamo));
        true
    }

    /// The loans whose due date `referencia` is on or after, in log order;
    /// an invalid due date counts as due. The caller supplies the reference
    /// date, so this rule is proved for every date.
    pub fn prestamos_a_vencer_desde(&self, referencia: Fecha) -> (r: Vec<Prestamo>)
        ensures
            r@ == self.prestamos@.filter(filtro_vencido(referencia.vista())),
    {
        let mut prestamos: Vec<Prestamo> = Vec::new();
        let mut i: usize = 0;
        while i < self.prestamos.len()
            invariant
                i <= self.prestamos@.len(),
                prestamos@ == self.prestamos@.take(i as int).filter(
                    filtro_vencido(referencia.vista()),
                ),
            decreases self.prestamos@.len() - i,
        {
            proof {
                self.prestamos@.lemma_take_succ_push(i as int);
                self.prestamos@.take(i as int).lemma_filter_push(
                    self.prestamos@[i as int],
                    filtro_vencido(referencia.vista()),
                );
            }
            let p = &self.prestamos[i];
            if referencia.es_mayor(p.vencimiento) {
                prestamos.push(p.clone());
            }
            i = i + 1;
        }
        proof {
            self.prestamos@.lemma_take_len();
        }
        prestamos
    }

    /// The loans due within `dias` days of today. The clock decides the
    /// reference date, so all that holds of every outcome is that the result
    /// is the due-loan filter for some date; `prestamos_a_vencer_desde`
    /// carries the exact rule.
    pub fn prestamos_a_vencer(&self, dias: u32) -> (r: Vec<Prestamo>)
        ensures
            exists|d: DiaMesAnio| r@ == self.prestamos@.filter(#[trigger] filtro_vencido(d)),
    {
        let hoy = fecha_de_hoy();
        let mut referencia = hoy;
        if dias <= u32::MAX - referencia.anio {
            proof {
                lema_suma_definida_en_rango(referencia.vista(), dias as nat);
            }
            referencia.sumar_dias(dias);
        }
        let r = self.prestamos_a_vencer_desde(referencia);
        proof {
            assert(r@ == self.prestamos@.filter(filtro_vencido(referencia.vista())));
        }
        r
    }

    /// The loans already due today. The clock decides the date, so all that
    /// holds of every outcome is that the result is the due-loan filter for
    /// some date; `prestamos_a_vencer_desde` carries the exact rule.
    pub fn prestamos_vencidos(&self) -> (r: Vec<Prestamo>)
        ensures
            exists|d: DiaMesAnio| r@ == self.prestamos@.filter(#[trigger] filtro_vencido(d)),
    {
        let hoy = fecha_de_hoy();
        let r = self.prestamos_a_vencer_desde(hoy);
        proof {
            assert(r@ == self.prestamos@.filter(filtro_vencido(hoy.vista())));
        }
        r
    }

    /// Closes every live loan of `cliente`, stamping it with the given return
    /// date, and puts one copy per closed loan back on the stock for `isbn` —
    /// provided the ISBN is known; otherwise nothing changes at all. The
    /// caller supplies the return date, so this rule is proved for every date.
    pub fn devolver_libro_en(&mut self, isbn: u32, cliente: &Cliente, fecha: Fecha)
        requires
            old(self).disposicion@.contains_key(isbn) ==> old(self).disposicion@[isbn]
                + activos_hasta(
                old(self).prestamos@,
                *cliente,
                old(self).prestamos@.len() as int,
            ) <= u32::MAX,
        ensures
            final(self).prestamos@ == tras_devolucion(
                old(self).prestamos@,
                *cliente,
                old(self).disposicion@.contains_key(isbn),
                fecha,
            ),
            final(self).disposicion@ == (if old(self).disposicion@.contains_key(isbn) {
                old(self).disposicion@.insert(
                    isbn,
                    (old(self).disposicion@[isbn] + activos_hasta(
                        old(self).prestamos@,
                        *cliente,
                        old(self).prestamos@.len() as int,
                    )) as u32,
                )
            } else {
                old(self).disposicion@
            }),
            final(self).nombre == old(self).nombre,
            final(self).direccion == old(self).direccion,
    {
        let mut i: usize = 0;
        while i < self.prestamos.len()
            invariant
                i <= self.prestamos@.len(),
                self.prestamos@.len() == old(self).prestamos@.len(),
                old(self).disposicion@.contains_key(isbn) ==> old(self).disposicion@[isbn]
                    + activos_hasta(
                    old(self).prestamos@,
                    *cliente,
                    old(self).prestamos@.len() as int,
                ) <= u32::MAX,
                forall|j: int|
                    i <= j < old(self).prestamos@.len() ==> self.prestamos@[j] == old(
                        self,
                    ).prestamos@[j],
                forall|j: int|
                    0 <= j < i ==> self.prestamos@[j] == tras_devolucion(
                        old(self).prestamos@,
                        *cliente,
                        old(self).disposicion@.contains_key(isbn),
                        fecha,
                    )[j],
                self.disposicion@ == (if old(self).disposicion@.contains_key(isbn) {
                    old(self).disposicion@.insert(
                        isbn,
                        (old(self).disposicion@[isbn] + activos_hasta(
                            old(self).prestamos@,
                            *cliente,
                            i as int,
                        )) as u32,
                    )
                } else {
                    old(self).disposicion@
                }),
                self.nombre == old(self).nombre,
                self.direccion == old(self).direccion,
            decreases self.prestamos@.len() - i,
        {
            proof {
                lema_activos_monotona(old(self).prestamos@, *cliente, i + 1, old(
                    self,
                ).prestamos@.len() as int);
                lema_activos_monotona(old(self).prestamos@, *cliente, 0, i as int);
            }
            let es_activo = self.prestamos[i].cliente == *cliente && self.prestamos[i].estado
                == Estado::Prestamo;
            proof {
                assert(activos_hasta(old(self).prestamos@, *cliente, i + 1) == activos_hasta(
                    old(self).prestamos@,
                    *cliente,
                    i as int,
                ) + (if prestamo_activo_de(old(self).prestamos@[i as int], *cliente) {
                    1int
                } else {
                    0int
                }));
            }
            if es_activo {
                let existente = match self.disposicion.get(&isbn) {
                    Some(value) => Some(*value),
                    None => None,
                };
                match existente {
                    Some(value) => {
                        self.prestamos[i].estado = Estado::Devuelto;
                        self.prestamos[i].devolucion = Some(fecha);
                        self.disposicion.insert(isbn, value + 1);
                        proof {
                            assert(self.disposicion@ =~= old(self).disposicion@.insert(
                                isbn,
                                (old(self).disposicion@[isbn] + activos_hasta(
                                    old(self).prestamos@,
                                    *cliente,
                                    i + 1,
                                )) as u32,
                            ));
                        }
                    },
                    None => (),
                }
            }
            i = i + 1;
        }
        proof {
            assert(self.prestamos@ =~= tras_devolucion(
                old(self).prestamos@,
                *cliente,
                old(self).disposicion@.contains_key(isbn),
                fecha,
            ));
        }
    }

    /// Closes every live loan of `cliente` against today's date from the
    /// clock, returning copies to the stock for `isbn` as
    /// `devolver_libro_en` states; only the date itself is the clock's.
    pub fn devolver_libro(&mut self, isbn: u32, cliente: &Cliente)
        requires
            old(self).disposicion@.contains_key(isbn) ==> old(self).disposicion@[isbn]
                + activos_hasta(
                old(self).prestamos@,
                *cliente,
                old(self).prestamos@.len() as int,
            ) <= u32::MAX,
        ensures
            exists|f: Fecha|
                final(self).prestamos@ == #[trigger] tras_devolucion(
                    old(self).prestamos@,
                    *cliente,
                    old(self).disposicion@.contains_key(isbn),
                    f,
                ),
            final(self).disposicion@ == (if old(self).disposicion@.contains_key(isbn) {
                old(self).disposicion@.insert(
                    isbn,
                    (old(self).disposicion@[isbn] + activos_hasta(
                        old(self).prestamos@,
                        *cliente,
                        old(self).prestamos@.len() as int,
                    )) as u32,
                )
            } else {
                old(self).disposicion@
            }),
            final(self).nombre == old(self).nombre,
            final(self).direccion == old(self).direccion,
    {
        let hoy = fecha_de_hoy();
        self.devolver_libro_en(isbn, cliente, hoy);
    }
}

/// The live-loan count over a prefix never shrinks as the prefix grows.
proof fn lema_activos_monotona(s: Seq<Prestamo>, c: Cliente, i: int, j: int)
    requires
        i <= j,
    ensures
        activos_hasta(s, c, i) <= activos_hasta(s, c, j),
    decreases j,
{
    if i < j && j > 0 {
        lema_activos_monotona(s, c, i, j - 1);
    }
}

} // verus!
