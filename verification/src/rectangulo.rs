//! An axis-aligned rectangle held as two integer sides.

use vstd::prelude::*;

verus! {

#[derive(Debug, PartialEq, Eq, Structural, Clone)]
pub struct Rectangulo {
    pub longitud: i32,
    pub ancho: i32,
}

impl Rectangulo {
    pub fn new(longitud: i32, ancho: i32) -> (r: Rectangulo)
        ensures
            r == (Rectangulo { longitud, ancho }),
    {
        Rectangulo { longitud, ancho }
    }

    /// The product of the sides; the precondition is only what the machine
    /// forces, that the product fits in `i32`.
    pub fn calcular_area(&self) -> (r: i32)
        requires
            i32::MIN <= self.longitud * self.ancho <= i32::MAX,
        ensures
            r == self.longitud * self.ancho,
    {
        self.longitud * self.ancho
    }

    /// Twice the sum of the sides; the precondition is only what the machine
    /// forces, that the doubled sum fits in `i32`.
    pub fn calcular_perimetro(&self) -> (r: i32)
        requires
            i32::MIN <= 2 * (self.longitud + self.ancho) <= i32::MAX,
            i32::MIN <= self.longitud + self.ancho <= i32::MAX,
        ensures
            r == 2 * (self.longitud + self.ancho),
    {
        2 * (self.longitud + self.ancho)
    }

    pub fn es_cuadrado(&self) -> (r: bool)
        ensures
            r == (self.longitud == self.ancho),
    {
        self.longitud == self.ancho
    }
}

} // verus!
