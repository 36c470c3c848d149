//! The personnel records of the sales system: the shared personal data, the
//! client with an optional newsletter address, and the salesperson.

use vstd::prelude::*;

verus! {

#[derive(Debug, Hash, PartialEq, Eq, Clone)]
pub struct InfoPersona {
    pub nombre: String,
    pub apellido: String,
    pub direccion: String,
    pub dni: String,
}

#[derive(Debug, Clone)]
pub struct Cliente {
    pub info: InfoPersona,
    pub news_letter: Option<String>,
}

#[derive(Debug, Hash, PartialEq, Eq, Clone)]
pub struct Vendedor {
    pub info: InfoPersona,
    pub legajo: String,
    pub antiguedad: u8,
    pub salario: u32,
}

impl InfoPersona {
    pub fn new(nombre: String, apellido: String, direccion: String, dni: String) -> (p:
        InfoPersona)
        ensures
            p == (InfoPersona { nombre, apellido, direccion, dni }),
    {
        InfoPersona { nombre, apellido, direccion, dni }
    }
}

impl Cliente {
    pub fn new(info: InfoPersona, news_letter: Option<String>) -> (c: Cliente)
        ensures
            c == (Cliente { info, news_letter }),
    {
        Cliente { info, news_letter }
    }
}

impl Vendedor {
    pub fn new(info: InfoPersona, legajo: String, antiguedad: u8, salario: u32) -> (v: Vendedor)
        ensures
            v == (Vendedor { info, legajo, antiguedad, salario }),
    {
        Vendedor { info, legajo, antiguedad, salario }
    }
}

} // verus!
