//! A person record with an optional address, and a textual rendering built
//! character by character, so that the exact string is part of the contract.
//! The age is rendered through a verified decimal formatter.

use vstd::prelude::*;
use vstd::string::StringExecFns;

verus! {

/// The decimal digit character for `d`, for `d` between 0 and 9.
pub open spec fn digito_char(d: int) -> char {
    if d == 0 {
        '0'
    } else if d == 1 {
        '1'
    } else if d == 2 {
        '2'
    } else if d == 3 {
        '3'
    } else if d == 4 {
        '4'
    } else if d == 5 {
        '5'
    } else if d == 6 {
        '6'
    } else if d == 7 {
        '7'
    } else if d == 8 {
        '8'
    } else {
        '9'
    }
}

/// The decimal digits of `n`, most significant first, without sign and
/// without leading zeros (a lone `0` for zero).
pub open spec fn decimales(n: nat) -> Seq<char>
    decreases n,
{
    if n < 10 {
        seq![digito_char(n as int)]
    } else {
        decimales(n / 10).push(digito_char((n % 10) as int))
    }
}

/// The decimal rendering of a signed number: a leading `-` for negatives.
pub open spec fn decimal_entero(n: int) -> Seq<char> {
    if n < 0 {
        seq!['-'] + decimales((-n) as nat)
    } else {
        decimales(n as nat)
    }
}

/// The single digit `d` as a borrowed string.
fn cadena_digito(d: u32) -> (r: &'static str)
    requires
        d < 10,
    ensures
        r@ == seq![digito_char(d as int)],
{
    proof {
        reveal_strlit("0");
        reveal_strlit("1");
        reveal_strlit("2");
        reveal_strlit("3");
        reveal_strlit("4");
        reveal_strlit("5");
        reveal_strlit("6");
        reveal_strlit("7");
        reveal_strlit("8");
        reveal_strlit("9");
    }
    if d == 0 {
        "0"
    } else if d == 1 {
        "1"
    } else if d == 2 {
        "2"
    } else if d == 3 {
        "3"
    } else if d == 4 {
        "4"
    } else if d == 5 {
        "5"
    } else if d == 6 {
        "6"
    } else if d == 7 {
        "7"
    } else if d == 8 {
        "8"
    } else {
        "9"
    }
}

/// The decimal digits of `n` as a string, proved against `decimales`.
fn cadena_decimal(n: u32) -> (r: String)
    ensures
        r@ == decimales(n as nat),
    decreases n,
{
    if n < 10 {
        cadena_digito(n).to_owned()
    } else {
        let mut cadena = cadena_decimal(n / 10);
        cadena.append(cadena_digito(n % 10));
        proof {
            assert(cadena@ =~= decimales((n / 10) as nat).push(digito_char((n % 10) as int)));
        }
        cadena
    }
}

#[derive(Debug)]
pub struct _Persona {
    pub nombre: String,
    pub edad: i32,
    pub direccion: Option<String>,
}

/// The exact text `_to_string` produces: name and age, and the address when
/// one is on record.
pub open spec fn persona_cadena(p: _Persona) -> Seq<char> {
    let base = "Nombre: "@ + p.nombre@ + " Edad: "@ + decimal_entero(p.edad as int);
    match p.direccion {
        Some(dir) => base + " Direccion: "@ + dir@,
        None => base,
    }
}

impl _Persona {
    pub fn _new(nombre: String, edad: i32, direccion: Option<String>) -> (p: _Persona)
        ensures
            p == (_Persona { nombre, edad, direccion }),
    {
        _Persona { nombre, edad, direccion }
    }

    /// Renders the record as text, character for character as
    /// `persona_cadena` states.
    pub fn _to_string(&self) -> (r: String)
        ensures
            r@ == persona_cadena(*self),
    {
        proof {
            reveal_strlit("Nombre: ");
            reveal_strlit(" Edad: ");
            reveal_strlit(" Direccion: ");
            reveal_strlit("-");
        }
        let mut cadena = String::new();
        cadena.append("Nombre: ");
        cadena.append(self.nombre.as_str());
        cadena.append(" Edad: ");
        let magnitud: u32 = if self.edad < 0 {
            (-(self.edad as i64)) as u32
        } else {
            self.edad as u32
        };
        if self.edad < 0 {
            cadena.append("-");
        }
        let numero = cadena_decimal(magnitud);
        cadena.append(numero.as_str());
        proof {
            assert(cadena@ =~= "Nombre: "@ + self.nombre@ + " Edad: "@ + decimal_entero(
                self.edad as int,
            ));
        }
        match &self.direccion {
            Some(dir) => {
                cadena.append(" Direccion: ");
                cadena.append(dir.as_str());
                proof {
                    assert(cadena@ =~= persona_cadena(*self));
                }
            },
            None => (),
        }
        cadena
    }

    pub fn _obtener_edad(&self) -> (r: i32)
        ensures
            r == self.edad,
    {
        self.edad
    }

    pub fn _actualizar_direccion(&mut self, dir: Option<String>)
        ensures
            final(self).direccion == dir,
            final(self).nombre == old(self).nombre,
            final(self).edad == old(self).edad,
    {
        self.direccion = dir;
    }
}

} // verus!
