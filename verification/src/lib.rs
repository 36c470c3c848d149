pub mod biblioteca;
pub mod fecha;
pub mod functions;
pub mod persona;
pub mod playlist;
pub mod primo;
pub mod rectangulo;
pub mod ventas;
pub mod veterinaria;
