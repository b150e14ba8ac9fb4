//! Inventario de asientos de un recinto: categorías, zonas, filas y sillas,
//! con búsqueda de asientos y el protocolo de reserva / compra / cancelación.

pub mod busqueda;
pub mod coordinador;
pub mod estado;
pub mod inventario;
pub mod leyes;
pub mod modelo;
pub mod semilla;
pub mod vista;

pub use estado::EstadoSilla;
