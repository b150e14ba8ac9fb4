//! El ciclo de vida de una silla: tres estados y la legalidad de sus
//! transiciones. Tipo de valor puro, sin efectos; el inventario lo consulta
//! antes de aplicar cualquier mutación.

use vstd::prelude::*;

verus! {

/// Estado de una silla: disponible, reservada (en espera de confirmación)
/// o comprada.
#[derive(Clone, Copy, Debug, PartialEq, Eq, Structural)]
pub enum EstadoSilla {
    Disponible,
    Reservada,
    Comprada,
}

/// Las únicas transiciones legales son:
/// disponible → reservada, reservada → comprada, reservada → disponible
/// (cancelación) y comprada → disponible (reembolso). En particular,
/// disponible → comprada y comprada → reservada son ilegales.
pub open spec fn transicion_legal(desde: EstadoSilla, hacia: EstadoSilla) -> bool {
    match (desde, hacia) {
        (EstadoSilla::Disponible, EstadoSilla::Reservada) => true,
        (EstadoSilla::Reservada, EstadoSilla::Comprada) => true,
        (EstadoSilla::Reservada, EstadoSilla::Disponible) => true,
        (EstadoSilla::Comprada, EstadoSilla::Disponible) => true,
        _ => false,
    }
}

/// Decide en código ejecutable si la transición `desde → hacia` es legal.
pub fn es_transicion_legal(desde: EstadoSilla, hacia: EstadoSilla) -> (r: bool)
    ensures
        r == transicion_legal(desde, hacia),
{
    match (desde, hacia) {
        (EstadoSilla::Disponible, EstadoSilla::Reservada) => true,
        (EstadoSilla::Reservada, EstadoSilla::Comprada) => true,
        (EstadoSilla::Reservada, EstadoSilla::Disponible) => true,
        (EstadoSilla::Comprada, EstadoSilla::Disponible) => true,
        _ => false,
    }
}

/// Un subconjunto de estados, usado como conjunto de estados de origen
/// admitidos por una transición en lote.
#[derive(Clone, Copy, Debug, PartialEq, Eq, Structural)]
pub struct ConjuntoEstados {
    pub disponible: bool,
    pub reservada: bool,
    pub comprada: bool,
}

impl ConjuntoEstados {
    /// Pertenencia de un estado al conjunto.
    pub open spec fn contiene(self, e: EstadoSilla) -> bool {
        match e {
            EstadoSilla::Disponible => self.disponible,
            EstadoSilla::Reservada => self.reservada,
            EstadoSilla::Comprada => self.comprada,
        }
    }

    /// Decide en código ejecutable si `e` pertenece al conjunto.
    pub fn tiene(&self, e: EstadoSilla) -> (r: bool)
        ensures
            r == self.contiene(e),
    {
        match e {
            EstadoSilla::Disponible => self.disponible,
            EstadoSilla::Reservada => self.reservada,
            EstadoSilla::Comprada => self.comprada,
        }
    }

    /// El conjunto que contiene únicamente `Disponible`, como valor de
    /// especificación.
    pub open spec fn de_disponible() -> ConjuntoEstados {
        ConjuntoEstados { disponible: true, reservada: false, comprada: false }
    }

    /// El conjunto que contiene únicamente `Reservada`, como valor de
    /// especificación.
    pub open spec fn de_reservada() -> ConjuntoEstados {
        ConjuntoEstados { disponible: false, reservada: true, comprada: false }
    }

    /// El conjunto que contiene únicamente `Disponible`.
    pub fn solo_disponible() -> (c: Self)
        ensures
            c == Self::de_disponible(),
            forall|e: EstadoSilla| c.contiene(e) <==> e == EstadoSilla::Disponible,
    {
        ConjuntoEstados { disponible: true, reservada: false, comprada: false }
    }

    /// El conjunto que contiene únicamente `Reservada`.
    pub fn solo_reservada() -> (c: Self)
        ensures
            c == Self::de_reservada(),
            forall|e: EstadoSilla| c.contiene(e) <==> e == EstadoSilla::Reservada,
    {
        ConjuntoEstados { disponible: false, reservada: true, comprada: false }
    }
}

} // verus!
