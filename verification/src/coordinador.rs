//! El coordinador de reservas: compone la búsqueda y la transición en las
//! dos operaciones del flujo en dos fases, reservar y rematar (confirmar o
//! cancelar). El préstamo exclusivo `&mut` del recinto hace de frontera de
//! consistencia: mientras dura una operación ningún otro acceso puede
//! observar ni mutar los estados, con lo que buscar y reservar son un solo
//! paso atómico.
//!
//! Las reservas no llevan plazo ni dueño: una reserva nunca rematada deja
//! sus sillas reservadas indefinidamente. Cerrar ese hueco es decisión de
//! una política externa a este núcleo, que puede barrer las reservas
//! vencidas devolviéndolas a disponibles con la misma cancelación
//! (`confirmar_compra_sillas` con `confirmar == false`); aquí no se añade
//! ningún vencimiento implícito.

use vstd::prelude::*;

use crate::busqueda::busqueda_correcta;
use crate::estado::ConjuntoEstados;
use crate::estado::EstadoSilla;
use crate::modelo::ErrorReserva;
use crate::modelo::Estadio;
use crate::modelo::RefAsiento;
use crate::modelo::ref_transita;
use crate::modelo::transicion_correcta;
use crate::modelo::tras_lote;

verus! {

/// El efecto de una reserva lograda: todas las referencias devueltas
/// estaban disponibles en `a`, y `b` es `a` con exactamente esas sillas
/// reservadas.
pub open spec fn reserva_aplicada(a: Estadio, b: Estadio, refs: Seq<RefAsiento>) -> bool {
    &&& forall|k: int|
        0 <= k < refs.len() ==> a.ref_valida(#[trigger] refs[k]) && a.estado_ref(refs[k])
            == EstadoSilla::Disponible
    &&& tras_lote(a, b, refs, EstadoSilla::Reservada)
}

impl Estadio {
    /// Busca `cantidad` asientos y, si la búsqueda devuelve un grupo
    /// completo, lo reserva en el acto: entre buscar y reservar nadie más
    /// puede tocar el recinto, de modo que dos reservas nunca pueden
    /// devolver asientos en común. Devuelve las referencias reservadas; el
    /// llamante debe conservarlas para rematar después. Si la búsqueda
    /// falla, el recinto queda intacto y se devuelve su error.
    pub fn reservar_asientos(&mut self, nombre: &String, cantidad: u32, maximo: u32) -> (r: Result<
        Vec<RefAsiento>,
        ErrorReserva,
    >)
        requires
            old(self).bien_formado(),
        ensures
            final(self).bien_formado(),
            busqueda_correcta(*old(self), nombre@, cantidad, maximo, r),
            r matches Ok(refs) ==> reserva_aplicada(*old(self), *final(self), refs@),
            r is Err ==> *final(self) == *old(self),
    {
        match self.buscar_asientos(nombre, cantidad, maximo) {
            Ok(refs) => {
                proof {
                    assert forall|k: int| 0 <= k < refs@.len() implies ref_transita(
                        *old(self),
                        #[trigger] refs@[k],
                        ConjuntoEstados::de_disponible(),
                        EstadoSilla::Reservada,
                    ) by {
                        assert(old(self).estado_ref(refs@[k]) == EstadoSilla::Disponible);
                    }
                }
                match self.transicion(
                    &refs,
                    ConjuntoEstados::solo_disponible(),
                    EstadoSilla::Reservada,
                ) {
                    Ok(()) => Ok(refs),
                    Err(e) => {
                        proof {
                            assert(false);
                        }
                        Err(e)
                    },
                }
            },
            Err(e) => Err(e),
        }
    }

    /// Remata una reserva: con `confirmar` verdadero lleva las sillas
    /// referidas de reservadas a compradas; con falso las devuelve a
    /// disponibles (cancelación). Todo-o-nada: si alguna referencia no
    /// resuelve o su silla no está reservada, ninguna silla cambia y se
    /// devuelve el error de la primera rechazada; el llamante debe volver a
    /// reservar.
    pub fn confirmar_compra_sillas(&mut self, refs: &Vec<RefAsiento>, confirmar: bool) -> (r:
        Result<(), ErrorReserva>)
        requires
            old(self).bien_formado(),
        ensures
            final(self).bien_formado(),
            transicion_correcta(
                *old(self),
                *final(self),
                refs@,
                ConjuntoEstados::de_reservada(),
                if confirmar {
                    EstadoSilla::Comprada
                } else {
                    EstadoSilla::Disponible
                },
                r,
            ),
    {
        let hacia = if confirmar {
            EstadoSilla::Comprada
        } else {
            EstadoSilla::Disponible
        };
        self.transicion(refs, ConjuntoEstados::solo_reservada(), hacia)
    }
}

} // verus!
