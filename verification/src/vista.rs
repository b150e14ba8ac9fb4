//! La vista matemática de una instantánea: el listado plano de los asientos
//! de una categoría en el orden canónico (zona declarada, fila ascendente,
//! silla ascendente), y los lemas con que los bucles lo recorren.

use vstd::prelude::*;

use crate::estado::EstadoSilla;
use crate::modelo::AsientoInfo;
use crate::modelo::Categoria;
use crate::modelo::Fila;
use crate::modelo::Zona;

verus! {

/// Un asiento del listado: (nombre de zona, número de fila, número de
/// silla, estado).
pub type PuestoV = (Seq<char>, u32, u32, EstadoSilla);

/// La identidad-más-estado que publica un `AsientoInfo`.
pub open spec fn vista_info(a: AsientoInfo) -> PuestoV {
    (a.zona@, a.fila, a.asiento, a.estado)
}

/// Los asientos de una fila, en orden de silla ascendente.
pub open spec fn vista_fila(zona: Seq<char>, f: Fila) -> Seq<PuestoV> {
    Seq::new(
        f.sillas@.len(),
        |i: int| (zona, f.numero, f.sillas@[i].numero, f.sillas@[i].estado),
    )
}

/// Las vistas de una sucesión de filas de la zona `zona`.
pub open spec fn vistas_filas(zona: Seq<char>, filas: Seq<Fila>) -> Seq<Seq<PuestoV>> {
    filas.map_values(|f: Fila| vista_fila(zona, f))
}

/// Los asientos de una zona, fila tras fila.
pub open spec fn vista_zona(z: Zona) -> Seq<PuestoV> {
    vistas_filas(z.nombre@, z.filas@).flatten()
}

/// Las vistas de una sucesión de zonas.
pub open spec fn vistas_zonas(zonas: Seq<Zona>) -> Seq<Seq<PuestoV>> {
    zonas.map_values(|z: Zona| vista_zona(z))
}

/// El listado completo de una categoría, zona tras zona.
pub open spec fn vista_categoria(c: Categoria) -> Seq<PuestoV> {
    vistas_zonas(c.zonas@).flatten()
}

pub open spec fn es_disponible(p: PuestoV) -> bool {
    p.3 == EstadoSilla::Disponible
}

/// Los asientos disponibles de una sucesión, en su mismo orden.
pub open spec fn filtrar_disponibles(s: Seq<PuestoV>) -> Seq<PuestoV> {
    s.filter(|p: PuestoV| es_disponible(p))
}

/// Los asientos disponibles de la categoría, en el orden del listado: la
/// sucesión de la que la acumulación dispersa toma su prefijo.
pub open spec fn disponibles_categoria(c: Categoria) -> Seq<PuestoV> {
    filtrar_disponibles(vista_categoria(c))
}

/// Alargar en una fila el prefijo de filas procesadas añade al listado
/// exactamente la vista de esa fila.
pub proof fn lemma_vistas_filas_prefijo(zona: Seq<char>, filas: Seq<Fila>, fi: int)
    requires
        0 <= fi < filas.len(),
    ensures
        vistas_filas(zona, filas.take(fi + 1)).flatten() == vistas_filas(
            zona,
            filas.take(fi),
        ).flatten() + vista_fila(zona, filas[fi]),
{
    assert(vistas_filas(zona, filas.take(fi + 1)) =~= vistas_filas(zona, filas.take(fi)).push(
        vista_fila(zona, filas[fi]),
    ));
    vistas_filas(zona, filas.take(fi)).lemma_flatten_push(vista_fila(zona, filas[fi]));
}

/// Como la anterior, para el prefijo de zonas procesadas.
pub proof fn lemma_vistas_zonas_prefijo(zonas: Seq<Zona>, zi: int)
    requires
        0 <= zi < zonas.len(),
    ensures
        vistas_zonas(zonas.take(zi + 1)).flatten() == vistas_zonas(zonas.take(zi)).flatten()
            + vista_zona(zonas[zi]),
{
    assert(vistas_zonas(zonas.take(zi + 1)) =~= vistas_zonas(zonas.take(zi)).push(
        vista_zona(zonas[zi]),
    ));
    vistas_zonas(zonas.take(zi)).lemma_flatten_push(vista_zona(zonas[zi]));
}

/// Filtrar tras añadir un asiento: el filtro crece exactamente cuando el
/// asiento está disponible.
pub proof fn lemma_filtrar_disponibles_push(s: Seq<PuestoV>, x: PuestoV)
    ensures
        filtrar_disponibles(s.push(x)) == (if es_disponible(x) {
            filtrar_disponibles(s).push(x)
        } else {
            filtrar_disponibles(s)
        }),
{
    reveal(Seq::filter);
    assert(s.push(x).drop_last() =~= s);
    assert(s.push(x).last() == x);
}

} // verus!
