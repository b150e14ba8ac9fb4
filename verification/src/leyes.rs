//! Las leyes generales del inventario, demostradas sobre los mismos
//! predicados que enuncian los contratos: ninguna reserva pisa a otra, sólo
//! se compra lo reservado, la búsqueda es determinista y cancelar lo ya
//! disponible falla sin tocar nada. (Que un lote fallido no cambia ninguna
//! silla es ya una cláusula de `transicion_correcta`, en el contrato de
//! `transicion`.)

use vstd::prelude::*;

use crate::busqueda::busqueda_correcta;
use crate::busqueda::categoria_con_corrida;
use crate::busqueda::coincide;
use crate::busqueda::fila_con_corrida;
use crate::busqueda::primera_corrida;
use crate::busqueda::refs_corrida;
use crate::busqueda::zona_con_corrida;
use crate::coordinador::reserva_aplicada;
use crate::estado::ConjuntoEstados;
use crate::estado::EstadoSilla;
use crate::estado::transicion_legal;
use crate::modelo::Categoria;
use crate::modelo::ErrorReserva;
use crate::modelo::Estadio;
use crate::modelo::RefAsiento;
use crate::modelo::identidad_ref;
use crate::modelo::lemma_misma_forma_apunta;
use crate::modelo::lemma_misma_forma_bien_formado;
use crate::modelo::lemma_ref_apunta_resuelve;
use crate::modelo::lemma_ref_apunta_unica;
use crate::modelo::lemma_ref_valida_apunta;
use crate::modelo::pos_referida;
use crate::modelo::ref_transita;
use crate::modelo::transicion_correcta;
use crate::modelo::tras_lote;

verus! {

/// Una cadena de reservas consecutivas: cada lote se obtuvo reservando
/// sobre el estado que dejó el anterior.
pub open spec fn cadena_de_reservas(estados: Seq<Estadio>, lotes: Seq<Seq<RefAsiento>>) -> bool {
    &&& estados.len() == lotes.len() + 1
    &&& estados[0].bien_formado()
    &&& forall|k: int|
        0 <= k < lotes.len() ==> reserva_aplicada(#[trigger] estados[k], estados[k + 1], lotes[k])
}

proof fn lemma_cadena_bien_formado(estados: Seq<Estadio>, lotes: Seq<Seq<RefAsiento>>, m: int)
    requires
        cadena_de_reservas(estados, lotes),
        0 <= m <= lotes.len(),
    ensures
        estados[m].bien_formado(),
    decreases m,
{
    if m > 0 {
        lemma_cadena_bien_formado(estados, lotes, m - 1);
        lemma_misma_forma_bien_formado(estados[m - 1], estados[m]);
    }
}

/// Una silla que una referencia nombra y que está reservada sigue nombrada
/// y reservada tras cualquier número de reservas posteriores: una reserva
/// sólo toca sillas disponibles y nunca la estructura.
proof fn lemma_reservada_persiste(
    estados: Seq<Estadio>,
    lotes: Seq<Seq<RefAsiento>>,
    r: RefAsiento,
    ci: int,
    zi: int,
    fi: int,
    si: int,
    m0: int,
    m: int,
)
    requires
        cadena_de_reservas(estados, lotes),
        0 <= m0 <= m <= lotes.len(),
        estados[m0].ref_apunta(r, ci, zi, fi, si),
        estados[m0].silla_en(ci, zi, fi, si).estado == EstadoSilla::Reservada,
    ensures
        estados[m].ref_apunta(r, ci, zi, fi, si),
        estados[m].silla_en(ci, zi, fi, si).estado == EstadoSilla::Reservada,
    decreases m - m0,
{
    if m > m0 {
        lemma_reservada_persiste(estados, lotes, r, ci, zi, fi, si, m0, m - 1);
        let a = estados[m - 1];
        let b = estados[m];
        assert(reserva_aplicada(a, b, lotes[m - 1]));
        lemma_misma_forma_apunta(a, b, r, ci, zi, fi, si);
        assert(b.silla_en(ci, zi, fi, si).estado == (if pos_referida(
            a,
            lotes[m - 1],
            ci,
            zi,
            fi,
            si,
        ) {
            EstadoSilla::Reservada
        } else {
            a.silla_en(ci, zi, fi, si).estado
        }));
    }
}

/// Sin doble reserva: en una cadena de reservas sobre el mismo recinto, dos
/// lotes devueltos por reservas distintas nunca nombran el mismo asiento.
/// (Las llamadas concurrentes quedan serializadas por la exclusión del
/// coordinador, de modo que toda ejecución es una de estas cadenas.)
pub proof fn lemma_sin_doble_reserva(estados: Seq<Estadio>, lotes: Seq<Seq<RefAsiento>>)
    requires
        cadena_de_reservas(estados, lotes),
    ensures
        forall|k: int, l: int, i: int, j: int|
            0 <= k < l < lotes.len() && 0 <= i < lotes[k].len() && 0 <= j < lotes[l].len()
                ==> identidad_ref(#[trigger] lotes[k][i]) != identidad_ref(#[trigger] lotes[l][j]),
{
    assert forall|k: int, l: int, i: int, j: int|
        0 <= k < l < lotes.len() && 0 <= i < lotes[k].len() && 0 <= j
            < lotes[l].len() implies identidad_ref(#[trigger] lotes[k][i]) != identidad_ref(
        #[trigger] lotes[l][j],
    ) by {
        let r1 = lotes[k][i];
        let r2 = lotes[l][j];
        if identidad_ref(r1) == identidad_ref(r2) {
            lemma_cadena_bien_formado(estados, lotes, k);
            lemma_cadena_bien_formado(estados, lotes, l);
            let ek = estados[k];
            let el = estados[l];
            assert(reserva_aplicada(ek, estados[k + 1], lotes[k]));
            assert(ek.ref_valida(r1) && ek.estado_ref(r1) == EstadoSilla::Disponible);
            lemma_ref_valida_apunta(ek, r1);
            let (ci, zi, fi, si) = ek.pos_de_ref(r1);
            assert(ek.ref_apunta(r1, ci, zi, fi, si));
            // Tras la reserva `k`, la silla de `r1` queda reservada.
            assert(pos_referida(ek, lotes[k], ci, zi, fi, si));
            assert(estados[k + 1].silla_en(ci, zi, fi, si).estado == EstadoSilla::Reservada);
            lemma_misma_forma_apunta(ek, estados[k + 1], r1, ci, zi, fi, si);
            // Y sigue reservada hasta el estado `l`.
            lemma_reservada_persiste(estados, lotes, r1, ci, zi, fi, si, k + 1, l);
            // Pero la reserva `l` la devolvió como disponible: contradicción.
            assert(el.ref_valida(r2) && el.estado_ref(r2) == EstadoSilla::Disponible);
            lemma_ref_valida_apunta(el, r2);
            let (cj, zj, fj, sj) = el.pos_de_ref(r2);
            assert(el.ref_apunta(r2, cj, zj, fj, sj));
            assert(el.ref_apunta(r2, ci, zi, fi, si));
            lemma_ref_apunta_unica(el, r2, ci, zi, fi, si, cj, zj, fj, sj);
            lemma_ref_apunta_resuelve(el, r2, ci, zi, fi, si);
            assert(false);
        }
    }
}

/// Legalidad de los estados: tras cualquier transición en lote lograda, una
/// silla que queda comprada o ya lo estaba o estaba reservada inmediatamente
/// antes; ninguna sucesión de operaciones compra una silla sin pasar por la
/// reserva.
pub proof fn lemma_legalidad_compra(
    a: Estadio,
    b: Estadio,
    refs: Seq<RefAsiento>,
    desde: ConjuntoEstados,
    hacia: EstadoSilla,
    ci: int,
    zi: int,
    fi: int,
    si: int,
)
    requires
        a.bien_formado(),
        forall|k: int| 0 <= k < refs.len() ==> ref_transita(a, #[trigger] refs[k], desde, hacia),
        tras_lote(a, b, refs, hacia),
        a.pos_valida(ci, zi, fi, si),
        b.silla_en(ci, zi, fi, si).estado == EstadoSilla::Comprada,
        a.silla_en(ci, zi, fi, si).estado != EstadoSilla::Comprada,
    ensures
        a.silla_en(ci, zi, fi, si).estado == EstadoSilla::Reservada,
{
    assert(pos_referida(a, refs, ci, zi, fi, si));
    let k = choose|k: int|
        0 <= k < refs.len() && a.ref_apunta(#[trigger] refs[k], ci, zi, fi, si);
    lemma_ref_apunta_resuelve(a, refs[k], ci, zi, fi, si);
    assert(transicion_legal(a.estado_ref(refs[k]), EstadoSilla::Comprada));
}

proof fn lemma_primera_corrida_unica(
    c: Categoria,
    q: int,
    zi1: int,
    fi1: int,
    i1: int,
    zi2: int,
    fi2: int,
    i2: int,
)
    requires
        primera_corrida(c, q, zi1, fi1, i1),
        primera_corrida(c, q, zi2, fi2, i2),
    ensures
        zi1 == zi2,
        fi1 == fi2,
        i1 == i2,
{
    assert(fila_con_corrida(c.zonas@[zi1].filas@[fi1], q));
    assert(zona_con_corrida(c.zonas@[zi1], q));
    assert(fila_con_corrida(c.zonas@[zi2].filas@[fi2], q));
    assert(zona_con_corrida(c.zonas@[zi2], q));
    assert(zi1 == zi2);
    assert(fi1 == fi2);
}

/// Búsqueda determinista: sobre la misma instantánea y con los mismos
/// argumentos, el contrato de búsqueda determina el resultado: el mismo
/// error, o referencias con las mismas identidades una a una.
pub proof fn lemma_busqueda_determinista(
    e: Estadio,
    nombre: Seq<char>,
    cantidad: u32,
    maximo: u32,
    r1: Result<Vec<RefAsiento>, ErrorReserva>,
    r2: Result<Vec<RefAsiento>, ErrorReserva>,
)
    requires
        busqueda_correcta(e, nombre, cantidad, maximo, r1),
        busqueda_correcta(e, nombre, cantidad, maximo, r2),
    ensures
        r1 is Err ==> r1 == r2,
        r1 matches Ok(v1) ==> r2 matches Ok(v2) && v1@.len() == v2@.len() && forall|k: int|
            0 <= k < v1@.len() ==> identidad_ref(#[trigger] v1@[k]) == identidad_ref(v2@[k]),
{
    if cantidad == 0 || cantidad > maximo {
    } else if !e.tiene_categoria(nombre) {
    } else {
        let c = e.categoria_con(nombre);
        if disponibles_len_menor(c, cantidad) {
        } else {
            let v1 = r1->Ok_0;
            let v2 = r2->Ok_0;
            if categoria_con_corrida(c, cantidad as int) {
                let (za, fa, ia) = choose|zi: int, fi: int, i: int|
                    #[trigger] primera_corrida(c, cantidad as int, zi, fi, i) && refs_corrida(
                        c,
                        v1@,
                        cantidad as int,
                        zi,
                        fi,
                        i,
                    );
                let (zb, fb, ib) = choose|zi: int, fi: int, i: int|
                    #[trigger] primera_corrida(c, cantidad as int, zi, fi, i) && refs_corrida(
                        c,
                        v2@,
                        cantidad as int,
                        zi,
                        fi,
                        i,
                    );
                lemma_primera_corrida_unica(c, cantidad as int, za, fa, ia, zb, fb, ib);
                assert forall|k: int| 0 <= k < v1@.len() implies identidad_ref(#[trigger] v1@[k])
                    == identidad_ref(v2@[k]) by {
                    assert(refs_corrida(c, v1@, cantidad as int, za, fa, ia));
                    assert(refs_corrida(c, v2@, cantidad as int, za, fa, ia));
                }
            } else {
                assert forall|k: int| 0 <= k < v1@.len() implies identidad_ref(#[trigger] v1@[k])
                    == identidad_ref(v2@[k]) by {
                    assert(coincide(v1@[k], crate::vista::disponibles_categoria(c)[k], c.nombre@));
                    assert(coincide(v2@[k], crate::vista::disponibles_categoria(c)[k], c.nombre@));
                }
            }
        }
    }
}

/// Abreviatura de la condición de insuficiencia, para el análisis por casos.
spec fn disponibles_len_menor(c: Categoria, cantidad: u32) -> bool {
    crate::vista::disponibles_categoria(c).len() < cantidad
}

/// Cancelación idempotente: rematar con `confirmar == false` un lote no
/// vacío cuyas sillas ya están disponibles falla con `EstadoIlegal` y deja
/// el recinto exactamente como estaba.
pub proof fn lemma_cancelar_disponibles_falla(
    a: Estadio,
    b: Estadio,
    refs: Seq<RefAsiento>,
    r: Result<(), ErrorReserva>,
)
    requires
        a.bien_formado(),
        refs.len() > 0,
        forall|k: int|
            0 <= k < refs.len() ==> a.ref_valida(#[trigger] refs[k]) && a.estado_ref(refs[k])
                == EstadoSilla::Disponible,
        transicion_correcta(
            a,
            b,
            refs,
            ConjuntoEstados::de_reservada(),
            EstadoSilla::Disponible,
            r,
        ),
    ensures
        r == Err::<(), ErrorReserva>(ErrorReserva::EstadoIlegal),
        b == a,
{
    assert(!ref_transita(a, refs[0], ConjuntoEstados::de_reservada(), EstadoSilla::Disponible));
    assert(r is Err);
    let k = choose|k: int|
        {
            &&& 0 <= k < refs.len()
            &&& !ref_transita(
                a,
                #[trigger] refs[k],
                ConjuntoEstados::de_reservada(),
                EstadoSilla::Disponible,
            )
            &&& forall|j: int|
                0 <= j < k ==> ref_transita(
                    a,
                    #[trigger] refs[j],
                    ConjuntoEstados::de_reservada(),
                    EstadoSilla::Disponible,
                )
            &&& r->Err_0 == crate::modelo::error_ref(a, refs[k])
        };
    assert(k == 0) by {
        if k > 0 {
            assert(ref_transita(
                a,
                refs[0],
                ConjuntoEstados::de_reservada(),
                EstadoSilla::Disponible,
            ));
        }
    }
    assert(crate::modelo::error_ref(a, refs[0]) == ErrorReserva::EstadoIlegal);
}

} // verus!
