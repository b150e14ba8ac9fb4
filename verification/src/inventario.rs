//! Las operaciones del inventario sobre el recinto: resolución de nombres y
//! números a posiciones, y la transición en lote, único punto de mutación,
//! con semántica todo-o-nada.

use vstd::prelude::*;

use crate::estado::ConjuntoEstados;
use crate::estado::EstadoSilla;
use crate::estado::es_transicion_legal;
use crate::modelo::AsientoInfo;
use crate::modelo::Categoria;
use crate::modelo::ErrorReserva;
use crate::modelo::Estadio;
use crate::modelo::Fila;
use crate::modelo::RefAsiento;
use crate::modelo::Zona;
use crate::modelo::lemma_misma_forma_bien_formado;
use crate::modelo::lemma_ref_apunta_resuelve;
use crate::modelo::lemma_ref_apunta_unica;
use crate::modelo::misma_forma_categoria;
use crate::modelo::misma_forma_fila;
use crate::modelo::misma_forma_zona;
use crate::modelo::pos_referida;
use crate::modelo::ref_transita;
use crate::modelo::transicion_correcta;
use crate::modelo::tras_lote;
use crate::vista::PuestoV;
use crate::vista::lemma_vistas_filas_prefijo;
use crate::vista::lemma_vistas_zonas_prefijo;
use crate::vista::vista_categoria;
use crate::vista::vista_fila;
use crate::vista::vista_info;
use crate::vista::vista_zona;
use crate::vista::vistas_filas;
use crate::vista::vistas_zonas;

verus! {

impl Fila {
    /// Posición de la silla con el número dado, si la hay.
    pub fn posicion_silla(&self, numero: u32) -> (r: Option<usize>)
        ensures
            r is Some <==> self.tiene_silla(numero),
            r matches Some(i) ==> 0 <= i < self.sillas@.len() && self.sillas@[i as int].numero
                == numero && forall|j: int|
                0 <= j < i ==> (#[trigger] self.sillas@[j]).numero != numero,
    {
        let mut i: usize = 0;
        while i < self.sillas.len()
            invariant
                i <= self.sillas@.len(),
                forall|j: int| 0 <= j < i ==> (#[trigger] self.sillas@[j]).numero != numero,
            decreases self.sillas@.len() - i,
        {
            if self.sillas[i].numero == numero {
                return Some(i);
            }
            i += 1;
        }
        None
    }
}

impl Zona {
    /// Posición de la fila con el número dado, si la hay.
    pub fn posicion_fila(&self, numero: u32) -> (r: Option<usize>)
        ensures
            r is Some <==> self.tiene_fila(numero),
            r matches Some(i) ==> 0 <= i < self.filas@.len() && self.filas@[i as int].numero
                == numero && forall|j: int|
                0 <= j < i ==> (#[trigger] self.filas@[j]).numero != numero,
    {
        let mut i: usize = 0;
        while i < self.filas.len()
            invariant
                i <= self.filas@.len(),
                forall|j: int| 0 <= j < i ==> (#[trigger] self.filas@[j]).numero != numero,
            decreases self.filas@.len() - i,
        {
            if self.filas[i].numero == numero {
                return Some(i);
            }
            i += 1;
        }
        None
    }
}

impl Categoria {
    /// Posición de la zona con el nombre dado, si la hay.
    pub fn posicion_zona(&self, nombre: &String) -> (r: Option<usize>)
        ensures
            r is Some <==> self.tiene_zona(nombre@),
            r matches Some(i) ==> 0 <= i < self.zonas@.len() && self.zonas@[i as int].nombre@
                == nombre@ && forall|j: int|
                0 <= j < i ==> (#[trigger] self.zonas@[j]).nombre@ != nombre@,
    {
        let mut i: usize = 0;
        while i < self.zonas.len()
            invariant
                i <= self.zonas@.len(),
                forall|j: int| 0 <= j < i ==> (#[trigger] self.zonas@[j]).nombre@ != nombre@,
            decreases self.zonas@.len() - i,
        {
            if self.zonas[i].nombre == *nombre {
                return Some(i);
            }
            i += 1;
        }
        None
    }
}

impl Estadio {
    /// Posición de la categoría con el nombre dado, si la hay.
    pub fn posicion_categoria(&self, nombre: &String) -> (r: Option<usize>)
        ensures
            r is Some <==> self.tiene_categoria(nombre@),
            r matches Some(i) ==> 0 <= i < self.categorias@.len() && self.categorias@[
                i as int
            ].nombre@ == nombre@ && forall|j: int|
                0 <= j < i ==> (#[trigger] self.categorias@[j]).nombre@ != nombre@,
    {
        let mut i: usize = 0;
        while i < self.categorias.len()
            invariant
                i <= self.categorias@.len(),
                forall|j: int| 0 <= j < i ==> (#[trigger] self.categorias@[j]).nombre@ != nombre@,
            decreases self.categorias@.len() - i,
        {
            if self.categorias[i].nombre == *nombre {
                return Some(i);
            }
            i += 1;
        }
        None
    }

    /// Instantánea de sólo lectura de los asientos de una categoría, en el
    /// orden canónico: zona declarada, fila ascendente, silla ascendente.
    /// Falla con `CategoriaNoEncontrada` si el nombre no existe.
    pub fn obtener_asientos_categoria(&self, nombre: &String) -> (r: Result<
        Vec<AsientoInfo>,
        ErrorReserva,
    >)
        requires
            self.bien_formado(),
        ensures
            r is Ok <==> self.tiene_categoria(nombre@),
            r is Err ==> r == Err::<Vec<AsientoInfo>, ErrorReserva>(
                ErrorReserva::CategoriaNoEncontrada,
            ),
            r matches Ok(v) ==> {
                let c = self.categoria_con(nombre@);
                &&& v@.len() == vista_categoria(c).len()
                &&& forall|k: int|
                    0 <= k < v@.len() ==> vista_info(#[trigger] v@[k]) == vista_categoria(c)[k]
            },
    {
        let ci = match self.posicion_categoria(nombre) {
            Some(ci) => ci,
            None => {
                return Err(ErrorReserva::CategoriaNoEncontrada);
            },
        };
        proof {
            crate::modelo::lemma_indice_categoria(*self, ci as int);
        }
        let ghost cv = self.categorias@[ci as int];
        let c = &self.categorias[ci];
        let mut v: Vec<AsientoInfo> = Vec::new();
        let ghost mut procesado: Seq<PuestoV> = Seq::empty();
        proof {
            assert(cv.zonas@.take(0) =~= Seq::<Zona>::empty());
            assert(vistas_zonas(Seq::<Zona>::empty()) =~= Seq::<Seq<PuestoV>>::empty());
            assert(procesado =~= vistas_zonas(cv.zonas@.take(0)).flatten());
        }
        let mut zi: usize = 0;
        while zi < c.zonas.len()
            invariant
                *c == cv,
                cv.bien_formada(),
                zi <= cv.zonas@.len(),
                procesado == vistas_zonas(cv.zonas@.take(zi as int)).flatten(),
                v@.len() == procesado.len(),
                forall|k: int|
                    0 <= k < v@.len() ==> vista_info(#[trigger] v@[k]) == procesado[k],
            decreases cv.zonas@.len() - zi,
        {
            let ghost zv = cv.zonas@[zi as int];
            let ghost proc_zona = procesado;
            let z = &c.zonas[zi];
            proof {
                assert(zv.filas@.take(0) =~= Seq::<Fila>::empty());
                assert(vistas_filas(zv.nombre@, zv.filas@.take(0)) =~= Seq::<
                    Seq<PuestoV>,
                >::empty());
                assert(vistas_filas(zv.nombre@, zv.filas@.take(0)).flatten() =~= Seq::<
                    PuestoV,
                >::empty());
            }
            let mut fi: usize = 0;
            while fi < z.filas.len()
                invariant
                    *c == cv,
                    cv.bien_formada(),
                    zi < cv.zonas@.len(),
                    *z == zv,
                    zv == cv.zonas@[zi as int],
                    proc_zona == vistas_zonas(cv.zonas@.take(zi as int)).flatten(),
                    fi <= zv.filas@.len(),
                    procesado == proc_zona + vistas_filas(
                        zv.nombre@,
                        zv.filas@.take(fi as int),
                    ).flatten(),
                    v@.len() == procesado.len(),
                    forall|k: int|
                        0 <= k < v@.len() ==> vista_info(#[trigger] v@[k]) == procesado[k],
                decreases zv.filas@.len() - fi,
            {
                let ghost fv = zv.filas@[fi as int];
                let ghost proc_fila = procesado;
                let f = &z.filas[fi];
                proof {
                    assert(vista_fila(zv.nombre@, fv).take(0) =~= Seq::<PuestoV>::empty());
                }
                let mut si: usize = 0;
                while si < f.sillas.len()
                    invariant
                        *z == zv,
                        *f == fv,
                        si <= fv.sillas@.len(),
                        procesado == proc_fila + vista_fila(zv.nombre@, fv).take(si as int),
                        v@.len() == procesado.len(),
                        forall|k: int|
                            0 <= k < v@.len() ==> vista_info(#[trigger] v@[k]) == procesado[k],
                    decreases fv.sillas@.len() - si,
                {
                    let s = f.sillas[si];
                    v.push(
                        AsientoInfo {
                            zona: z.nombre.clone(),
                            fila: f.numero,
                            asiento: s.numero,
                            estado: s.estado,
                        },
                    );
                    proof {
                        let p: PuestoV = (zv.nombre@, fv.numero, s.numero, s.estado);
                        assert(vista_fila(zv.nombre@, fv).take(si + 1) =~= vista_fila(
                            zv.nombre@,
                            fv,
                        ).take(si as int).push(p));
                        procesado = procesado.push(p);
                    }
                    si += 1;
                }
                proof {
                    assert(vista_fila(zv.nombre@, fv).take(fv.sillas@.len() as int) =~= vista_fila(
                        zv.nombre@,
                        fv,
                    ));
                    lemma_vistas_filas_prefijo(zv.nombre@, zv.filas@, fi as int);
                }
                fi += 1;
            }
            proof {
                assert(zv.filas@.take(zv.filas@.len() as int) =~= zv.filas@);
                assert(procesado == proc_zona + vista_zona(zv));
                lemma_vistas_zonas_prefijo(cv.zonas@, zi as int);
            }
            zi += 1;
        }
        proof {
            assert(cv.zonas@.take(cv.zonas@.len() as int) =~= cv.zonas@);
            assert(procesado == vista_categoria(cv));
        }
        Ok(v)
    }

    /// Cambia en lote el estado de las sillas referidas, con semántica
    /// todo-o-nada: primero comprueba cada referencia (que resuelva, que su
    /// estado actual esté en `desde` y que la transición a `hacia` sea
    /// legal) y sólo si todas pasan aplica el cambio; si alguna falla,
    /// ninguna silla cambia y se devuelve el error de la primera rechazada.
    pub fn transicion(
        &mut self,
        refs: &Vec<RefAsiento>,
        desde: ConjuntoEstados,
        hacia: EstadoSilla,
    ) -> (r: Result<(), ErrorReserva>)
        requires
            old(self).bien_formado(),
        ensures
            final(self).bien_formado(),
            transicion_correcta(*old(self), *final(self), refs@, desde, hacia, r),
    {
        let ghost a = *old(self);
        // Primera fase: comprobar todas las referencias sin mutar nada,
        // guardando la posición a la que resuelve cada una.
        let mut pos: Vec<(usize, usize, usize, usize)> = Vec::new();
        let mut k: usize = 0;
        while k < refs.len()
            invariant
                *self == a,
                a == *old(self),
                a.bien_formado(),
                k <= refs@.len(),
                pos@.len() == k,
                forall|j: int| 0 <= j < k ==> ref_transita(a, #[trigger] refs@[j], desde, hacia),
                forall|j: int|
                    0 <= j < k ==> {
                        let p = #[trigger] pos@[j];
                        a.ref_apunta(refs@[j], p.0 as int, p.1 as int, p.2 as int, p.3 as int)
                    },
            decreases refs@.len() - k,
        {
            let r = &refs[k];
            let ci = match self.posicion_categoria(&r.categoria) {
                Some(ci) => ci,
                None => {
                    return Err(ErrorReserva::CategoriaNoEncontrada);
                },
            };
            proof {
                crate::modelo::lemma_indice_categoria(a, ci as int);
            }
            let zi = match self.categorias[ci].posicion_zona(&r.zona) {
                Some(zi) => zi,
                None => {
                    return Err(ErrorReserva::ZonaNoEncontrada);
                },
            };
            proof {
                crate::modelo::lemma_indice_zona(a.categorias@[ci as int], zi as int);
            }
            let fi = match self.categorias[ci].zonas[zi].posicion_fila(r.fila) {
                Some(fi) => fi,
                None => {
                    return Err(ErrorReserva::FilaNoEncontrada);
                },
            };
            proof {
                crate::modelo::lemma_indice_fila(
                    a.categorias@[ci as int].zonas@[zi as int],
                    fi as int,
                );
            }
            let si = match self.categorias[ci].zonas[zi].filas[fi].posicion_silla(r.asiento) {
                Some(si) => si,
                None => {
                    return Err(ErrorReserva::SillaNoEncontrada);
                },
            };
            proof {
                assert(a.ref_apunta(refs@[k as int], ci as int, zi as int, fi as int, si as int));
                lemma_ref_apunta_resuelve(
                    a,
                    refs@[k as int],
                    ci as int,
                    zi as int,
                    fi as int,
                    si as int,
                );
            }
            let actual = self.categorias[ci].zonas[zi].filas[fi].sillas[si].estado;
            if !desde.tiene(actual) || !es_transicion_legal(actual, hacia) {
                return Err(ErrorReserva::EstadoIlegal);
            }
            pos.push((ci, zi, fi, si));
            k += 1;
        }
        // Segunda fase: todas pasaron; aplicar el lote.
        let mut k2: usize = 0;
        while k2 < pos.len()
            invariant
                a == *old(self),
                a.bien_formado(),
                k2 <= pos@.len(),
                pos@.len() == refs@.len(),
                forall|j: int|
                    0 <= j < refs@.len() ==> ref_transita(a, #[trigger] refs@[j], desde, hacia),
                forall|j: int|
                    0 <= j < refs@.len() ==> {
                        let p = #[trigger] pos@[j];
                        a.ref_apunta(refs@[j], p.0 as int, p.1 as int, p.2 as int, p.3 as int)
                    },
                tras_lote(a, *self, refs@.take(k2 as int), hacia),
            decreases pos@.len() - k2,
        {
            let ghost b = *self;
            let p = pos[k2];
            let ghost (ci, zi, fi, si) = (p.0 as int, p.1 as int, p.2 as int, p.3 as int);
            proof {
                assert(a.ref_apunta(refs@[k2 as int], ci, zi, fi, si));
                assert(misma_forma_categoria(a.categorias@[ci], b.categorias@[ci]));
                assert(misma_forma_zona(
                    a.categorias@[ci].zonas@[zi],
                    b.categorias@[ci].zonas@[zi],
                ));
                assert(misma_forma_fila(
                    a.categorias@[ci].zonas@[zi].filas@[fi],
                    b.categorias@[ci].zonas@[zi].filas@[fi],
                ));
            }
            self.categorias[p.0].zonas[p.1].filas[p.2].sillas[p.3].estado = hacia;
            proof {
                assert(silla_actualizada(b, *self, ci, zi, fi, si, hacia));
                lemma_lote_paso(a, b, *self, refs@, k2 as int, hacia, ci, zi, fi, si);
            }
            k2 += 1;
        }
        proof {
            assert(refs@.take(refs@.len() as int) =~= refs@);
            lemma_misma_forma_bien_formado(a, *self);
        }
        Ok(())
    }
}

/// `c` es `b` con la silla de la posición (ci, zi, fi, si) puesta a `hacia`
/// y nada más cambiado.
spec fn silla_actualizada(
    b: Estadio,
    c: Estadio,
    ci: int,
    zi: int,
    fi: int,
    si: int,
    hacia: EstadoSilla,
) -> bool {
    &&& b.pos_valida(ci, zi, fi, si)
    &&& c.categorias@.len() == b.categorias@.len()
    &&& forall|i: int|
        0 <= i < b.categorias@.len() && i != ci ==> #[trigger] c.categorias@[i]
            == b.categorias@[i]
    &&& c.categorias@[ci].nombre@ == b.categorias@[ci].nombre@
    &&& c.categorias@[ci].zonas@.len() == b.categorias@[ci].zonas@.len()
    &&& forall|i: int|
        0 <= i < b.categorias@[ci].zonas@.len() && i != zi ==> #[trigger] c.categorias@[
            ci
        ].zonas@[i] == b.categorias@[ci].zonas@[i]
    &&& c.categorias@[ci].zonas@[zi].nombre@ == b.categorias@[ci].zonas@[zi].nombre@
    &&& c.categorias@[ci].zonas@[zi].filas@.len() == b.categorias@[ci].zonas@[zi].filas@.len()
    &&& forall|i: int|
        0 <= i < b.categorias@[ci].zonas@[zi].filas@.len() && i != fi ==> #[trigger] c.categorias@[
            ci
        ].zonas@[zi].filas@[i] == b.categorias@[ci].zonas@[zi].filas@[i]
    &&& c.categorias@[ci].zonas@[zi].filas@[fi].numero == b.categorias@[ci].zonas@[
        zi
    ].filas@[fi].numero
    &&& c.categorias@[ci].zonas@[zi].filas@[fi].sillas@.len() == b.categorias@[ci].zonas@[
        zi
    ].filas@[fi].sillas@.len()
    &&& forall|i: int|
        0 <= i < b.categorias@[ci].zonas@[zi].filas@[fi].sillas@.len() && i != si
            ==> #[trigger] c.categorias@[ci].zonas@[zi].filas@[fi].sillas@[i] == b.categorias@[
            ci
        ].zonas@[zi].filas@[fi].sillas@[i]
    &&& c.silla_en(ci, zi, fi, si).numero == b.silla_en(ci, zi, fi, si).numero
    &&& c.silla_en(ci, zi, fi, si).estado == hacia
}

/// Un paso de la segunda fase: si `b` refleja el lote hasta `k` y `c` es `b`
/// con la silla a la que resuelve `refs[k]` puesta a `hacia`, entonces `c`
/// refleja el lote hasta `k + 1`.
proof fn lemma_lote_paso(
    a: Estadio,
    b: Estadio,
    c: Estadio,
    refs: Seq<RefAsiento>,
    k: int,
    hacia: EstadoSilla,
    ci: int,
    zi: int,
    fi: int,
    si: int,
)
    requires
        a.bien_formado(),
        0 <= k < refs.len(),
        tras_lote(a, b, refs.take(k), hacia),
        a.ref_apunta(refs[k], ci, zi, fi, si),
        silla_actualizada(b, c, ci, zi, fi, si, hacia),
    ensures
        tras_lote(a, c, refs.take(k + 1), hacia),
{
    // Misma forma: sólo cambió un estado, nunca el esqueleto.
    assert forall|i: int| 0 <= i < a.categorias@.len() implies misma_forma_categoria(
        #[trigger] a.categorias@[i],
        c.categorias@[i],
    ) by {
        assert(misma_forma_categoria(a.categorias@[i], b.categorias@[i]));
        if i == ci {
            let ca = a.categorias@[ci];
            let cb = b.categorias@[ci];
            let cc = c.categorias@[ci];
            assert forall|z: int| 0 <= z < ca.zonas@.len() implies misma_forma_zona(
                #[trigger] ca.zonas@[z],
                cc.zonas@[z],
            ) by {
                assert(misma_forma_zona(ca.zonas@[z], cb.zonas@[z]));
                if z == zi {
                    let za = ca.zonas@[zi];
                    let zb = cb.zonas@[zi];
                    let zc = cc.zonas@[zi];
                    assert forall|f: int| 0 <= f < za.filas@.len() implies misma_forma_fila(
                        #[trigger] za.filas@[f],
                        zc.filas@[f],
                    ) by {
                        assert(misma_forma_fila(za.filas@[f], zb.filas@[f]));
                        if f == fi {
                            let fa = za.filas@[fi];
                            let fb = zb.filas@[fi];
                            let fc = zc.filas@[fi];
                            assert forall|s: int| 0 <= s < fa.sillas@.len() implies (
                            #[trigger] fa.sillas@[s]).numero == fc.sillas@[s].numero by {
                                if s != si {
                                    assert(fc.sillas@[s] == fb.sillas@[s]);
                                }
                            }
                        }
                    }
                }
            }
        }
    }
    // Los estados: la silla tocada queda en `hacia` y es exactamente la
    // referida por `refs[k]`; el resto queda como estaba.
    assert forall|qc: int, qz: int, qf: int, qs: int| a.pos_valida(qc, qz, qf, qs) implies (
    #[trigger] c.silla_en(qc, qz, qf, qs)).estado == (if pos_referida(
        a,
        refs.take(k + 1),
        qc,
        qz,
        qf,
        qs,
    ) {
        hacia
    } else {
        a.silla_en(qc, qz, qf, qs).estado
    }) by {
        assert(b.silla_en(qc, qz, qf, qs).estado == (if pos_referida(
            a,
            refs.take(k),
            qc,
            qz,
            qf,
            qs,
        ) {
            hacia
        } else {
            a.silla_en(qc, qz, qf, qs).estado
        }));
        if qc == ci && qz == zi && qf == fi && qs == si {
            assert(refs.take(k + 1)[k] == refs[k]);
            assert(pos_referida(a, refs.take(k + 1), qc, qz, qf, qs));
        } else {
            // La silla no tocada conserva su valor de `b`.
            assert(c.silla_en(qc, qz, qf, qs) == b.silla_en(qc, qz, qf, qs)) by {
                if qc != ci {
                    assert(c.categorias@[qc] == b.categorias@[qc]);
                } else if qz != zi {
                    assert(c.categorias@[qc].zonas@[qz] == b.categorias@[qc].zonas@[qz]);
                } else if qf != fi {
                    assert(c.categorias@[qc].zonas@[qz].filas@[qf] == b.categorias@[qc].zonas@[
                        qz
                    ].filas@[qf]);
                } else {
                    assert(c.categorias@[qc].zonas@[qz].filas@[qf].sillas@[qs] == b.categorias@[
                        qc
                    ].zonas@[qz].filas@[qf].sillas@[qs]);
                }
            }
            // Y estar referida hasta `k + 1` equivale a estarlo hasta `k`.
            assert(pos_referida(a, refs.take(k + 1), qc, qz, qf, qs) == pos_referida(
                a,
                refs.take(k),
                qc,
                qz,
                qf,
                qs,
            )) by {
                if pos_referida(a, refs.take(k + 1), qc, qz, qf, qs) {
                    let j = choose|j: int|
                        0 <= j < refs.take(k + 1).len() && a.ref_apunta(
                            #[trigger] refs.take(k + 1)[j],
                            qc,
                            qz,
                            qf,
                            qs,
                        );
                    if j == k {
                        lemma_ref_apunta_unica(
                            a,
                            refs[k],
                            qc,
                            qz,
                            qf,
                            qs,
                            ci,
                            zi,
                            fi,
                            si,
                        );
                        assert(false);
                    } else {
                        assert(refs.take(k)[j] == refs.take(k + 1)[j]);
                        assert(pos_referida(a, refs.take(k), qc, qz, qf, qs));
                    }
                }
                if pos_referida(a, refs.take(k), qc, qz, qf, qs) {
                    let j = choose|j: int|
                        0 <= j < refs.take(k).len() && a.ref_apunta(
                            #[trigger] refs.take(k)[j],
                            qc,
                            qz,
                            qf,
                            qs,
                        );
                    assert(refs.take(k + 1)[j] == refs.take(k)[j]);
                    assert(pos_referida(a, refs.take(k + 1), qc, qz, qf, qs));
                }
            }
        }
    }
}

} // verus!
