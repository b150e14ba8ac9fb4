//! La búsqueda de asientos: primero una corrida contigua dentro de una fila
//! (primer hueco que sirva, en el orden canónico) y, si no la hay, la
//! acumulación dispersa de los primeros disponibles. Sólo lectura: quien
//! reserva es el coordinador.

use vstd::prelude::*;

use crate::estado::EstadoSilla;
use crate::modelo::Categoria;
use crate::modelo::ErrorReserva;
use crate::modelo::Estadio;
use crate::modelo::Fila;
use crate::modelo::RefAsiento;
use crate::vista::PuestoV;
use crate::vista::disponibles_categoria;
use crate::vista::filtrar_disponibles;
use crate::vista::lemma_filtrar_disponibles_push;
use crate::vista::lemma_vistas_filas_prefijo;
use crate::vista::lemma_vistas_zonas_prefijo;
use crate::vista::vista_categoria;
use crate::vista::vista_fila;
use crate::vista::vista_zona;
use crate::vista::vistas_filas;
use crate::vista::vistas_zonas;

verus! {

/// En la fila hay `q` sillas disponibles contiguas a partir de la posición
/// `i`; en una fila bien formada, posiciones contiguas son números de silla
/// contiguos.
pub open spec fn corrida_en(f: Fila, i: int, q: int) -> bool {
    &&& 0 <= i
    &&& i + q <= f.sillas@.len()
    &&& forall|j: int|
        i <= j < i + q ==> (#[trigger] f.sillas@[j]).estado == EstadoSilla::Disponible
}

pub open spec fn fila_con_corrida(f: Fila, q: int) -> bool {
    exists|i: int| corrida_en(f, i, q)
}

pub open spec fn zona_con_corrida(z: crate::modelo::Zona, q: int) -> bool {
    exists|fi: int| 0 <= fi < z.filas@.len() && fila_con_corrida(#[trigger] z.filas@[fi], q)
}

pub open spec fn categoria_con_corrida(c: Categoria, q: int) -> bool {
    exists|zi: int| 0 <= zi < c.zonas@.len() && zona_con_corrida(#[trigger] c.zonas@[zi], q)
}

/// (zi, fi, i) es el comienzo de la primera corrida de `q` en el orden
/// canónico: ninguna zona anterior tiene corrida, ninguna fila anterior de
/// esta zona la tiene y ninguna empieza antes dentro de la fila.
pub open spec fn primera_corrida(c: Categoria, q: int, zi: int, fi: int, i: int) -> bool {
    &&& 0 <= zi < c.zonas@.len()
    &&& 0 <= fi < c.zonas@[zi].filas@.len()
    &&& corrida_en(c.zonas@[zi].filas@[fi], i, q)
    &&& forall|z2: int| 0 <= z2 < zi ==> !zona_con_corrida(#[trigger] c.zonas@[z2], q)
    &&& forall|f2: int|
        0 <= f2 < fi ==> !fila_con_corrida(#[trigger] c.zonas@[zi].filas@[f2], q)
    &&& forall|i2: int| 0 <= i2 < i ==> !corrida_en(c.zonas@[zi].filas@[fi], i2, q)
}

/// Las referencias devueltas son las `q` sillas contiguas de la fila
/// (zi, fi) a partir de la posición `i`.
pub open spec fn refs_corrida(
    c: Categoria,
    refs: Seq<RefAsiento>,
    q: int,
    zi: int,
    fi: int,
    i: int,
) -> bool {
    &&& refs.len() == q
    &&& forall|k: int|
        0 <= k < q ==> {
            let r = #[trigger] refs[k];
            &&& r.categoria@ == c.nombre@
            &&& r.zona@ == c.zonas@[zi].nombre@
            &&& r.fila == c.zonas@[zi].filas@[fi].numero
            &&& r.asiento == c.zonas@[zi].filas@[fi].sillas@[i + k].numero
        }
}

/// La referencia `r` nombra el asiento `p` del listado de la categoría.
pub open spec fn coincide(r: RefAsiento, p: PuestoV, categoria: Seq<char>) -> bool {
    &&& r.categoria@ == categoria
    &&& r.zona@ == p.0
    &&& r.fila == p.1
    &&& r.asiento == p.2
}

/// Las referencias devueltas son los primeros `q` asientos disponibles de la
/// categoría, en el orden del listado.
pub open spec fn refs_dispersos(c: Categoria, refs: Seq<RefAsiento>, q: int) -> bool {
    &&& refs.len() == q
    &&& q <= disponibles_categoria(c).len()
    &&& forall|k: int|
        0 <= k < q ==> coincide(#[trigger] refs[k], disponibles_categoria(c)[k], c.nombre@)
}

/// El contrato completo de la búsqueda sobre una instantánea: cada error
/// exactamente en sus entradas, y el resultado de éxito determinado por la
/// instantánea.
pub open spec fn busqueda_correcta(
    e: Estadio,
    nombre: Seq<char>,
    cantidad: u32,
    maximo: u32,
    r: Result<Vec<RefAsiento>, ErrorReserva>,
) -> bool {
    if cantidad == 0 || cantidad > maximo {
        r == Result::<Vec<RefAsiento>, ErrorReserva>::Err(ErrorReserva::CantidadExcedeLimite)
    } else if !e.tiene_categoria(nombre) {
        r == Result::<Vec<RefAsiento>, ErrorReserva>::Err(ErrorReserva::CategoriaNoEncontrada)
    } else {
        let c = e.categoria_con(nombre);
        if disponibles_categoria(c).len() < cantidad {
            r == Result::<Vec<RefAsiento>, ErrorReserva>::Err(
                ErrorReserva::DisponibilidadInsuficiente,
            )
        } else {
            &&& r is Ok
            &&& (r matches Ok(refs) ==> {
                &&& forall|k: int|
                    0 <= k < refs@.len() ==> e.ref_valida(#[trigger] refs@[k]) && e.estado_ref(
                        refs@[k],
                    ) == EstadoSilla::Disponible
                &&& if categoria_con_corrida(c, cantidad as int) {
                    exists|zi: int, fi: int, i: int|
                        #[trigger] primera_corrida(c, cantidad as int, zi, fi, i) && refs_corrida(
                            c,
                            refs@,
                            cantidad as int,
                            zi,
                            fi,
                            i,
                        )
                } else {
                    refs_dispersos(c, refs@, cantidad as int)
                }
            })
        }
    }
}

/// Comprueba si las `q` sillas a partir de la posición `i` están todas
/// disponibles.
fn ventana_disponible(f: &Fila, i: usize, q: usize) -> (b: bool)
    requires
        i + q <= f.sillas@.len(),
    ensures
        b == corrida_en(*f, i as int, q as int),
{
    let n = f.sillas.len();
    let mut j: usize = 0;
    while j < q
        invariant
            n == f.sillas@.len(),
            i + q <= n,
            j <= q,
            forall|x: int|
                i <= x < i + j ==> (#[trigger] f.sillas@[x]).estado == EstadoSilla::Disponible,
        decreases q - j,
    {
        if f.sillas[i + j].estado != EstadoSilla::Disponible {
            assert(!corrida_en(*f, i as int, q as int));
            return false;
        }
        j += 1;
    }
    true
}

/// La primera posición de la fila donde empieza una corrida de `q`, si la
/// hay.
fn primera_corrida_fila(f: &Fila, q: usize) -> (r: Option<usize>)
    requires
        q >= 1,
    ensures
        r matches Some(i) ==> corrida_en(*f, i as int, q as int) && forall|i2: int|
            0 <= i2 < i ==> !corrida_en(*f, i2, q as int),
        r is None ==> !fila_con_corrida(*f, q as int),
{
    if f.sillas.len() < q {
        assert forall|i2: int| !corrida_en(*f, i2, q as int) by {}
        return None;
    }
    let n = f.sillas.len();
    let tope = n - q;
    let mut i: usize = 0;
    while i <= tope
        invariant
            q >= 1,
            n == f.sillas@.len(),
            q <= n,
            tope == n - q,
            i <= tope + 1,
            forall|i2: int| 0 <= i2 < i ==> !corrida_en(*f, i2, q as int),
        decreases tope + 1 - i,
    {
        if ventana_disponible(f, i, q) {
            return Some(i);
        }
        i += 1;
    }
    assert forall|i2: int| !corrida_en(*f, i2, q as int) by {
        if 0 <= i2 <= tope {
            assert(!corrida_en(*f, i2, q as int));
        }
    }
    None
}

impl Estadio {
    /// Busca `cantidad` asientos en la categoría `nombre` sobre la
    /// instantánea actual, sin mutar nada. Rechaza con
    /// `CantidadExcedeLimite` una cantidad nula o mayor que `maximo`, con
    /// `CategoriaNoEncontrada` un nombre desconocido y con
    /// `DisponibilidadInsuficiente` una categoría con menos de `cantidad`
    /// asientos disponibles; si no, devuelve la primera corrida contigua de
    /// `cantidad` sillas en el orden canónico o, a falta de corrida, los
    /// primeros `cantidad` asientos disponibles en ese mismo orden.
    pub fn buscar_asientos(&self, nombre: &String, cantidad: u32, maximo: u32) -> (r: Result<
        Vec<RefAsiento>,
        ErrorReserva,
    >)
        requires
            self.bien_formado(),
        ensures
            busqueda_correcta(*self, nombre@, cantidad, maximo, r),
    {
        if cantidad == 0 || cantidad > maximo {
            return Err(ErrorReserva::CantidadExcedeLimite);
        }
        let ci = match self.posicion_categoria(nombre) {
            Some(ci) => ci,
            None => {
                return Err(ErrorReserva::CategoriaNoEncontrada);
            },
        };
        proof {
            crate::modelo::lemma_indice_categoria(*self, ci as int);
        }
        let ghost cv = self.categorias@[ci as int];
        let c = &self.categorias[ci];
        let q = cantidad as usize;
        proof {
            assert(self.categoria_con(nombre@) == cv);
        }
        // Primer paso: acumular los primeros `q` disponibles en el orden
        // canónico; de paso se sabe si la disponibilidad alcanza.
        let mut sueltos: Vec<RefAsiento> = Vec::new();
        let ghost mut procesado: Seq<PuestoV> = Seq::empty();
        proof {
            reveal(Seq::filter);
            assert(cv.zonas@.take(0) =~= Seq::<crate::modelo::Zona>::empty());
            assert(vistas_zonas(cv.zonas@.take(0)) =~= Seq::<Seq<PuestoV>>::empty());
            assert(procesado =~= vistas_zonas(cv.zonas@.take(0)).flatten());
            assert(filtrar_disponibles(procesado) =~= Seq::<PuestoV>::empty());
        }
        let mut zi: usize = 0;
        while zi < c.zonas.len()
            invariant
                self.bien_formado(),
                ci < self.categorias@.len(),
                cv == self.categorias@[ci as int],
                *c == cv,
                cv.bien_formada(),
                cv.nombre@ == nombre@,
                q == cantidad as usize,
                q >= 1,
                zi <= cv.zonas@.len(),
                procesado == vistas_zonas(cv.zonas@.take(zi as int)).flatten(),
                sueltos@.len() == (if filtrar_disponibles(procesado).len() < q {
                    filtrar_disponibles(procesado).len()
                } else {
                    q as nat
                }),
                forall|k: int|
                    0 <= k < sueltos@.len() ==> coincide(
                        #[trigger] sueltos@[k],
                        filtrar_disponibles(procesado)[k],
                        cv.nombre@,
                    ) && self.ref_valida(sueltos@[k]) && self.estado_ref(sueltos@[k])
                        == EstadoSilla::Disponible,
            decreases cv.zonas@.len() - zi,
        {
            let ghost zv = cv.zonas@[zi as int];
            let ghost proc_zona = procesado;
            let z = &c.zonas[zi];
            proof {
                assert(zv.filas@.take(0) =~= Seq::<Fila>::empty());
                assert(vistas_filas(zv.nombre@, zv.filas@.take(0)) =~= Seq::<Seq<PuestoV>>::empty());
                assert(vistas_filas(zv.nombre@, zv.filas@.take(0)).flatten() =~= Seq::<
                    PuestoV,
                >::empty());
            }
            let mut fi: usize = 0;
            while fi < z.filas.len()
                invariant
                    self.bien_formado(),
                    ci < self.categorias@.len(),
                    cv == self.categorias@[ci as int],
                    *c == cv,
                    cv.bien_formada(),
                    cv.nombre@ == nombre@,
                    q == cantidad as usize,
                    q >= 1,
                    zi < cv.zonas@.len(),
                    *z == zv,
                    zv == cv.zonas@[zi as int],
                    proc_zona == vistas_zonas(cv.zonas@.take(zi as int)).flatten(),
                    fi <= zv.filas@.len(),
                    procesado == proc_zona + vistas_filas(
                        zv.nombre@,
                        zv.filas@.take(fi as int),
                    ).flatten(),
                    sueltos@.len() == (if filtrar_disponibles(procesado).len() < q {
                        filtrar_disponibles(procesado).len()
                    } else {
                        q as nat
                    }),
                    forall|k: int|
                        0 <= k < sueltos@.len() ==> coincide(
                            #[trigger] sueltos@[k],
                            filtrar_disponibles(procesado)[k],
                            cv.nombre@,
                        ) && self.ref_valida(sueltos@[k]) && self.estado_ref(sueltos@[k])
                            == EstadoSilla::Disponible,
                decreases zv.filas@.len() - fi,
            {
                let ghost fv = zv.filas@[fi as int];
                let ghost proc_fila = procesado;
                let f = &z.filas[fi];
                proof {
                    assert(vista_fila(zv.nombre@, fv).take(0) =~= Seq::<PuestoV>::empty());
                }
                let mut si: usize = 0;
                while si < f.sillas.len()
                    invariant
                        self.bien_formado(),
                        ci < self.categorias@.len(),
                        cv == self.categorias@[ci as int],
                        *c == cv,
                        cv.bien_formada(),
                        cv.nombre@ == nombre@,
                        q == cantidad as usize,
                        q >= 1,
                        zi < cv.zonas@.len(),
                        *z == zv,
                        zv == cv.zonas@[zi as int],
                        fi < zv.filas@.len(),
                        *f == fv,
                        fv == zv.filas@[fi as int],
                        proc_fila == vistas_zonas(cv.zonas@.take(zi as int)).flatten()
                            + vistas_filas(zv.nombre@, zv.filas@.take(fi as int)).flatten(),
                        si <= fv.sillas@.len(),
                        procesado == proc_fila + vista_fila(zv.nombre@, fv).take(si as int),
                        sueltos@.len() == (if filtrar_disponibles(procesado).len() < q {
                            filtrar_disponibles(procesado).len()
                        } else {
                            q as nat
                        }),
                        forall|k: int|
                            0 <= k < sueltos@.len() ==> coincide(
                                #[trigger] sueltos@[k],
                                filtrar_disponibles(procesado)[k],
                                cv.nombre@,
                            ) && self.ref_valida(sueltos@[k]) && self.estado_ref(sueltos@[k])
                                == EstadoSilla::Disponible,
                    decreases fv.sillas@.len() - si,
                {
                    let s = f.sillas[si];
                    let ghost p: PuestoV = (zv.nombre@, fv.numero, s.numero, s.estado);
                    if s.estado == EstadoSilla::Disponible && sueltos.len() < q {
                        sueltos.push(
                            RefAsiento {
                                categoria: c.nombre.clone(),
                                zona: z.nombre.clone(),
                                fila: f.numero,
                                asiento: s.numero,
                            },
                        );
                        proof {
                            let nuevo = sueltos@[sueltos@.len() - 1];
                            assert(self.ref_apunta(
                                nuevo,
                                ci as int,
                                zi as int,
                                fi as int,
                                si as int,
                            ));
                            crate::modelo::lemma_ref_apunta_resuelve(
                                *self,
                                nuevo,
                                ci as int,
                                zi as int,
                                fi as int,
                                si as int,
                            );
                        }
                    }
                    proof {
                        lemma_filtrar_disponibles_push(procesado, p);
                        assert(vista_fila(zv.nombre@, fv).take(si + 1) =~= vista_fila(
                            zv.nombre@,
                            fv,
                        ).take(si as int).push(p));
                        procesado = procesado.push(p);
                    }
                    si += 1;
                }
                proof {
                    assert(vista_fila(zv.nombre@, fv).take(fv.sillas@.len() as int) =~= vista_fila(
                        zv.nombre@,
                        fv,
                    ));
                    lemma_vistas_filas_prefijo(zv.nombre@, zv.filas@, fi as int);
                }
                fi += 1;
            }
            proof {
                assert(zv.filas@.take(zv.filas@.len() as int) =~= zv.filas@);
                assert(procesado == proc_zona + vista_zona(zv));
                lemma_vistas_zonas_prefijo(cv.zonas@, zi as int);
            }
            zi += 1;
        }
        proof {
            assert(cv.zonas@.take(cv.zonas@.len() as int) =~= cv.zonas@);
            assert(procesado == vista_categoria(cv));
        }
        if sueltos.len() < q {
            return Err(ErrorReserva::DisponibilidadInsuficiente);
        }
        proof {
            assert(disponibles_categoria(cv).len() >= q);
            assert(refs_dispersos(cv, sueltos@, cantidad as int));
        }
        // Segundo paso: buscar la primera corrida contigua en el orden
        // canónico; si la hay, tiene prioridad sobre la acumulación
        // dispersa.
        let mut zc: usize = 0;
        while zc < c.zonas.len()
            invariant
                self.bien_formado(),
                ci < self.categorias@.len(),
                cv == self.categorias@[ci as int],
                *c == cv,
                cv.bien_formada(),
                cv.nombre@ == nombre@,
                q == cantidad as usize,
                q >= 1,
                cantidad <= maximo,
                zc <= cv.zonas@.len(),
                disponibles_categoria(cv).len() >= q,
                refs_dispersos(cv, sueltos@, cantidad as int),
                forall|z2: int|
                    0 <= z2 < zc ==> !zona_con_corrida(#[trigger] cv.zonas@[z2], cantidad as int),
            decreases cv.zonas@.len() - zc,
        {
            let ghost zv = cv.zonas@[zc as int];
            let z = &c.zonas[zc];
            let mut fc: usize = 0;
            while fc < z.filas.len()
                invariant
                    self.bien_formado(),
                    ci < self.categorias@.len(),
                    cv == self.categorias@[ci as int],
                    *c == cv,
                    cv.bien_formada(),
                    cv.nombre@ == nombre@,
                    q == cantidad as usize,
                    q >= 1,
                    cantidad <= maximo,
                    zc < cv.zonas@.len(),
                    *z == zv,
                    zv == cv.zonas@[zc as int],
                    fc <= zv.filas@.len(),
                    disponibles_categoria(cv).len() >= q,
                    refs_dispersos(cv, sueltos@, cantidad as int),
                    forall|z2: int|
                        0 <= z2 < zc ==> !zona_con_corrida(
                            #[trigger] cv.zonas@[z2],
                            cantidad as int,
                        ),
                    forall|f2: int|
                        0 <= f2 < fc ==> !fila_con_corrida(
                            #[trigger] zv.filas@[f2],
                            cantidad as int,
                        ),
                decreases zv.filas@.len() - fc,
            {
                let ghost fv = zv.filas@[fc as int];
                let f = &z.filas[fc];
                if let Some(i) = primera_corrida_fila(f, q) {
                    let mut refs: Vec<RefAsiento> = Vec::new();
                    let mut k: usize = 0;
                    while k < q
                        invariant
                            self.bien_formado(),
                            ci < self.categorias@.len(),
                            cv == self.categorias@[ci as int],
                            *c == cv,
                            cv.bien_formada(),
                            cv.nombre@ == nombre@,
                            q == cantidad as usize,
                            zc < cv.zonas@.len(),
                            *z == zv,
                            zv == cv.zonas@[zc as int],
                            fc < zv.filas@.len(),
                            *f == fv,
                            fv == zv.filas@[fc as int],
                            corrida_en(fv, i as int, q as int),
                            i + q <= fv.sillas@.len(),
                            k <= q,
                            refs@.len() == k,
                            forall|j: int|
                                0 <= j < k ==> {
                                    let r = #[trigger] refs@[j];
                                    &&& r.categoria@ == cv.nombre@
                                    &&& r.zona@ == zv.nombre@
                                    &&& r.fila == fv.numero
                                    &&& r.asiento == fv.sillas@[i + j].numero
                                    &&& self.ref_valida(r)
                                    &&& self.estado_ref(r) == EstadoSilla::Disponible
                                },
                        decreases q - k,
                    {
                        refs.push(
                            RefAsiento {
                                categoria: c.nombre.clone(),
                                zona: z.nombre.clone(),
                                fila: f.numero,
                                asiento: f.sillas[i + k].numero,
                            },
                        );
                        proof {
                            let nuevo = refs@[refs@.len() - 1];
                            assert(self.ref_apunta(
                                nuevo,
                                ci as int,
                                zc as int,
                                fc as int,
                                i + k,
                            ));
                            crate::modelo::lemma_ref_apunta_resuelve(
                                *self,
                                nuevo,
                                ci as int,
                                zc as int,
                                fc as int,
                                i + k,
                            );
                        }
                        k += 1;
                    }
                    proof {
                        crate::modelo::lemma_indice_categoria(*self, ci as int);
                        assert(self.categoria_con(nombre@) == cv);
                        assert(primera_corrida(
                            cv,
                            cantidad as int,
                            zc as int,
                            fc as int,
                            i as int,
                        ));
                        assert(refs_corrida(
                            cv,
                            refs@,
                            cantidad as int,
                            zc as int,
                            fc as int,
                            i as int,
                        ));
                        assert(fila_con_corrida(zv.filas@[fc as int], cantidad as int));
                        assert(zona_con_corrida(cv.zonas@[zc as int], cantidad as int));
                        assert(categoria_con_corrida(cv, cantidad as int));
                    }
                    return Ok(refs);
                }
                fc += 1;
            }
            proof {
                assert forall|f2: int| 0 <= f2 < zv.filas@.len() implies !fila_con_corrida(
                    #[trigger] zv.filas@[f2],
                    cantidad as int,
                ) by {}
                assert(!zona_con_corrida(cv.zonas@[zc as int], cantidad as int));
            }
            zc += 1;
        }
        proof {
            assert(!categoria_con_corrida(cv, cantidad as int));
        }
        Ok(sueltos)
    }
}

} // verus!
