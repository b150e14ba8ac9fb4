//! La semilla declarativa con que se construye el recinto y su
//! constructor determinista: nombres de categorías y zonas, número y rango
//! de cada fila y estado inicial de cada silla (para poder sembrar datos de
//! demostración no disponibles).

use vstd::prelude::*;

use crate::estado::EstadoSilla;
use crate::modelo::Categoria;
use crate::modelo::Estadio;
use crate::modelo::Fila;
use crate::modelo::Silla;
use crate::modelo::Zona;

verus! {

/// Una fila de la semilla: su número, el número de su primera silla y el
/// estado inicial de cada silla; la silla `i` recibe el número
/// `primer_asiento + i`.
pub struct SemillaFila {
    pub numero: u32,
    pub primer_asiento: u32,
    pub estados: Vec<EstadoSilla>,
}

pub struct SemillaZona {
    pub nombre: String,
    pub filas: Vec<SemillaFila>,
}

pub struct SemillaCategoria {
    pub nombre: String,
    pub zonas: Vec<SemillaZona>,
}

/// La semilla completa del recinto.
pub struct Semilla {
    pub categorias: Vec<SemillaCategoria>,
}

impl SemillaFila {
    /// Los números de silla caben en `u32`.
    pub open spec fn bien_formada(self) -> bool {
        self.primer_asiento + self.estados@.len() <= u32::MAX + 1
    }
}

impl SemillaZona {
    /// Filas con números estrictamente crecientes y cada una bien formada.
    pub open spec fn bien_formada(self) -> bool {
        &&& forall|i: int|
            0 <= i < self.filas@.len() ==> (#[trigger] self.filas@[i]).bien_formada()
        &&& forall|i: int, j: int|
            0 <= i < j < self.filas@.len() ==> (#[trigger] self.filas@[i]).numero < (
            #[trigger] self.filas@[j]).numero
    }
}

impl SemillaCategoria {
    /// Zonas bien formadas y con nombres distintos dos a dos.
    pub open spec fn bien_formada(self) -> bool {
        &&& forall|i: int|
            0 <= i < self.zonas@.len() ==> (#[trigger] self.zonas@[i]).bien_formada()
        &&& forall|i: int, j: int|
            0 <= i < j < self.zonas@.len() ==> (#[trigger] self.zonas@[i]).nombre@ != (
            #[trigger] self.zonas@[j]).nombre@
    }
}

impl Semilla {
    /// Categorías bien formadas y con nombres distintos dos a dos.
    pub open spec fn bien_formada(self) -> bool {
        &&& forall|i: int|
            0 <= i < self.categorias@.len() ==> (#[trigger] self.categorias@[i]).bien_formada()
        &&& forall|i: int, j: int|
            0 <= i < j < self.categorias@.len() ==> (#[trigger] self.categorias@[i]).nombre@ != (
            #[trigger] self.categorias@[j]).nombre@
    }

    /// El recinto construido refleja la semilla exactamente.
    pub open spec fn corresponde(self, e: Estadio) -> bool {
        &&& e.categorias@.len() == self.categorias@.len()
        &&& forall|i: int|
            0 <= i < self.categorias@.len() ==> corresponde_categoria(
                #[trigger] self.categorias@[i],
                e.categorias@[i],
            )
    }
}

pub open spec fn corresponde_fila(sf: SemillaFila, f: Fila) -> bool {
    &&& f.numero == sf.numero
    &&& f.sillas@.len() == sf.estados@.len()
    &&& forall|i: int|
        0 <= i < sf.estados@.len() ==> (#[trigger] f.sillas@[i]).numero == sf.primer_asiento + i
            && f.sillas@[i].estado == sf.estados@[i]
}

pub open spec fn corresponde_zona(sz: SemillaZona, z: Zona) -> bool {
    &&& z.nombre@ == sz.nombre@
    &&& z.filas@.len() == sz.filas@.len()
    &&& forall|i: int|
        0 <= i < sz.filas@.len() ==> corresponde_fila(#[trigger] sz.filas@[i], z.filas@[i])
}

pub open spec fn corresponde_categoria(sc: SemillaCategoria, c: Categoria) -> bool {
    &&& c.nombre@ == sc.nombre@
    &&& c.zonas@.len() == sc.zonas@.len()
    &&& forall|i: int|
        0 <= i < sc.zonas@.len() ==> corresponde_zona(#[trigger] sc.zonas@[i], c.zonas@[i])
}

/// Un recinto que refleja una semilla bien formada está bien formado.
pub proof fn lemma_corresponde_bien_formado(s: Semilla, e: Estadio)
    requires
        s.bien_formada(),
        s.corresponde(e),
    ensures
        e.bien_formado(),
{
    assert forall|i: int| 0 <= i < e.categorias@.len() implies (
    #[trigger] e.categorias@[i]).bien_formada() by {
        let sc = s.categorias@[i];
        let c = e.categorias@[i];
        assert(corresponde_categoria(sc, c));
        assert forall|z: int| 0 <= z < c.zonas@.len() implies (
        #[trigger] c.zonas@[z]).bien_formada() by {
            let sz = sc.zonas@[z];
            assert(corresponde_zona(sz, c.zonas@[z]));
            assert forall|f: int| 0 <= f < c.zonas@[z].filas@.len() implies (
            #[trigger] c.zonas@[z].filas@[f]).bien_formada() by {
                let sf = sz.filas@[f];
                assert(corresponde_fila(sf, c.zonas@[z].filas@[f]));
                let fila = c.zonas@[z].filas@[f];
                assert forall|x: int| 0 <= x < fila.sillas@.len() implies (
                #[trigger] fila.sillas@[x]).numero == fila.sillas@[0].numero + x by {
                    assert(fila.sillas@[x].numero == sf.primer_asiento + x);
                    assert(fila.sillas@[0].numero == sf.primer_asiento + 0);
                }
            }
            assert forall|x: int, y: int| 0 <= x < y < c.zonas@[z].filas@.len() implies (
            #[trigger] c.zonas@[z].filas@[x]).numero < (#[trigger] c.zonas@[z].filas@[y]).numero
                by {
                assert(corresponde_fila(sz.filas@[x], c.zonas@[z].filas@[x]));
                assert(corresponde_fila(sz.filas@[y], c.zonas@[z].filas@[y]));
                assert(sz.filas@[x].numero < sz.filas@[y].numero);
            }
        }
        assert forall|x: int, y: int| 0 <= x < y < c.zonas@.len() implies (
        #[trigger] c.zonas@[x]).nombre@ != (#[trigger] c.zonas@[y]).nombre@ by {
            assert(corresponde_zona(sc.zonas@[x], c.zonas@[x]));
            assert(corresponde_zona(sc.zonas@[y], c.zonas@[y]));
            assert(sc.zonas@[x].nombre@ != sc.zonas@[y].nombre@);
        }
    }
    assert forall|x: int, y: int| 0 <= x < y < e.categorias@.len() implies (
    #[trigger] e.categorias@[x]).nombre@ != (#[trigger] e.categorias@[y]).nombre@ by {
        assert(corresponde_categoria(s.categorias@[x], e.categorias@[x]));
        assert(corresponde_categoria(s.categorias@[y], e.categorias@[y]));
        assert(s.categorias@[x].nombre@ != s.categorias@[y].nombre@);
    }
}

fn construir_fila(sf: &SemillaFila) -> (f: Fila)
    requires
        sf.bien_formada(),
    ensures
        corresponde_fila(*sf, f),
{
    let mut sillas: Vec<Silla> = Vec::new();
    let mut si: usize = 0;
    while si < sf.estados.len()
        invariant
            sf.bien_formada(),
            si <= sf.estados@.len(),
            sillas@.len() == si,
            forall|j: int|
                0 <= j < si ==> (#[trigger] sillas@[j]).numero == sf.primer_asiento + j
                    && sillas@[j].estado == sf.estados@[j],
        decreases sf.estados@.len() - si,
    {
        proof {
            assert(sf.primer_asiento + si <= u32::MAX);
        }
        let numero: u32 = sf.primer_asiento + (si as u32);
        sillas.push(Silla { numero, estado: sf.estados[si] });
        si += 1;
    }
    Fila { numero: sf.numero, sillas }
}

fn construir_zona(sz: &SemillaZona) -> (z: Zona)
    requires
        sz.bien_formada(),
    ensures
        corresponde_zona(*sz, z),
{
    let mut filas: Vec<Fila> = Vec::new();
    let mut fi: usize = 0;
    while fi < sz.filas.len()
        invariant
            sz.bien_formada(),
            fi <= sz.filas@.len(),
            filas@.len() == fi,
            forall|j: int|
                0 <= j < fi ==> corresponde_fila(sz.filas@[j], #[trigger] filas@[j]),
        decreases sz.filas@.len() - fi,
    {
        filas.push(construir_fila(&sz.filas[fi]));
        fi += 1;
    }
    Zona { nombre: sz.nombre.clone(), filas }
}

fn construir_categoria(sc: &SemillaCategoria) -> (c: Categoria)
    requires
        sc.bien_formada(),
    ensures
        corresponde_categoria(*sc, c),
{
    let mut zonas: Vec<Zona> = Vec::new();
    let mut zi: usize = 0;
    while zi < sc.zonas.len()
        invariant
            sc.bien_formada(),
            zi <= sc.zonas@.len(),
            zonas@.len() == zi,
            forall|j: int|
                0 <= j < zi ==> corresponde_zona(sc.zonas@[j], #[trigger] zonas@[j]),
        decreases sc.zonas@.len() - zi,
    {
        zonas.push(construir_zona(&sc.zonas[zi]));
        zi += 1;
    }
    Categoria { nombre: sc.nombre.clone(), zonas }
}

/// Construye el recinto a partir de una semilla bien formada. Determinista:
/// el recinto refleja la semilla campo a campo, y queda bien formado.
pub fn inicializar(semilla: &Semilla) -> (e: Estadio)
    requires
        semilla.bien_formada(),
    ensures
        e.bien_formado(),
        semilla.corresponde(e),
{
    let mut categorias: Vec<Categoria> = Vec::new();
    let mut ci: usize = 0;
    while ci < semilla.categorias.len()
        invariant
            semilla.bien_formada(),
            ci <= semilla.categorias@.len(),
            categorias@.len() == ci,
            forall|j: int|
                0 <= j < ci ==> corresponde_categoria(
                    semilla.categorias@[j],
                    #[trigger] categorias@[j],
                ),
        decreases semilla.categorias@.len() - ci,
    {
        categorias.push(construir_categoria(&semilla.categorias[ci]));
        ci += 1;
    }
    let e = Estadio { categorias };
    proof {
        lemma_corresponde_bien_formado(*semilla, e);
    }
    e
}

/// Estado inicial de demostración de la fila baja (sillas 1 a 10).
pub open spec fn estado_inicial_fila_uno(n: u32) -> EstadoSilla {
    if n % 5 == 0 {
        EstadoSilla::Reservada
    } else if n % 5 == 1 {
        EstadoSilla::Comprada
    } else {
        EstadoSilla::Disponible
    }
}

/// Estado inicial de demostración de la fila alta (sillas 11 a 20).
pub open spec fn estado_inicial_fila_dos(n: u32) -> EstadoSilla {
    if n % 6 == 0 {
        EstadoSilla::Comprada
    } else if n % 6 == 1 {
        EstadoSilla::Reservada
    } else {
        EstadoSilla::Disponible
    }
}

fn calcular_estado_fila_uno(n: u32) -> (e: EstadoSilla)
    ensures
        e == estado_inicial_fila_uno(n),
{
    if n % 5 == 0 {
        EstadoSilla::Reservada
    } else if n % 5 == 1 {
        EstadoSilla::Comprada
    } else {
        EstadoSilla::Disponible
    }
}

fn calcular_estado_fila_dos(n: u32) -> (e: EstadoSilla)
    ensures
        e == estado_inicial_fila_dos(n),
{
    if n % 6 == 0 {
        EstadoSilla::Comprada
    } else if n % 6 == 1 {
        EstadoSilla::Reservada
    } else {
        EstadoSilla::Disponible
    }
}

/// El nombre de la categoría `i` del recinto de demostración.
pub open spec fn nombre_categoria_demo(i: int) -> Seq<char> {
    if i == 0 {
        "Platea Este"@
    } else if i == 1 {
        "Platea Oeste"@
    } else if i == 2 {
        "General Norte"@
    } else {
        "General Sur"@
    }
}

/// El nombre de la zona `i` de cada categoría de demostración.
pub open spec fn nombre_zona_demo(i: int) -> Seq<char> {
    if i == 0 {
        "Zona A"@
    } else if i == 1 {
        "Zona B"@
    } else {
        "Zona C"@
    }
}

/// La forma de cada zona del recinto de demostración: dos filas de diez
/// sillas, la fila 1 con las sillas 1 a 10 y la fila 2 con las 11 a 20,
/// sembradas con los estados de demostración.
pub open spec fn zona_demo(z: Zona, zi: int) -> bool {
    &&& z.nombre@ == nombre_zona_demo(zi)
    &&& z.filas@.len() == 2
    &&& z.filas@[0].numero == 1
    &&& z.filas@[0].sillas@.len() == 10
    &&& forall|i: int|
        0 <= i < 10 ==> (#[trigger] z.filas@[0].sillas@[i]).numero == i + 1
            && z.filas@[0].sillas@[i].estado == estado_inicial_fila_uno((i + 1) as u32)
    &&& z.filas@[1].numero == 2
    &&& z.filas@[1].sillas@.len() == 10
    &&& forall|i: int|
        0 <= i < 10 ==> (#[trigger] z.filas@[1].sillas@[i]).numero == i + 11
            && z.filas@[1].sillas@[i].estado == estado_inicial_fila_dos((i + 11) as u32)
}

/// La forma de cada categoría de demostración: tres zonas iguales.
pub open spec fn categoria_demo(c: Categoria, ci: int) -> bool {
    &&& c.nombre@ == nombre_categoria_demo(ci)
    &&& c.zonas@.len() == 3
    &&& forall|zi: int| 0 <= zi < 3 ==> zona_demo(#[trigger] c.zonas@[zi], zi)
}

fn semilla_fila_demo(numero: u32, primer: u32, fila_uno: bool) -> (sf: SemillaFila)
    requires
        primer + 10 <= u32::MAX,
    ensures
        sf.numero == numero,
        sf.primer_asiento == primer,
        sf.estados@.len() == 10,
        sf.bien_formada(),
        forall|i: int|
            0 <= i < 10 ==> #[trigger] sf.estados@[i] == (if fila_uno {
                estado_inicial_fila_uno((primer + i) as u32)
            } else {
                estado_inicial_fila_dos((primer + i) as u32)
            }),
{
    let mut estados: Vec<EstadoSilla> = Vec::new();
    let mut i: usize = 0;
    while i < 10
        invariant
            primer + 10 <= u32::MAX,
            i <= 10,
            estados@.len() == i,
            forall|j: int|
                0 <= j < i ==> #[trigger] estados@[j] == (if fila_uno {
                    estado_inicial_fila_uno((primer + j) as u32)
                } else {
                    estado_inicial_fila_dos((primer + j) as u32)
                }),
        decreases 10 - i,
    {
        let n: u32 = primer + (i as u32);
        if fila_uno {
            estados.push(calcular_estado_fila_uno(n));
        } else {
            estados.push(calcular_estado_fila_dos(n));
        }
        i += 1;
    }
    SemillaFila { numero, primer_asiento: primer, estados }
}

fn semilla_zona_demo(nombre: String) -> (sz: SemillaZona)
    ensures
        sz.nombre@ == nombre@,
        sz.bien_formada(),
        sz.filas@.len() == 2,
        sz.filas@[0].numero == 1,
        sz.filas@[0].primer_asiento == 1,
        sz.filas@[0].estados@.len() == 10,
        forall|i: int|
            0 <= i < 10 ==> #[trigger] sz.filas@[0].estados@[i] == estado_inicial_fila_uno(
                (i + 1) as u32,
            ),
        sz.filas@[1].numero == 2,
        sz.filas@[1].primer_asiento == 11,
        sz.filas@[1].estados@.len() == 10,
        forall|i: int|
            0 <= i < 10 ==> #[trigger] sz.filas@[1].estados@[i] == estado_inicial_fila_dos(
                (i + 11) as u32,
            ),
{
    let mut filas: Vec<SemillaFila> = Vec::new();
    filas.push(semilla_fila_demo(1, 1, true));
    filas.push(semilla_fila_demo(2, 11, false));
    SemillaZona { nombre, filas }
}

fn semilla_categoria_demo(nombre: String) -> (sc: SemillaCategoria)
    ensures
        sc.nombre@ == nombre@,
        sc.bien_formada(),
        sc.zonas@.len() == 3,
        forall|zi: int|
            0 <= zi < 3 ==> (#[trigger] sc.zonas@[zi]).nombre@ == nombre_zona_demo(zi),
        forall|zi: int|
            0 <= zi < 3 ==> {
                let sz = #[trigger] sc.zonas@[zi];
                &&& sz.filas@.len() == 2
                &&& sz.filas@[0].numero == 1
                &&& sz.filas@[0].primer_asiento == 1
                &&& sz.filas@[0].estados@.len() == 10
                &&& (forall|i: int|
                    0 <= i < 10 ==> #[trigger] sz.filas@[0].estados@[i] == estado_inicial_fila_uno(
                        (i + 1) as u32,
                    ))
                &&& sz.filas@[1].numero == 2
                &&& sz.filas@[1].primer_asiento == 11
                &&& sz.filas@[1].estados@.len() == 10
                &&& (forall|i: int|
                    0 <= i < 10 ==> #[trigger] sz.filas@[1].estados@[i] == estado_inicial_fila_dos(
                        (i + 11) as u32,
                    ))
            },
{
    let mut zonas: Vec<SemillaZona> = Vec::new();
    zonas.push(semilla_zona_demo("Zona A".to_owned()));
    zonas.push(semilla_zona_demo("Zona B".to_owned()));
    zonas.push(semilla_zona_demo("Zona C".to_owned()));
    proof {
        reveal_strlit("Zona A");
        reveal_strlit("Zona B");
        reveal_strlit("Zona C");
        assert("Zona A"@[5] == 'A' && "Zona B"@[5] == 'B' && "Zona C"@[5] == 'C');
        assert("Zona A"@ != "Zona B"@ && "Zona A"@ != "Zona C"@ && "Zona B"@ != "Zona C"@);
    }
    SemillaCategoria { nombre, zonas }
}

/// Construye el recinto de demostración: cuatro categorías, cada una con
/// las zonas A, B y C, y cada zona con las filas 1 (sillas 1 a 10) y 2
/// (sillas 11 a 20), sembradas con los estados de demostración.
pub fn inicializar_mapeo() -> (e: Estadio)
    ensures
        e.bien_formado(),
        e.categorias@.len() == 4,
        forall|ci: int| 0 <= ci < 4 ==> categoria_demo(#[trigger] e.categorias@[ci], ci),
{
    let mut categorias: Vec<SemillaCategoria> = Vec::new();
    categorias.push(semilla_categoria_demo("Platea Este".to_owned()));
    categorias.push(semilla_categoria_demo("Platea Oeste".to_owned()));
    categorias.push(semilla_categoria_demo("General Norte".to_owned()));
    categorias.push(semilla_categoria_demo("General Sur".to_owned()));
    proof {
        reveal_strlit("Platea Este");
        reveal_strlit("Platea Oeste");
        reveal_strlit("General Norte");
        reveal_strlit("General Sur");
        assert("Platea Este"@.len() == 11 && "Platea Oeste"@.len() == 12 && "General Norte"@.len()
            == 13 && "General Sur"@.len() == 11);
        assert("Platea Este"@[0] == 'P' && "General Sur"@[0] == 'G');
        assert("Platea Este"@ != "Platea Oeste"@);
        assert("Platea Este"@ != "General Norte"@);
        assert("Platea Este"@ != "General Sur"@);
        assert("Platea Oeste"@ != "General Norte"@);
        assert("Platea Oeste"@ != "General Sur"@);
        assert("General Norte"@ != "General Sur"@);
    }
    let semilla = Semilla { categorias };
    let e = inicializar(&semilla);
    proof {
        assert forall|ci: int| 0 <= ci < 4 implies categoria_demo(
            #[trigger] e.categorias@[ci],
            ci,
        ) by {
            let sc = semilla.categorias@[ci];
            let c = e.categorias@[ci];
            assert(corresponde_categoria(sc, c));
            assert forall|zi: int| 0 <= zi < 3 implies zona_demo(#[trigger] c.zonas@[zi], zi) by {
                let sz = sc.zonas@[zi];
                let z = c.zonas@[zi];
                assert(corresponde_zona(sz, z));
                assert(corresponde_fila(sz.filas@[0], z.filas@[0]));
                assert(corresponde_fila(sz.filas@[1], z.filas@[1]));
                assert forall|i: int| 0 <= i < 10 implies (
                #[trigger] z.filas@[0].sillas@[i]).numero == i + 1 && z.filas@[0].sillas@[i].estado
                    == estado_inicial_fila_uno((i + 1) as u32) by {
                    assert(z.filas@[0].sillas@[i].estado == sz.filas@[0].estados@[i]);
                }
                assert forall|i: int| 0 <= i < 10 implies (
                #[trigger] z.filas@[1].sillas@[i]).numero == i + 11 && z.filas@[1].sillas@[
                    i
                ].estado == estado_inicial_fila_dos((i + 11) as u32) by {
                    assert(z.filas@[1].sillas@[i].estado == sz.filas@[1].estados@[i]);
                }
            }
        }
    }
    e
}

} // verus!
