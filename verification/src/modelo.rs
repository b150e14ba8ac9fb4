//! El modelo de datos del recinto: la jerarquía estática
//! categoría → zona → fila → silla, su buena formación, la resolución de
//! referencias de asiento y los predicados con que se enuncian los contratos
//! de las operaciones.

use vstd::prelude::*;

use crate::estado::ConjuntoEstados;
use crate::estado::EstadoSilla;
use crate::estado::transicion_legal;

verus! {

/// La unidad mínima de inventario: un número dentro de su fila y un estado.
/// Identidad completa: (categoría, zona, número de fila, número de silla).
#[derive(Clone, Copy, Debug, PartialEq, Eq, Structural)]
pub struct Silla {
    pub numero: u32,
    pub estado: EstadoSilla,
}

/// Una fila: número propio dentro de su zona y sucesión de sillas.
/// La composición de la fila queda fija al construir el recinto; sólo el
/// estado de cada silla cambia después.
#[derive(Clone, Debug)]
pub struct Fila {
    pub numero: u32,
    pub sillas: Vec<Silla>,
}

/// Una zona: nombre único dentro de su categoría y filas en orden
/// numérico ascendente.
#[derive(Clone, Debug)]
pub struct Zona {
    pub nombre: String,
    pub filas: Vec<Fila>,
}

/// Una categoría: nombre único dentro del recinto y zonas en orden de
/// declaración.
#[derive(Clone, Debug)]
pub struct Categoria {
    pub nombre: String,
    pub zonas: Vec<Zona>,
}

/// El recinto completo: la sucesión de categorías. Se construye una vez;
/// después sólo cambian los estados de las sillas, y únicamente a través de
/// `transicion`.
#[derive(Clone, Debug)]
pub struct Estadio {
    pub categorias: Vec<Categoria>,
}

/// Referencia ligera a una silla, independiente de su estado mutable: lo que
/// devuelve la búsqueda y consumen la confirmación y la cancelación.
#[derive(Clone, Debug, PartialEq, Eq)]
pub struct RefAsiento {
    pub categoria: String,
    pub zona: String,
    pub fila: u32,
    pub asiento: u32,
}

/// Un asiento tal como se lista: su identidad dentro de la categoría y su
/// estado en el momento de la instantánea.
#[derive(Clone, Debug, PartialEq, Eq)]
pub struct AsientoInfo {
    pub zona: String,
    pub fila: u32,
    pub asiento: u32,
    pub estado: EstadoSilla,
}

/// Los errores que devuelven las operaciones del inventario. Ninguno es
/// fatal: una operación fallida nunca altera el recinto.
#[derive(Clone, Copy, Debug, PartialEq, Eq, Structural)]
pub enum ErrorReserva {
    CategoriaNoEncontrada,
    ZonaNoEncontrada,
    FilaNoEncontrada,
    SillaNoEncontrada,
    CantidadExcedeLimite,
    DisponibilidadInsuficiente,
    EstadoIlegal,
}

impl Fila {
    /// Las sillas llevan números consecutivos ascendentes a partir de la
    /// primera; de ahí que dentro de una fila el número identifique a lo
    /// sumo una silla y que posiciones contiguas sean números contiguos.
    pub open spec fn bien_formada(self) -> bool {
        forall|i: int|
            0 <= i < self.sillas@.len() ==> (#[trigger] self.sillas@[i]).numero
                == self.sillas@[0].numero + i
    }

    pub open spec fn tiene_silla(self, numero: u32) -> bool {
        exists|i: int| 0 <= i < self.sillas@.len() && (#[trigger] self.sillas@[i]).numero == numero
    }

    pub open spec fn indice_silla(self, numero: u32) -> int {
        choose|i: int| 0 <= i < self.sillas@.len() && (#[trigger] self.sillas@[i]).numero == numero
    }

    pub open spec fn silla_con(self, numero: u32) -> Silla {
        self.sillas@[self.indice_silla(numero)]
    }
}

impl Zona {
    /// Filas bien formadas, con números estrictamente crecientes: el número
    /// de fila es único dentro de la zona y el orden del vector es el orden
    /// numérico.
    pub open spec fn bien_formada(self) -> bool {
        &&& forall|i: int|
            0 <= i < self.filas@.len() ==> (#[trigger] self.filas@[i]).bien_formada()
        &&& forall|i: int, j: int|
            0 <= i < j < self.filas@.len() ==> (#[trigger] self.filas@[i]).numero < (
            #[trigger] self.filas@[j]).numero
    }

    pub open spec fn tiene_fila(self, numero: u32) -> bool {
        exists|i: int| 0 <= i < self.filas@.len() && (#[trigger] self.filas@[i]).numero == numero
    }

    pub open spec fn indice_fila(self, numero: u32) -> int {
        choose|i: int| 0 <= i < self.filas@.len() && (#[trigger] self.filas@[i]).numero == numero
    }

    pub open spec fn fila_con(self, numero: u32) -> Fila {
        self.filas@[self.indice_fila(numero)]
    }
}

impl Categoria {
    /// Zonas bien formadas y con nombres distintos dos a dos.
    pub open spec fn bien_formada(self) -> bool {
        &&& forall|i: int|
            0 <= i < self.zonas@.len() ==> (#[trigger] self.zonas@[i]).bien_formada()
        &&& forall|i: int, j: int|
            0 <= i < j < self.zonas@.len() ==> (#[trigger] self.zonas@[i]).nombre@ != (
            #[trigger] self.zonas@[j]).nombre@
    }

    pub open spec fn tiene_zona(self, nombre: Seq<char>) -> bool {
        exists|i: int| 0 <= i < self.zonas@.len() && (#[trigger] self.zonas@[i]).nombre@ == nombre
    }

    pub open spec fn indice_zona(self, nombre: Seq<char>) -> int {
        choose|i: int| 0 <= i < self.zonas@.len() && (#[trigger] self.zonas@[i]).nombre@ == nombre
    }

    pub open spec fn zona_con(self, nombre: Seq<char>) -> Zona {
        self.zonas@[self.indice_zona(nombre)]
    }
}

impl Estadio {
    /// Categorías bien formadas y con nombres distintos dos a dos. Toda
    /// operación pública lo exige y lo conserva.
    pub open spec fn bien_formado(self) -> bool {
        &&& forall|i: int|
            0 <= i < self.categorias@.len() ==> (#[trigger] self.categorias@[i]).bien_formada()
        &&& forall|i: int, j: int|
            0 <= i < j < self.categorias@.len() ==> (#[trigger] self.categorias@[i]).nombre@ != (
            #[trigger] self.categorias@[j]).nombre@
    }

    pub open spec fn tiene_categoria(self, nombre: Seq<char>) -> bool {
        exists|i: int|
            0 <= i < self.categorias@.len() && (#[trigger] self.categorias@[i]).nombre@ == nombre
    }

    pub open spec fn indice_categoria(self, nombre: Seq<char>) -> int {
        choose|i: int|
            0 <= i < self.categorias@.len() && (#[trigger] self.categorias@[i]).nombre@ == nombre
    }

    pub open spec fn categoria_con(self, nombre: Seq<char>) -> Categoria {
        self.categorias@[self.indice_categoria(nombre)]
    }

    /// Una referencia resuelve: categoría por nombre, zona por nombre, fila
    /// y silla por número.
    pub open spec fn ref_valida(self, r: RefAsiento) -> bool {
        &&& self.tiene_categoria(r.categoria@)
        &&& self.categoria_con(r.categoria@).tiene_zona(r.zona@)
        &&& self.categoria_con(r.categoria@).zona_con(r.zona@).tiene_fila(r.fila)
        &&& self.categoria_con(r.categoria@).zona_con(r.zona@).fila_con(r.fila).tiene_silla(
            r.asiento,
        )
    }

    /// El estado actual de la silla a la que apunta una referencia válida.
    pub open spec fn estado_ref(self, r: RefAsiento) -> EstadoSilla {
        self.categoria_con(r.categoria@).zona_con(r.zona@).fila_con(r.fila).silla_con(
            r.asiento,
        ).estado
    }

    /// (ci, zi, fi, si) es una posición dentro de los límites del recinto.
    pub open spec fn pos_valida(self, ci: int, zi: int, fi: int, si: int) -> bool {
        &&& 0 <= ci < self.categorias@.len()
        &&& 0 <= zi < self.categorias@[ci].zonas@.len()
        &&& 0 <= fi < self.categorias@[ci].zonas@[zi].filas@.len()
        &&& 0 <= si < self.categorias@[ci].zonas@[zi].filas@[fi].sillas@.len()
    }

    /// La silla que ocupa una posición.
    pub open spec fn silla_en(self, ci: int, zi: int, fi: int, si: int) -> Silla {
        self.categorias@[ci].zonas@[zi].filas@[fi].sillas@[si]
    }

    /// La referencia nombra exactamente la posición (ci, zi, fi, si).
    pub open spec fn ref_apunta(self, r: RefAsiento, ci: int, zi: int, fi: int, si: int) -> bool {
        &&& self.pos_valida(ci, zi, fi, si)
        &&& self.categorias@[ci].nombre@ == r.categoria@
        &&& self.categorias@[ci].zonas@[zi].nombre@ == r.zona@
        &&& self.categorias@[ci].zonas@[zi].filas@[fi].numero == r.fila
        &&& self.silla_en(ci, zi, fi, si).numero == r.asiento
    }

    /// Mismo esqueleto: mismas categorías, zonas, filas y números de silla;
    /// sólo los estados pueden diferir.
    pub open spec fn misma_forma(self, otro: Estadio) -> bool {
        &&& self.categorias@.len() == otro.categorias@.len()
        &&& forall|i: int|
            0 <= i < self.categorias@.len() ==> misma_forma_categoria(
                #[trigger] self.categorias@[i],
                otro.categorias@[i],
            )
    }
}

pub open spec fn misma_forma_fila(a: Fila, b: Fila) -> bool {
    &&& a.numero == b.numero
    &&& a.sillas@.len() == b.sillas@.len()
    &&& forall|i: int|
        0 <= i < a.sillas@.len() ==> (#[trigger] a.sillas@[i]).numero == b.sillas@[i].numero
}

pub open spec fn misma_forma_zona(a: Zona, b: Zona) -> bool {
    &&& a.nombre@ == b.nombre@
    &&& a.filas@.len() == b.filas@.len()
    &&& forall|i: int|
        0 <= i < a.filas@.len() ==> misma_forma_fila(#[trigger] a.filas@[i], b.filas@[i])
}

pub open spec fn misma_forma_categoria(a: Categoria, b: Categoria) -> bool {
    &&& a.nombre@ == b.nombre@
    &&& a.zonas@.len() == b.zonas@.len()
    &&& forall|i: int|
        0 <= i < a.zonas@.len() ==> misma_forma_zona(#[trigger] a.zonas@[i], b.zonas@[i])
}

/// La identidad que nombra una referencia, como valor matemático:
/// (categoría, zona, número de fila, número de silla).
pub open spec fn identidad_ref(r: RefAsiento) -> (Seq<char>, Seq<char>, u32, u32) {
    (r.categoria@, r.zona@, r.fila, r.asiento)
}

/// Alguna referencia del lote nombra la posición (ci, zi, fi, si).
pub open spec fn pos_referida(
    e: Estadio,
    refs: Seq<RefAsiento>,
    ci: int,
    zi: int,
    fi: int,
    si: int,
) -> bool {
    exists|k: int| 0 <= k < refs.len() && e.ref_apunta(#[trigger] refs[k], ci, zi, fi, si)
}

/// `b` es `a` tras llevar a `hacia` exactamente las sillas referidas por el
/// lote, sin tocar ninguna otra ni la estructura.
pub open spec fn tras_lote(
    a: Estadio,
    b: Estadio,
    refs: Seq<RefAsiento>,
    hacia: EstadoSilla,
) -> bool {
    &&& a.misma_forma(b)
    &&& forall|ci: int, zi: int, fi: int, si: int|
        a.pos_valida(ci, zi, fi, si) ==> (#[trigger] b.silla_en(ci, zi, fi, si)).estado == (
        if pos_referida(a, refs, ci, zi, fi, si) {
            hacia
        } else {
            a.silla_en(ci, zi, fi, si).estado
        })
}

/// La referencia resuelve, su estado actual está entre los admitidos y la
/// transición a `hacia` es legal: la condición bajo la cual una transición
/// en lote acepta la referencia.
pub open spec fn ref_transita(
    e: Estadio,
    r: RefAsiento,
    desde: ConjuntoEstados,
    hacia: EstadoSilla,
) -> bool {
    &&& e.ref_valida(r)
    &&& desde.contiene(e.estado_ref(r))
    &&& transicion_legal(e.estado_ref(r), hacia)
}

/// El error que denuncia una referencia rechazada: el primer nivel que no
/// resuelve o, si resuelve, el estado ilegal.
pub open spec fn error_ref(e: Estadio, r: RefAsiento) -> ErrorReserva {
    if !e.tiene_categoria(r.categoria@) {
        ErrorReserva::CategoriaNoEncontrada
    } else if !e.categoria_con(r.categoria@).tiene_zona(r.zona@) {
        ErrorReserva::ZonaNoEncontrada
    } else if !e.categoria_con(r.categoria@).zona_con(r.zona@).tiene_fila(r.fila) {
        ErrorReserva::FilaNoEncontrada
    } else if !e.categoria_con(r.categoria@).zona_con(r.zona@).fila_con(r.fila).tiene_silla(
        r.asiento,
    ) {
        ErrorReserva::SillaNoEncontrada
    } else {
        ErrorReserva::EstadoIlegal
    }
}

/// El contrato completo de una transición en lote de `a` a `b`: o todas las
/// referencias transitan y el lote entero se aplica, o ninguna silla cambia
/// y el error es el de la primera referencia rechazada.
pub open spec fn transicion_correcta(
    a: Estadio,
    b: Estadio,
    refs: Seq<RefAsiento>,
    desde: ConjuntoEstados,
    hacia: EstadoSilla,
    r: Result<(), ErrorReserva>,
) -> bool {
    &&& (r is Ok <==> forall|k: int|
        0 <= k < refs.len() ==> ref_transita(a, #[trigger] refs[k], desde, hacia))
    &&& (r is Ok ==> tras_lote(a, b, refs, hacia))
    &&& (r is Err ==> b == a)
    &&& (r matches Err(err) ==> exists|k: int|
        {
            &&& 0 <= k < refs.len()
            &&& !ref_transita(a, #[trigger] refs[k], desde, hacia)
            &&& forall|j: int| 0 <= j < k ==> ref_transita(a, #[trigger] refs[j], desde, hacia)
            &&& err == error_ref(a, refs[k])
        })
}

impl Estadio {
    /// La posición a la que la resolución por nombres y números lleva una
    /// referencia válida.
    pub open spec fn pos_de_ref(self, r: RefAsiento) -> (int, int, int, int) {
        let ci = self.indice_categoria(r.categoria@);
        let c = self.categorias@[ci];
        let zi = c.indice_zona(r.zona@);
        let z = c.zonas@[zi];
        let fi = z.indice_fila(r.fila);
        let f = z.filas@[fi];
        let si = f.indice_silla(r.asiento);
        (ci, zi, fi, si)
    }
}

/// En un recinto bien formado, una referencia que nombra la posición
/// (ci, zi, fi, si) resuelve, y resuelve precisamente a esa posición.
pub proof fn lemma_ref_apunta_resuelve(
    e: Estadio,
    r: RefAsiento,
    ci: int,
    zi: int,
    fi: int,
    si: int,
)
    requires
        e.bien_formado(),
        e.ref_apunta(r, ci, zi, fi, si),
    ensures
        e.ref_valida(r),
        e.pos_de_ref(r) == (ci, zi, fi, si),
        e.estado_ref(r) == e.silla_en(ci, zi, fi, si).estado,
{
    let c = e.categorias@[ci];
    let z = c.zonas@[zi];
    let f = z.filas@[fi];
    assert(e.tiene_categoria(r.categoria@));
    let ci2 = e.indice_categoria(r.categoria@);
    assert(ci2 == ci) by {
        if ci2 != ci {
            assert(e.categorias@[ci2].nombre@ == e.categorias@[ci].nombre@);
        }
    }
    assert(c.tiene_zona(r.zona@));
    let zi2 = c.indice_zona(r.zona@);
    assert(zi2 == zi) by {
        if zi2 != zi {
            assert(c.zonas@[zi2].nombre@ == c.zonas@[zi].nombre@);
        }
    }
    assert(z.tiene_fila(r.fila));
    let fi2 = z.indice_fila(r.fila);
    assert(fi2 == fi) by {
        if fi2 != fi {
            assert(z.filas@[fi2].numero == z.filas@[fi].numero);
        }
    }
    assert(f.tiene_silla(r.asiento));
    let si2 = f.indice_silla(r.asiento);
    assert(si2 == si) by {
        if si2 != si {
            assert(f.sillas@[si2].numero == f.sillas@[0].numero + si2);
            assert(f.sillas@[si].numero == f.sillas@[0].numero + si);
        }
    }
}

/// En un recinto bien formado, una referencia válida nombra la posición que
/// le asigna la resolución.
pub proof fn lemma_ref_valida_apunta(e: Estadio, r: RefAsiento)
    requires
        e.bien_formado(),
        e.ref_valida(r),
    ensures
        ({
            let (ci, zi, fi, si) = e.pos_de_ref(r);
            e.ref_apunta(r, ci, zi, fi, si)
        }),
{
    let ci = e.indice_categoria(r.categoria@);
    let c = e.categorias@[ci];
    let zi = c.indice_zona(r.zona@);
    let z = c.zonas@[zi];
    let fi = z.indice_fila(r.fila);
    let f = z.filas@[fi];
    let si = f.indice_silla(r.asiento);
    assert(0 <= ci < e.categorias@.len() && c.nombre@ == r.categoria@);
    assert(e.categoria_con(r.categoria@) == c);
    assert(0 <= zi < c.zonas@.len() && z.nombre@ == r.zona@);
    assert(0 <= fi < z.filas@.len() && f.numero == r.fila);
    assert(0 <= si < f.sillas@.len() && f.sillas@[si].numero == r.asiento);
}

/// Dos posiciones nombradas por la misma referencia coinciden: en un recinto
/// bien formado cada referencia identifica a lo sumo una silla.
pub proof fn lemma_ref_apunta_unica(
    e: Estadio,
    r: RefAsiento,
    ci: int,
    zi: int,
    fi: int,
    si: int,
    cj: int,
    zj: int,
    fj: int,
    sj: int,
)
    requires
        e.bien_formado(),
        e.ref_apunta(r, ci, zi, fi, si),
        e.ref_apunta(r, cj, zj, fj, sj),
    ensures
        ci == cj && zi == zj && fi == fj && si == sj,
{
    lemma_ref_apunta_resuelve(e, r, ci, zi, fi, si);
    lemma_ref_apunta_resuelve(e, r, cj, zj, fj, sj);
}

/// En un recinto bien formado, la resolución por nombre devuelve la posición
/// de la categoría que lo lleva.
pub proof fn lemma_indice_categoria(e: Estadio, ci: int)
    requires
        e.bien_formado(),
        0 <= ci < e.categorias@.len(),
    ensures
        e.tiene_categoria(e.categorias@[ci].nombre@),
        e.indice_categoria(e.categorias@[ci].nombre@) == ci,
        e.categoria_con(e.categorias@[ci].nombre@) == e.categorias@[ci],
{
    let nombre = e.categorias@[ci].nombre@;
    assert(e.tiene_categoria(nombre));
    let ci2 = e.indice_categoria(nombre);
    if ci2 != ci {
        assert(e.categorias@[ci2].nombre@ == e.categorias@[ci].nombre@);
    }
}

/// Como la anterior, para las zonas de una categoría bien formada.
pub proof fn lemma_indice_zona(c: Categoria, zi: int)
    requires
        c.bien_formada(),
        0 <= zi < c.zonas@.len(),
    ensures
        c.tiene_zona(c.zonas@[zi].nombre@),
        c.indice_zona(c.zonas@[zi].nombre@) == zi,
        c.zona_con(c.zonas@[zi].nombre@) == c.zonas@[zi],
{
    let nombre = c.zonas@[zi].nombre@;
    assert(c.tiene_zona(nombre));
    let zi2 = c.indice_zona(nombre);
    if zi2 != zi {
        assert(c.zonas@[zi2].nombre@ == c.zonas@[zi].nombre@);
    }
}

/// Como la anterior, para las filas de una zona bien formada.
pub proof fn lemma_indice_fila(z: Zona, fi: int)
    requires
        z.bien_formada(),
        0 <= fi < z.filas@.len(),
    ensures
        z.tiene_fila(z.filas@[fi].numero),
        z.indice_fila(z.filas@[fi].numero) == fi,
        z.fila_con(z.filas@[fi].numero) == z.filas@[fi],
{
    let numero = z.filas@[fi].numero;
    assert(z.tiene_fila(numero));
    let fi2 = z.indice_fila(numero);
    if fi2 != fi {
        assert(z.filas@[fi2].numero == z.filas@[fi].numero);
    }
}

/// El esqueleto compartido conserva la buena formación: una fila con los
/// mismos números que una bien formada lo está.
pub proof fn lemma_misma_forma_fila_bf(a: Fila, b: Fila)
    requires
        a.bien_formada(),
        misma_forma_fila(a, b),
    ensures
        b.bien_formada(),
{
    assert forall|i: int| 0 <= i < b.sillas@.len() implies (#[trigger] b.sillas@[i]).numero
        == b.sillas@[0].numero + i by {
        assert(a.sillas@[i].numero == a.sillas@[0].numero + i);
        assert(a.sillas@[0].numero == b.sillas@[0].numero);
    }
}

pub proof fn lemma_misma_forma_zona_bf(a: Zona, b: Zona)
    requires
        a.bien_formada(),
        misma_forma_zona(a, b),
    ensures
        b.bien_formada(),
{
    assert forall|i: int| 0 <= i < b.filas@.len() implies (#[trigger] b.filas@[i]).bien_formada()
        by {
        lemma_misma_forma_fila_bf(a.filas@[i], b.filas@[i]);
    }
    assert forall|i: int, j: int| 0 <= i < j < b.filas@.len() implies (
    #[trigger] b.filas@[i]).numero < (#[trigger] b.filas@[j]).numero by {
        assert(misma_forma_fila(a.filas@[i], b.filas@[i]));
        assert(misma_forma_fila(a.filas@[j], b.filas@[j]));
        assert(a.filas@[i].numero < a.filas@[j].numero);
    }
}

pub proof fn lemma_misma_forma_categoria_bf(a: Categoria, b: Categoria)
    requires
        a.bien_formada(),
        misma_forma_categoria(a, b),
    ensures
        b.bien_formada(),
{
    assert forall|i: int| 0 <= i < b.zonas@.len() implies (#[trigger] b.zonas@[i]).bien_formada()
        by {
        lemma_misma_forma_zona_bf(a.zonas@[i], b.zonas@[i]);
    }
    assert forall|i: int, j: int| 0 <= i < j < b.zonas@.len() implies (
    #[trigger] b.zonas@[i]).nombre@ != (#[trigger] b.zonas@[j]).nombre@ by {
        assert(misma_forma_zona(a.zonas@[i], b.zonas@[i]));
        assert(misma_forma_zona(a.zonas@[j], b.zonas@[j]));
        assert(a.zonas@[i].nombre@ != a.zonas@[j].nombre@);
    }
}

/// La buena formación del recinto sólo depende del esqueleto: se conserva
/// bajo `misma_forma`, en particular bajo toda transición en lote.
pub proof fn lemma_misma_forma_bien_formado(a: Estadio, b: Estadio)
    requires
        a.bien_formado(),
        a.misma_forma(b),
    ensures
        b.bien_formado(),
{
    assert forall|i: int| 0 <= i < b.categorias@.len() implies (
    #[trigger] b.categorias@[i]).bien_formada() by {
        lemma_misma_forma_categoria_bf(a.categorias@[i], b.categorias@[i]);
    }
    assert forall|i: int, j: int| 0 <= i < j < b.categorias@.len() implies (
    #[trigger] b.categorias@[i]).nombre@ != (#[trigger] b.categorias@[j]).nombre@ by {
        assert(misma_forma_categoria(a.categorias@[i], b.categorias@[i]));
        assert(misma_forma_categoria(a.categorias@[j], b.categorias@[j]));
        assert(a.categorias@[i].nombre@ != a.categorias@[j].nombre@);
    }
}

/// Nombrar una posición sólo depende del esqueleto: se conserva bajo
/// `misma_forma`.
pub proof fn lemma_misma_forma_apunta(
    a: Estadio,
    b: Estadio,
    r: RefAsiento,
    ci: int,
    zi: int,
    fi: int,
    si: int,
)
    requires
        a.misma_forma(b),
        a.ref_apunta(r, ci, zi, fi, si),
    ensures
        b.ref_apunta(r, ci, zi, fi, si),
{
    assert(misma_forma_categoria(a.categorias@[ci], b.categorias@[ci]));
    assert(misma_forma_zona(a.categorias@[ci].zonas@[zi], b.categorias@[ci].zonas@[zi]));
    assert(misma_forma_fila(
        a.categorias@[ci].zonas@[zi].filas@[fi],
        b.categorias@[ci].zonas@[zi].filas@[fi],
    ));
    assert(a.categorias@[ci].zonas@[zi].filas@[fi].sillas@[si].numero
        == b.categorias@[ci].zonas@[zi].filas@[fi].sillas@[si].numero);
}

} // verus!
