//! Cada variante de error, provocada por una entrada concreta, y la
//! atomicidad del lote: un fallo no cambia ninguna silla.

use boleteria::estado::ConjuntoEstados;
use boleteria::estado::EstadoSilla;
use boleteria::modelo::ErrorReserva;
use boleteria::modelo::Estadio;
use boleteria::modelo::RefAsiento;
use boleteria::semilla::Semilla;
use boleteria::semilla::SemillaCategoria;
use boleteria::semilla::SemillaFila;
use boleteria::semilla::SemillaZona;
use boleteria::semilla::inicializar;

fn recinto() -> Estadio {
    let semilla = Semilla {
        categorias: vec![SemillaCategoria {
            nombre: "General".to_string(),
            zonas: vec![SemillaZona {
                nombre: "Zona A".to_string(),
                filas: vec![SemillaFila {
                    numero: 1,
                    primer_asiento: 1,
                    estados: vec![
                        EstadoSilla::Disponible,
                        EstadoSilla::Disponible,
                        EstadoSilla::Comprada,
                    ],
                }],
            }],
        }],
    };
    inicializar(&semilla)
}

fn referencia(zona: &str, fila: u32, asiento: u32) -> RefAsiento {
    RefAsiento {
        categoria: "General".to_string(),
        zona: zona.to_string(),
        fila,
        asiento,
    }
}

#[test]
fn categoria_desconocida() {
    let mut e = recinto();
    let nombre = "Palco".to_string();
    assert_eq!(
        e.obtener_asientos_categoria(&nombre),
        Err(ErrorReserva::CategoriaNoEncontrada)
    );
    assert_eq!(
        e.buscar_asientos(&nombre, 1, 10),
        Err(ErrorReserva::CategoriaNoEncontrada)
    );
    assert_eq!(
        e.reservar_asientos(&nombre, 1, 10),
        Err(ErrorReserva::CategoriaNoEncontrada)
    );
}

#[test]
fn cantidad_fuera_de_limite() {
    let mut e = recinto();
    let nombre = "General".to_string();
    assert_eq!(
        e.buscar_asientos(&nombre, 0, 10),
        Err(ErrorReserva::CantidadExcedeLimite)
    );
    assert_eq!(
        e.buscar_asientos(&nombre, 11, 10),
        Err(ErrorReserva::CantidadExcedeLimite)
    );
    assert_eq!(
        e.reservar_asientos(&nombre, 11, 10),
        Err(ErrorReserva::CantidadExcedeLimite)
    );
    // El límite lo decide quien llama: con otro techo la misma cantidad
    // puede pasar.
    assert!(e.buscar_asientos(&nombre, 2, 2).is_ok());
}

#[test]
fn referencias_que_no_resuelven() {
    let mut e = recinto();
    let desde = ConjuntoEstados::solo_disponible();

    let mala_categoria = RefAsiento {
        categoria: "Palco".to_string(),
        ..referencia("Zona A", 1, 1)
    };
    assert_eq!(
        e.transicion(&vec![mala_categoria], desde, EstadoSilla::Reservada),
        Err(ErrorReserva::CategoriaNoEncontrada)
    );

    assert_eq!(
        e.transicion(&vec![referencia("Zona Z", 1, 1)], desde, EstadoSilla::Reservada),
        Err(ErrorReserva::ZonaNoEncontrada)
    );
    assert_eq!(
        e.transicion(&vec![referencia("Zona A", 7, 1)], desde, EstadoSilla::Reservada),
        Err(ErrorReserva::FilaNoEncontrada)
    );
    assert_eq!(
        e.transicion(&vec![referencia("Zona A", 1, 99)], desde, EstadoSilla::Reservada),
        Err(ErrorReserva::SillaNoEncontrada)
    );
}

#[test]
fn transicion_ilegal_rechazada() {
    let mut e = recinto();
    // Disponible → Comprada directamente es ilegal aunque el estado de
    // origen coincida con el conjunto admitido.
    assert_eq!(
        e.transicion(
            &vec![referencia("Zona A", 1, 1)],
            ConjuntoEstados::solo_disponible(),
            EstadoSilla::Comprada
        ),
        Err(ErrorReserva::EstadoIlegal)
    );
    // Una silla comprada no puede volver a reservada.
    let comprada = ConjuntoEstados {
        disponible: false,
        reservada: false,
        comprada: true,
    };
    assert_eq!(
        e.transicion(&vec![referencia("Zona A", 1, 3)], comprada, EstadoSilla::Reservada),
        Err(ErrorReserva::EstadoIlegal)
    );
    // Y cancelar una silla que no está reservada falla con EstadoIlegal.
    assert_eq!(
        e.confirmar_compra_sillas(&vec![referencia("Zona A", 1, 1)], false),
        Err(ErrorReserva::EstadoIlegal)
    );
}

#[test]
fn lote_atomico_ante_fallo() {
    // Un lote con una referencia buena y otra inexistente falla entero: la
    // silla buena no cambia.
    let mut e = recinto();
    let lote = vec![referencia("Zona A", 1, 1), referencia("Zona A", 1, 99)];
    let r = e.transicion(&lote, ConjuntoEstados::solo_disponible(), EstadoSilla::Reservada);
    assert_eq!(r, Err(ErrorReserva::SillaNoEncontrada));
    let lista = e
        .obtener_asientos_categoria(&"General".to_string())
        .expect("listado");
    assert_eq!(lista[0].estado, EstadoSilla::Disponible);
    assert_eq!(lista[1].estado, EstadoSilla::Disponible);
    assert_eq!(lista[2].estado, EstadoSilla::Comprada);
}

#[test]
fn lote_atomico_ante_estado_ilegal() {
    // Si la segunda silla del lote no está disponible, tampoco cambia la
    // primera.
    let mut e = recinto();
    let lote = vec![referencia("Zona A", 1, 1), referencia("Zona A", 1, 3)];
    let r = e.transicion(&lote, ConjuntoEstados::solo_disponible(), EstadoSilla::Reservada);
    assert_eq!(r, Err(ErrorReserva::EstadoIlegal));
    let lista = e
        .obtener_asientos_categoria(&"General".to_string())
        .expect("listado");
    assert_eq!(lista[0].estado, EstadoSilla::Disponible);
}
