//! Escenarios del flujo de reserva sobre recintos pequeños construidos con
//! una semilla explícita.

use boleteria::estado::EstadoSilla;
use boleteria::modelo::ErrorReserva;
use boleteria::modelo::Estadio;
use boleteria::modelo::RefAsiento;
use boleteria::semilla::Semilla;
use boleteria::semilla::SemillaCategoria;
use boleteria::semilla::SemillaFila;
use boleteria::semilla::SemillaZona;
use boleteria::semilla::inicializar;

fn recinto_de_fila(estados: Vec<EstadoSilla>) -> Estadio {
    let semilla = Semilla {
        categorias: vec![SemillaCategoria {
            nombre: "General".to_string(),
            zonas: vec![SemillaZona {
                nombre: "Zona A".to_string(),
                filas: vec![SemillaFila { numero: 1, primer_asiento: 1, estados }],
            }],
        }],
    };
    inicializar(&semilla)
}

fn recinto_disponible(cuantos: u32) -> Estadio {
    let estados = (0..cuantos).map(|_| EstadoSilla::Disponible).collect();
    recinto_de_fila(estados)
}

fn asientos(refs: &[RefAsiento]) -> Vec<u32> {
    refs.iter().map(|r| r.asiento).collect()
}

fn estados_de(e: &Estadio, categoria: &str) -> Vec<(u32, u32, EstadoSilla)> {
    let lista = e
        .obtener_asientos_categoria(&categoria.to_string())
        .expect("la categoria existe");
    lista.iter().map(|a| (a.fila, a.asiento, a.estado)).collect()
}

#[test]
fn escenario_contiguo_y_agotamiento() {
    // Una fila de diez sillas disponibles: la primera reserva de cuatro se
    // lleva 1-4, la segunda 5-8 y la tercera falla por disponibilidad sin
    // tocar las dos que quedan.
    let mut e = recinto_disponible(10);
    let nombre = "General".to_string();

    let refs1 = e.reservar_asientos(&nombre, 4, 10).expect("primera reserva");
    assert_eq!(asientos(&refs1), vec![1, 2, 3, 4]);

    let refs2 = e.reservar_asientos(&nombre, 4, 10).expect("segunda reserva");
    assert_eq!(asientos(&refs2), vec![5, 6, 7, 8]);

    let tercera = e.reservar_asientos(&nombre, 4, 10);
    assert_eq!(tercera, Err(ErrorReserva::DisponibilidadInsuficiente));

    // La reserva fallida no retuvo nada: 9 y 10 siguen disponibles.
    let estados = estados_de(&e, "General");
    assert_eq!(estados[8], (1, 9, EstadoSilla::Disponible));
    assert_eq!(estados[9], (1, 10, EstadoSilla::Disponible));
}

#[test]
fn escenario_confirmar_compra() {
    // Reservadas 1-4 y confirmada la compra, quedan compradas y una reserva
    // posterior nunca las devuelve.
    let mut e = recinto_disponible(10);
    let nombre = "General".to_string();

    let refs = e.reservar_asientos(&nombre, 4, 10).expect("reserva");
    assert_eq!(asientos(&refs), vec![1, 2, 3, 4]);
    e.confirmar_compra_sillas(&refs, true).expect("confirmacion");

    for (idx, estado) in estados_de(&e, "General").into_iter().enumerate() {
        let esperado = if idx < 4 {
            EstadoSilla::Comprada
        } else {
            EstadoSilla::Disponible
        };
        assert_eq!(estado.2, esperado);
    }

    let siguiente = e.reservar_asientos(&nombre, 1, 10).expect("reserva de una");
    assert_eq!(asientos(&siguiente), vec![5]);
}

#[test]
fn escenario_cancelar_libera() {
    // Cancelar una reserva devuelve las sillas a disponibles y una nueva
    // reserva puede llevarse exactamente las mismas.
    let mut e = recinto_disponible(10);
    let nombre = "General".to_string();

    let refs = e.reservar_asientos(&nombre, 4, 10).expect("reserva");
    e.confirmar_compra_sillas(&refs, false).expect("cancelacion");

    for estado in estados_de(&e, "General") {
        assert_eq!(estado.2, EstadoSilla::Disponible);
    }

    let otra_vez = e.reservar_asientos(&nombre, 4, 10).expect("segunda reserva");
    assert_eq!(asientos(&otra_vez), asientos(&refs));
}

#[test]
fn escenario_acumulacion_dispersa() {
    // Fila [disponible, disponible, comprada, disponible, disponible]: no
    // hay corrida de tres, así que la búsqueda dispersa devuelve 1, 2 y 4
    // en orden ascendente.
    let e = recinto_de_fila(vec![
        EstadoSilla::Disponible,
        EstadoSilla::Disponible,
        EstadoSilla::Comprada,
        EstadoSilla::Disponible,
        EstadoSilla::Disponible,
    ]);
    let refs = e
        .buscar_asientos(&"General".to_string(), 3, 10)
        .expect("busqueda dispersa");
    assert_eq!(asientos(&refs), vec![1, 2, 4]);
}

#[test]
fn corrida_posterior_tiene_prioridad_sobre_dispersos() {
    // Fila [disponible, comprada, disponible, disponible, disponible]: la
    // corrida contigua 3-5 gana a los sueltos 1, 3, 4.
    let e = recinto_de_fila(vec![
        EstadoSilla::Disponible,
        EstadoSilla::Comprada,
        EstadoSilla::Disponible,
        EstadoSilla::Disponible,
        EstadoSilla::Disponible,
    ]);
    let refs = e
        .buscar_asientos(&"General".to_string(), 3, 10)
        .expect("busqueda contigua");
    assert_eq!(asientos(&refs), vec![3, 4, 5]);
}

#[test]
fn corrida_en_fila_posterior() {
    // La fila 1 no tiene corrida de dos, la fila 2 sí: la búsqueda salta a
    // la fila 2 y devuelve sus dos primeras sillas.
    let semilla = Semilla {
        categorias: vec![SemillaCategoria {
            nombre: "General".to_string(),
            zonas: vec![SemillaZona {
                nombre: "Zona A".to_string(),
                filas: vec![
                    SemillaFila {
                        numero: 1,
                        primer_asiento: 1,
                        estados: vec![
                            EstadoSilla::Disponible,
                            EstadoSilla::Comprada,
                            EstadoSilla::Disponible,
                        ],
                    },
                    SemillaFila {
                        numero: 2,
                        primer_asiento: 4,
                        estados: vec![
                            EstadoSilla::Disponible,
                            EstadoSilla::Disponible,
                            EstadoSilla::Disponible,
                        ],
                    },
                ],
            }],
        }],
    };
    let e = inicializar(&semilla);
    let refs = e
        .buscar_asientos(&"General".to_string(), 2, 10)
        .expect("busqueda");
    assert_eq!(asientos(&refs), vec![4, 5]);
    assert_eq!(refs[0].fila, 2);
    assert_eq!(refs[1].fila, 2);
}

#[test]
fn dispersos_cruzan_zonas() {
    // Sin corrida en ninguna fila, la acumulación dispersa recorre las
    // zonas en orden de declaración y junta asientos de varias.
    let semilla = Semilla {
        categorias: vec![SemillaCategoria {
            nombre: "General".to_string(),
            zonas: vec![
                SemillaZona {
                    nombre: "Zona A".to_string(),
                    filas: vec![SemillaFila {
                        numero: 1,
                        primer_asiento: 1,
                        estados: vec![EstadoSilla::Disponible, EstadoSilla::Comprada],
                    }],
                },
                SemillaZona {
                    nombre: "Zona B".to_string(),
                    filas: vec![SemillaFila {
                        numero: 1,
                        primer_asiento: 1,
                        estados: vec![EstadoSilla::Comprada, EstadoSilla::Disponible],
                    }],
                },
            ],
        }],
    };
    let e = inicializar(&semilla);
    let refs = e
        .buscar_asientos(&"General".to_string(), 2, 10)
        .expect("busqueda dispersa entre zonas");
    let posiciones: Vec<(String, u32)> = refs.iter().map(|r| (r.zona.clone(), r.asiento)).collect();
    assert_eq!(
        posiciones,
        vec![("Zona A".to_string(), 1), ("Zona B".to_string(), 2)]
    );
}

#[test]
fn corrida_en_zona_posterior_gana_a_los_sueltos() {
    // La zona A tiene dos disponibles no contiguos; la zona B tiene la
    // corrida: la corrida gana aunque esté después.
    let semilla = Semilla {
        categorias: vec![SemillaCategoria {
            nombre: "General".to_string(),
            zonas: vec![
                SemillaZona {
                    nombre: "Zona A".to_string(),
                    filas: vec![SemillaFila {
                        numero: 1,
                        primer_asiento: 1,
                        estados: vec![
                            EstadoSilla::Disponible,
                            EstadoSilla::Comprada,
                            EstadoSilla::Disponible,
                        ],
                    }],
                },
                SemillaZona {
                    nombre: "Zona B".to_string(),
                    filas: vec![SemillaFila {
                        numero: 1,
                        primer_asiento: 1,
                        estados: vec![EstadoSilla::Disponible, EstadoSilla::Disponible],
                    }],
                },
            ],
        }],
    };
    let e = inicializar(&semilla);
    let refs = e
        .buscar_asientos(&"General".to_string(), 2, 10)
        .expect("busqueda contigua entre zonas");
    let posiciones: Vec<(String, u32)> = refs.iter().map(|r| (r.zona.clone(), r.asiento)).collect();
    assert_eq!(
        posiciones,
        vec![("Zona B".to_string(), 1), ("Zona B".to_string(), 2)]
    );
}

#[test]
fn propiedad_sin_doble_reserva() {
    // Dos reservas consecutivas nunca comparten asiento.
    let mut e = recinto_disponible(10);
    let nombre = "General".to_string();
    let refs1 = e.reservar_asientos(&nombre, 3, 10).expect("primera");
    let refs2 = e.reservar_asientos(&nombre, 3, 10).expect("segunda");
    for a in asientos(&refs1) {
        assert!(!asientos(&refs2).contains(&a));
    }
}

#[test]
fn propiedad_busqueda_determinista() {
    // Sobre la misma instantánea, la búsqueda devuelve lo mismo las veces
    // que haga falta.
    let e = recinto_de_fila(vec![
        EstadoSilla::Disponible,
        EstadoSilla::Comprada,
        EstadoSilla::Disponible,
        EstadoSilla::Disponible,
    ]);
    let nombre = "General".to_string();
    let r1 = e.buscar_asientos(&nombre, 2, 10).expect("primera");
    let r2 = e.buscar_asientos(&nombre, 2, 10).expect("segunda");
    assert_eq!(r1, r2);
}

#[test]
fn propiedad_cancelacion_idempotente() {
    // Cancelar sillas ya disponibles falla con EstadoIlegal y las deja como
    // estaban.
    let mut e = recinto_disponible(6);
    let nombre = "General".to_string();
    let refs = e.reservar_asientos(&nombre, 4, 10).expect("reserva");
    e.confirmar_compra_sillas(&refs, false).expect("cancelacion");
    let repetida = e.confirmar_compra_sillas(&refs, false);
    assert_eq!(repetida, Err(ErrorReserva::EstadoIlegal));
    for estado in estados_de(&e, "General") {
        assert_eq!(estado.2, EstadoSilla::Disponible);
    }
}

#[test]
fn listado_en_orden_canonico() {
    // El listado recorre las zonas en orden de declaración y dentro de cada
    // una las filas y sillas en orden ascendente.
    let semilla = Semilla {
        categorias: vec![SemillaCategoria {
            nombre: "General".to_string(),
            zonas: vec![
                SemillaZona {
                    nombre: "Zona B".to_string(),
                    filas: vec![SemillaFila {
                        numero: 2,
                        primer_asiento: 3,
                        estados: vec![EstadoSilla::Disponible, EstadoSilla::Comprada],
                    }],
                },
                SemillaZona {
                    nombre: "Zona A".to_string(),
                    filas: vec![SemillaFila {
                        numero: 1,
                        primer_asiento: 1,
                        estados: vec![EstadoSilla::Reservada],
                    }],
                },
            ],
        }],
    };
    let e = inicializar(&semilla);
    let lista = e
        .obtener_asientos_categoria(&"General".to_string())
        .expect("listado");
    let resumen: Vec<(String, u32, u32, EstadoSilla)> = lista
        .iter()
        .map(|a| (a.zona.clone(), a.fila, a.asiento, a.estado))
        .collect();
    assert_eq!(
        resumen,
        vec![
            ("Zona B".to_string(), 2, 3, EstadoSilla::Disponible),
            ("Zona B".to_string(), 2, 4, EstadoSilla::Comprada),
            ("Zona A".to_string(), 1, 1, EstadoSilla::Reservada),
        ]
    );
}
