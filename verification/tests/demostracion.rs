//! El recinto de demostración: su forma fija y los estados sembrados.

use boleteria::estado::EstadoSilla;
use boleteria::semilla::inicializar_mapeo;

#[test]
fn forma_del_recinto() {
    let e = inicializar_mapeo();
    let nombres: Vec<&str> = e.categorias.iter().map(|c| c.nombre.as_str()).collect();
    assert_eq!(
        nombres,
        vec!["Platea Este", "Platea Oeste", "General Norte", "General Sur"]
    );
    for c in &e.categorias {
        let zonas: Vec<&str> = c.zonas.iter().map(|z| z.nombre.as_str()).collect();
        assert_eq!(zonas, vec!["Zona A", "Zona B", "Zona C"]);
        for z in &c.zonas {
            assert_eq!(z.filas.len(), 2);
            assert_eq!(z.filas[0].numero, 1);
            assert_eq!(z.filas[1].numero, 2);
            let bajos: Vec<u32> = z.filas[0].sillas.iter().map(|s| s.numero).collect();
            assert_eq!(bajos, (1..=10).collect::<Vec<u32>>());
            let altos: Vec<u32> = z.filas[1].sillas.iter().map(|s| s.numero).collect();
            assert_eq!(altos, (11..=20).collect::<Vec<u32>>());
        }
    }
}

#[test]
fn estados_sembrados() {
    let e = inicializar_mapeo();
    let lista = e
        .obtener_asientos_categoria(&"Platea Este".to_string())
        .expect("listado");
    // Tres zonas de veinte sillas.
    assert_eq!(lista.len(), 60);
    // Fila baja: el resto de dividir el número entre cinco decide; fila
    // alta: el resto entre seis.
    for a in &lista {
        let esperado = if a.fila == 1 {
            match a.asiento % 5 {
                0 => EstadoSilla::Reservada,
                1 => EstadoSilla::Comprada,
                _ => EstadoSilla::Disponible,
            }
        } else {
            match a.asiento % 6 {
                0 => EstadoSilla::Comprada,
                1 => EstadoSilla::Reservada,
                _ => EstadoSilla::Disponible,
            }
        };
        assert_eq!(a.estado, esperado, "silla {} de fila {}", a.asiento, a.fila);
    }
}

#[test]
fn busqueda_sobre_la_demostracion() {
    // En la fila baja la primera corrida de tres disponibles es 2-3-4
    // (la 1 está comprada y la 5 reservada).
    let mut e = inicializar_mapeo();
    let refs = e
        .reservar_asientos(&"Platea Este".to_string(), 3, 10)
        .expect("reserva");
    let posiciones: Vec<(String, u32, u32)> = refs
        .iter()
        .map(|r| (r.zona.clone(), r.fila, r.asiento))
        .collect();
    assert_eq!(
        posiciones,
        vec![
            ("Zona A".to_string(), 1, 2),
            ("Zona A".to_string(), 1, 3),
            ("Zona A".to_string(), 1, 4),
        ]
    );
}
