use engine_core::tables::Table3D;

// A simple 2x2 table:
//   x axis (RPM):  1000, 2000
//   y axis (kPa):  50, 100
//   data:          50 kPa ->  10, 20
//                  100 kPa -> 30, 40
fn sample_table() -> Table3D {
    let x_axis = vec![1000, 2000];
    let y_axis = vec![50, 100];
    let data = vec![vec![10, 20], vec![30, 40]];
    Table3D::new(x_axis, y_axis, data)
}

#[test]
fn test_exact_interpolation() {
    let table = sample_table();

    // Exactly on the node (1000 RPM, 50 kPa): 10.
    assert_eq!(table.interpolate(1000, 50), 10);

    // Exactly on the node (2000 RPM, 100 kPa): 40.
    assert_eq!(table.interpolate(2000, 100), 40);
}

#[test]
fn test_interpolacion_mitad() {
    let tabla = sample_table();

    // Right in the middle (1500 RPM, 75 kPa): along x the rows give 15 and
    // 35, and halfway between those is 25.
    let val = tabla.interpolate(1500, 75);
    assert_eq!(val, 25);
}

#[test]
fn test_clamping_fuera_de_rango() {
    let tabla = sample_table();

    // 5000 RPM is beyond the axis: clamp to the 2000 RPM column, so at
    // 50 kPa the value is 20.
    assert_eq!(tabla.interpolate(5000, 50), 20);
}

#[test]
fn test_clamping_below_range() {
    let tabla = sample_table();

    // Below both axes: clamp to the low corner.
    assert_eq!(tabla.interpolate(0, 0), 10);
}

#[test]
fn test_interpolation_one_axis() {
    let tabla = sample_table();

    // Partway along x only: 1250 RPM at 50 kPa is a quarter of the way
    // from 10 to 20.
    assert_eq!(tabla.interpolate(1250, 50), 12);

    // Partway along y only: 1000 RPM at 90 kPa is 0.8 of the way from 10
    // to 30.
    assert_eq!(tabla.interpolate(1000, 90), 26);
}

#[test]
fn test_negative_axis_values() {
    // An axis may hold negative breakpoints (a temperature axis).
    let x_axis = vec![-40, 0, 40];
    let y_axis = vec![0, 1];
    let data = vec![vec![100, 60, 20], vec![100, 60, 20]];
    let t = Table3D::new(x_axis, y_axis, data);

    assert_eq!(t.interpolate(-40, 0), 100);
    assert_eq!(t.interpolate(-20, 0), 80);
    assert_eq!(t.interpolate(20, 1), 40);
}
