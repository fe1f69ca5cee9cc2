use engine_core::fuel_model::SpeedDensity;

#[test]
fn test_calculo_inyeccion_estandar() {
    // A 2000 cc engine with 4 cylinders and 300 cc/min injectors.
    let motor = SpeedDensity::new(2000, 4, 300);

    // 100 kPa, 20 degrees C, 100% VE, target AFR 14.7.
    let map_kpa = 100;
    let iat_c = 20;
    let ve = 100;
    let target_afr_x10 = 147;

    // Air mass close to 0.59 g: between 0.59 and 0.60 g in micrograms.
    let air_mass_ug = motor.calculate_air_mass(map_kpa, iat_c, ve);
    assert!(
        air_mass_ug > 590_000 && air_mass_ug < 600_000,
        "wrong air mass: {} ug",
        air_mass_ug
    );

    // Pulse width around 10.9 ms, with margin for constant rounding.
    let pw_us = motor.calculate_pulse_width_us(air_mass_ug, target_afr_x10);
    assert!(pw_us > 10_700 && pw_us < 11_100, "wrong pulse width: {} us", pw_us);
}

#[test]
fn test_ve_effect() {
    let motor = SpeedDensity::new(2000, 4, 300);

    // Halving the volumetric efficiency must halve the air mass, up to the
    // final integer rounding.
    let air_100 = motor.calculate_air_mass(100, 20, 100) as i64;
    let air_50 = motor.calculate_air_mass(100, 20, 50) as i64;

    assert!((air_50 - air_100 / 2).abs() < 1000);
}

#[test]
fn test_air_mass_exact_value() {
    // One exact evaluation of the ideal-gas formula in fixed point:
    // 10^8 * 100 * 500 * 100 / (28705 * 29315) = 594186 ug.
    let motor = SpeedDensity::new(2000, 4, 300);
    assert_eq!(motor.cylinder_volume_cc, 500);
    assert_eq!(motor.injector_flow_ug_s, 3_700_000);
    assert_eq!(motor.calculate_air_mass(100, 20, 100), 594_186);
}

#[test]
fn test_pulse_width_exact_value() {
    // 594186 ug of air at 14.7:1 through a 3.7 g/s injector:
    // 594186 * 10^7 / (147 * 3700000) = 10924 us.
    let motor = SpeedDensity::new(2000, 4, 300);
    assert_eq!(motor.calculate_pulse_width_us(594_186, 147), 10_924);
}

#[test]
fn test_pulse_width_nonpositive_afr() {
    // A target AFR of zero or below commands no injection at all.
    let motor = SpeedDensity::new(2000, 4, 300);
    assert_eq!(motor.calculate_pulse_width_us(594_186, 0), 0);
    assert_eq!(motor.calculate_pulse_width_us(594_186, -147), 0);
}

#[test]
fn test_air_mass_cold_air_is_denser() {
    // The same pressure at a lower temperature holds more air.
    let motor = SpeedDensity::new(2000, 4, 300);
    let cold = motor.calculate_air_mass(100, -20, 100);
    let hot = motor.calculate_air_mass(100, 60, 100);
    assert!(cold > hot);
}
