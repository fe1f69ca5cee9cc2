//! Speed-density fuel model: manifold pressure, intake temperature and
//! volumetric efficiency to air mass per intake event, and air mass plus a
//! target air-fuel ratio to an injector pulse width.
//!
//! All quantities are integers in fixed units so that every formula has an
//! exact contract: air mass in micrograms, injector flow in micrograms per
//! second, air-fuel ratio in tenths.

use vstd::prelude::*;

verus! {

/// Specific gas constant of air, in centi-joules per gram-kelvin
/// (287.05 J/(kg K) times 100).
pub const R_SPECIFIC_AIR_X100: u64 = 28705;

/// Density of gasoline in micrograms per cubic centimetre (0.74 g/cc).
pub const FUEL_DENSITY_UG_PER_CC: u64 = 740_000;

/// Physical model of one engine's fueling: per-cylinder volume and injector
/// flow, both fixed at construction.
pub struct SpeedDensity {
    /// Volume of a single cylinder in cubic centimetres.
    pub cylinder_volume_cc: u32,
    /// Injector flow in micrograms of fuel per second.
    pub injector_flow_ug_s: u32,
}

impl SpeedDensity {
    /// Well-formedness: a real cylinder and an injector that flows, small
    /// enough that the fixed-point formulas cannot overflow.
    pub open spec fn wf(self) -> bool {
        &&& 1 <= self.cylinder_volume_cc <= 100_000
        &&& 1 <= self.injector_flow_ug_s <= 100_000_000
    }

    /// The per-cylinder volume `new` derives, in cc: total displacement
    /// divided among the cylinders, rounded down.
    pub open spec fn spec_cylinder_volume_cc(displacement_cc: u32, cylinders: u8) -> int {
        displacement_cc as int / cylinders as int
    }

    /// The injector flow `new` derives, in micrograms of gasoline per
    /// second: cc/min times the fuel density, divided by 60.
    pub open spec fn spec_injector_flow_ug_s(injector_cc_min: u32) -> int {
        injector_cc_min * FUEL_DENSITY_UG_PER_CC / 60
    }

    /// Build the model from user-facing units: total displacement in cc,
    /// cylinder count, and injector flow in cc of gasoline per minute.
    pub fn new(displacement_cc: u32, cylinders: u8, injector_cc_min: u32) -> (m: SpeedDensity)
        requires
            1 <= cylinders,
            cylinders <= displacement_cc,
            displacement_cc <= 100_000,
            1 <= injector_cc_min <= 5_000,
        ensures
            m.cylinder_volume_cc == Self::spec_cylinder_volume_cc(displacement_cc, cylinders),
            m.injector_flow_ug_s == Self::spec_injector_flow_ug_s(injector_cc_min),
            m.wf(),
    {
        let vol_per_cyl_cc: u32 = displacement_cc / (cylinders as u32);
        let flow_ug_s: u64 = (injector_cc_min as u64) * FUEL_DENSITY_UG_PER_CC / 60;
        proof {
            assert(1 <= displacement_cc as int / cylinders as int <= 100_000)
                by (nonlinear_arith)
                requires 1 <= cylinders <= displacement_cc <= 100_000
            ;
            assert(Self::spec_injector_flow_ug_s(injector_cc_min) >= 740_000int / 60)
                by (nonlinear_arith)
                requires injector_cc_min >= 1
            ;
            assert(Self::spec_injector_flow_ug_s(injector_cc_min) <= 5_000int * 740_000 / 60)
                by (nonlinear_arith)
                requires injector_cc_min <= 5_000
            ;
        }
        SpeedDensity { cylinder_volume_cc: vol_per_cyl_cc, injector_flow_ug_s: flow_ug_s as u32 }
    }

    /// The mass of air drawn by one cylinder in one intake event, in
    /// micrograms, by the ideal-gas law: density P/(R T) times the cylinder
    /// volume, scaled by the volumetric efficiency.
    pub open spec fn spec_air_mass_ug(self, map_kpa: u32, iat_c: i32, ve_percent: u32) -> int {
        100_000_000 * map_kpa * self.cylinder_volume_cc * ve_percent / (R_SPECIFIC_AIR_X100 * (
        100 * iat_c + 27315))
    }

    /// Air mass per intake event per cylinder, in micrograms.
    ///
    /// `map_kpa`: manifold absolute pressure in kPa; `iat_c`: intake air
    /// temperature in whole degrees Celsius; `ve_percent`: volumetric
    /// efficiency in percent.
    pub fn calculate_air_mass(&self, map_kpa: u32, iat_c: i32, ve_percent: u32) -> (mass_ug: u64)
        requires
            self.wf(),
            map_kpa <= 1_000,
            -200 <= iat_c <= 1_000,
            ve_percent <= 500,
        ensures
            mass_ug == self.spec_air_mass_ug(map_kpa, iat_c, ve_percent),
    {
        // Temperature in centikelvin and R in centi-units: the two factors
        // of 100 cancel against the 10^8 scale of the numerator.
        proof {
            assert(0 <= 100_000_000int * map_kpa <= 100_000_000_000int) by (nonlinear_arith)
                requires 0 <= map_kpa <= 1_000
            ;
            assert(0 <= 100_000_000int * map_kpa * self.cylinder_volume_cc
                <= 10_000_000_000_000_000int) by (nonlinear_arith)
                requires
                    0 <= 100_000_000int * map_kpa <= 100_000_000_000int,
                    0 <= self.cylinder_volume_cc <= 100_000,
            ;
            assert(0 <= 100_000_000int * map_kpa * self.cylinder_volume_cc * ve_percent
                <= 5_000_000_000_000_000_000int) by (nonlinear_arith)
                requires
                    0 <= 100_000_000int * map_kpa * self.cylinder_volume_cc
                        <= 10_000_000_000_000_000int,
                    0 <= ve_percent <= 500,
            ;
            assert(28705int * 7315 <= 28705int * (100 * iat_c + 27315) <= 28705int * 127315)
                by (nonlinear_arith)
                requires -200 <= iat_c <= 1_000
            ;
        }
        let temp_ck: i64 = 100 * (iat_c as i64) + 27315;
        let denom: u64 = R_SPECIFIC_AIR_X100 * (temp_ck as u64);
        let numer: u64 = 100_000_000u64 * (map_kpa as u64) * (self.cylinder_volume_cc as u64) * (
        ve_percent as u64);
        numer / denom
    }

    /// The pulse width, in microseconds, that injects `air_mass_ug / afr`
    /// of fuel at the model's injector flow; zero when the target ratio is
    /// not positive, so the injector stays closed. Saturates at u32::MAX.
    pub open spec fn spec_pulse_width_us(self, air_mass_ug: u64, afr_target_x10: i32) -> int {
        if afr_target_x10 <= 0 {
            0
        } else {
            let exact = air_mass_ug * 10_000_000 / (afr_target_x10 * self.injector_flow_ug_s);
            if exact > u32::MAX {
                u32::MAX as int
            } else {
                exact
            }
        }
    }

    /// Injector pulse width in microseconds for a cylinder charge of
    /// `air_mass_ug` micrograms of air at a target air-fuel ratio given in
    /// tenths (147 = 14.7:1). A non-positive target commands no injection.
    pub fn calculate_pulse_width_us(&self, air_mass_ug: u64, afr_target_x10: i32) -> (pw_us: u32)
        requires
            self.wf(),
            air_mass_ug <= 1_000_000_000,
            afr_target_x10 <= 10_000,
        ensures
            pw_us == self.spec_pulse_width_us(air_mass_ug, afr_target_x10),
    {
        if afr_target_x10 <= 0 {
            return 0;
        }
        proof {
            assert(1 <= afr_target_x10 as int * self.injector_flow_ug_s
                <= 10_000int * 100_000_000) by (nonlinear_arith)
                requires
                    1 <= afr_target_x10 <= 10_000,
                    1 <= self.injector_flow_ug_s <= 100_000_000,
            ;
        }
        let denom: u64 = (afr_target_x10 as u64) * (self.injector_flow_ug_s as u64);
        let exact: u64 = air_mass_ug * 10_000_000 / denom;
        if exact > (u32::MAX as u64) {
            u32::MAX
        } else {
            exact as u32
        }
    }
}

/// The exact (unrounded) air-mass value is linear in the volumetric
/// efficiency, and the computed integer value differs from scaled linearity
/// only by the final rounding: doubling VE yields exactly twice the mass up
/// to one microgram.
pub proof fn lemma_air_mass_linear_in_ve(m: SpeedDensity, map_kpa: u32, iat_c: i32, ve: u32)
    requires
        m.wf(),
        map_kpa <= 1_000,
        -200 <= iat_c <= 1_000,
        ve <= 250,
    ensures
        2 * m.spec_air_mass_ug(map_kpa, iat_c, ve) <= m.spec_air_mass_ug(map_kpa, iat_c, (2 * ve)
            as u32) <= 2 * m.spec_air_mass_ug(map_kpa, iat_c, ve) + 1,
{
    let c = 100_000_000int * map_kpa * m.cylinder_volume_cc;
    let d = 28705int * (100 * iat_c + 27315);
    assert(1 <= d) by (nonlinear_arith)
        requires
            -200 <= iat_c <= 1_000,
            d == 28705int * (100 * iat_c + 27315),
    ;
    assert(m.spec_air_mass_ug(map_kpa, iat_c, ve) == c * ve / d);
    assert(m.spec_air_mass_ug(map_kpa, iat_c, (2 * ve) as u32) == c * (2 * ve) / d);
    assert(2 * (c * ve / d) <= c * (2 * ve) / d <= 2 * (c * ve / d) + 1) by (nonlinear_arith)
        requires
            0 <= map_kpa,
            0 <= m.cylinder_volume_cc,
            c == 100_000_000int * map_kpa * m.cylinder_volume_cc,
            1 <= d,
            0 <= ve,
    ;
}

} // verus!
