//! Core of an engine control unit for spark-ignition engines: a
//! missing-tooth crankshaft trigger decoder, bilinear calibration-table
//! interpolation, and a speed-density fuel model.
//!
//! The decoder consumes timestamped rising edges from a crankshaft position
//! sensor reading a toothed wheel with a missing-tooth gap (60-2, 36-1, ...)
//! and produces a synchronized tooth index / crank angle, instantaneous and
//! filtered engine speed, and a synchronization state. The tables and the
//! fuel model turn manifold pressure, air temperature and volumetric
//! efficiency into an injector pulse width.
//!
//! All hot-path arithmetic is integer-only; angles are reported in
//! millidegrees and air mass in micrograms so that every computation has an
//! exact contract.

pub mod decoder;
pub mod engine_io;
pub mod fuel_model;
pub mod ignition;
pub mod missing_tooth;
pub mod sensors;
pub mod tables;
