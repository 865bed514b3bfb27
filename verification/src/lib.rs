//! Host-side core of a driver for the Acconeer A121 radar sensor.
//!
//! The measurement algorithms of the A121 run inside the vendor's radar
//! system software (the *engine*), which is reached through a narrow set of
//! synchronous calls and one interrupt line. This crate is the part of the
//! driver that decides: it sizes the buffers that are handed to the engine,
//! holds the configuration rules, and runs the sensor lifecycle and the
//! calibration and measurement protocols as explicit state machines. It never
//! touches hardware itself. A driver performs the directive that the core
//! hands out (call an engine primitive, power-cycle the sensor, wait for the
//! interrupt) and reports the outcome back as an event.
//!
//! Every function of the crate carries a contract that is checked by Verus.

/// Configuration for the radar sensor
pub mod config;
/// Detector modules for the radar sensor
pub mod detector;
/// Heap and buffer size accounting
pub mod memory;

/// Number definitions for the radar sensor
pub mod num;
/// Processing results of the radar sensor
pub mod processing;
/// Main radar module, the lifecycle of the radar sensor
pub mod radar;
/// Sensor module for the radar sensor
pub mod sensor;
