//! Mission logic for an asteroid-rendezvous spacecraft: phase machines,
//! manoeuvre decisions, orbit-determination bookkeeping, ephemeris text
//! formats, attitude-law selection and trajectory-search bookkeeping.
//!
//! Measured quantities enter as [`scalar::Scalar`], an IEEE 754 double held by
//! its bit pattern: every threshold is compared here, and the arithmetic that
//! produces the compared numbers belongs to the caller.

pub mod attitude_tuning;
pub mod bennu_ephem;
pub mod commander;
pub mod cruise_design;
pub mod cruise_operations;
pub mod dsn;
pub mod dynamics;
pub mod ekf;
pub mod flyby_chain;
pub mod landmark;
pub mod mission_pipeline;
pub mod mission_state;
pub mod opnav;
pub mod pointing;
pub mod proximity_init;
pub mod proximity_mission;
pub mod proximity_ops;
pub mod scalar;
pub mod schedule;
pub mod selection;
pub mod server;
pub mod soi;
pub mod text;
pub mod trajectory_search;
