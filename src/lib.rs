//! Steady-state pressure and flow balance of an isothermal three-branch
//! thermal-hydraulic loop.
//!
//! Quantities are fixed-point integers: mass flow rates in milligrams per
//! second (mg/s, one kilogram per second is `1_000_000`) and pressures in
//! millipascals (mPa, one pascal is `1_000`).
//!
//! * [`component`]: the pressure change across one element at a given flow.
//! * [`branch`]: elements in series sharing one flow, and the inverse
//!   problem of flow from pressure change.
//! * [`facility`]: three branches in parallel sharing one pressure change,
//!   with a pump, valves and a check valve.
//! * [`catalog`]: the elements of the reference loop.

pub mod component;
pub mod branch;
pub mod facility;
pub mod catalog;

pub use component::{ComponentError, FluidComponent};
pub use branch::{Branch, BranchError};
pub use facility::{CIETIsothermalFacility, FacilityError, SolveResult};
