//! Lifecycle orchestration for remotely administered compute units.
//!
//! A unit is created under a set of controllers, may have a code module
//! installed, is started and stopped, topped up, and finally deleted. Only a
//! current controller may administer it. This crate holds the authorization
//! predicate, a model of the unit's lifecycle, and the step function of the
//! three orchestration scenarios.

pub mod principal;
pub mod policy;
pub mod unit;
pub mod orchestrator;
pub mod service;
