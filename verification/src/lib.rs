//! Decision core for bootstrapping a graphics-API execution context.
//!
//! The library models the whole startup chain — driver library, context
//! handle, presentation surface, physical-device selection, logical-device
//! construction — as plain data, and verifies every decision made along the
//! way: validation-layer checking, extension-set assembly, device eligibility
//! and ranking, queue-family matching, and reverse-order teardown.
//!
//! Talking to the actual driver (loading it, creating objects, querying
//! per-device properties) is left to a thin unverified shell that converts
//! queried properties into the types of this crate, asks the library what to
//! do, and performs the answer.

pub mod context;
pub mod device;
pub mod diagnostics;
pub mod errors;
pub mod logical;
pub mod select;
pub mod teardown;

pub use errors::BootstrapError;
