//! Policy reconciliation for ASUS laptop hardware settings.
//!
//! The library owns the persisted policy store, decides which hardware
//! writes each event calls for, and classifies firmware-attribute changes.
//! Performing the writes is left to the caller: every decision function
//! returns the list of [`engine::HalOp`]s to carry out, in order.
use vstd::prelude::*;

pub mod anime;
pub mod attribute;
pub mod codec;
pub mod engine;
pub mod gfx;
pub mod laws;
pub mod policy;
pub mod states;

verus! {

} // verus!
