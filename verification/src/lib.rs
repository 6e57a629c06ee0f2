//! Decisions of a PAdES signing desktop client and of its errands for
//! electronic offices, stated over plain values and proved.
mod text;
pub mod distinguished;
pub mod catalogue;
pub mod situations;
pub mod frontier;
pub mod token;
pub mod certificates;
pub mod encoding;
pub mod codec;
pub mod configuration;
pub mod memory;
pub mod documents;
pub mod cycle;
pub mod signing;
pub mod stamp;
pub mod filtering;
pub mod errand;
pub mod invocation;
pub mod trust;
pub mod startup;
pub mod policies;
pub mod preview;
pub mod handlers;
pub mod recents;
