//! A verified core for a small fleet of simulated home-automation sensors.
//!
//! The heart of the crate is the gauge wire protocol: a compact,
//! self-describing binary frame format ([`codec`]), the per-kind state
//! machines with their byte encodings ([`types`]), and the registry that
//! routes an inbound frame to the decoder of the kind its identifier
//! names ([`helpers`]). Around it stand the textual HTTP front end
//! ([`http`]) and the house-layout model with its JSON form
//! ([`house_layout`], [`json`]), plus the character-level utilities they
//! share ([`text`]).
//!
//! Every executable function carries a contract; the laws of the protocol
//! — round-trip, truncation rejection, unknown-kind passthrough, tag
//! exhaustiveness — are stated and proved in [`helpers`].
use vstd::prelude::*;

pub mod codec;
pub mod helpers;
pub mod house_layout;
pub mod http;
pub mod json;
pub mod text;
pub mod types;

verus! {

} // verus!
