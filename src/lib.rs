//! Client library for an exchange's market-data and user-data streams and
//! its REST request shapes.
use vstd::prelude::*;

pub mod account;
pub mod error;
pub mod events;
pub mod json;
pub mod market;
pub mod rest;
pub mod text;
pub mod userstream;
pub mod websockets;

verus! {

} // verus!
