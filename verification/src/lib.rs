//! A safe, verified model of a pull-based media processing host and the
//! plugin layer above it: reference-counted handles for host-owned objects,
//! a tagged property-map bridge, and the two-phase filter activation
//! protocol that drives frame production.

pub mod api;
pub mod vscore;
pub mod filters;
pub mod frame;
pub mod function;
pub mod host;
pub mod key;
pub mod map;
pub mod node;
pub mod plugin;
pub mod utils;
pub mod vs;

use vstd::prelude::*;

verus! {

} // verus!
