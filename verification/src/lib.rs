//! A verified model of the lowest layer of a native-extension bridge: the
//! code that sits between extension logic and a garbage-collected host
//! runtime's embedding ABI.
//!
//! The host side of the ABI (its handle table, scope stack, collector and
//! status codes) is modelled explicitly as plain data in [`host`], so that
//! the bridge logic built on top of it — binding-table lifecycle, call
//! descriptor adaptation, external values with exactly-once finalization,
//! and scoped handle regions — can be stated and proved precisely. The raw
//! C function table that a real host supplies is unverifiable foreign code;
//! everything this crate proves is about the decisions the bridge makes
//! around those calls.

pub mod array;
pub mod bindings;
pub mod call;
pub mod external;
pub mod primitive;
pub mod host;
pub mod raw;
pub mod scope;
