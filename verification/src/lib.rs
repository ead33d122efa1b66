//! A verified logging facade for an nginx-style logging host.
//!
//! The host owns the log sinks and performs the actual writes; this crate
//! holds the pure part of the facade: the debug-mask filtering rule, the
//! severity-threshold rule, and the conversions between the named debug
//! categories and the host's numeric bit flags.

pub mod log;
