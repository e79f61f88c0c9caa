//! Token-based subscription confirmation: resolving a one-time opaque token
//! to a subscriber and atomically moving that subscriber from pending to
//! confirmed, with an exact account of every failure path. The workflow runs
//! against an explicit storage capability, so a transport layer can drive the
//! same decisions over a real store through the decision functions.

pub mod confirmation;
pub mod domain;
pub mod store;
