//! Global keyboard shortcuts: the choice of backend for a desktop session,
//! translation of hot keys into shortcut triggers,
//! collision-free identifiers, and the registry that a dispatcher thread keeps
//! of the shortcuts bound in one backend session.

pub mod backend;
pub mod keys;
pub mod trigger;
pub mod ident;
pub mod registry;
