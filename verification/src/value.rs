//! Building values: the checked constructors of graph nodes and the typed
//! handles on top of them.

pub mod primitives;
pub mod scalar;
