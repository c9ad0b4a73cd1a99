//! Offline inspection of VST 3 plugin binaries: the protocol that drives a
//! plugin from creation to teardown, the host callback object's reference
//! counting, and the record that the inspection produces.
pub mod bundle;
pub mod classes;
pub mod guarantees;
pub mod host;
pub mod inspection;
pub mod model;
pub mod protocol;
pub mod record;
pub mod text;
