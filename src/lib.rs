//! Bootstrap logic for preparing a source checkout: submodule link repair,
//! the submodule synchronization sequence, credential negotiation for
//! authenticated clones, and progress rendering.

pub mod progress;
pub mod credentials;
pub mod gitlink;
pub mod sync;
pub mod clone;
pub mod cmake;
pub mod input;
