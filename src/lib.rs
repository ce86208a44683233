//! Loading plugins from shared libraries at run time.
//!
//! The verified part of the library holds the identity scheme for plugin
//! types, the host state that plugins act on, and the state machine that
//! decides what a dynamically loaded plugin library may be trusted with.
//! Opening libraries and calling into them is left to the caller, which
//! reports each outcome to the state machine.
pub mod identity;
pub mod host;
pub mod loader;
