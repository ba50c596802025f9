//! Bindable input actions: user-configurable key and pointer bindings with
//! verified edge detection.
//!
//! A binding resolves to a single physical input code. The host samples the
//! raw level of that code (one OS read per poll) and hands it to the binding,
//! which derives exactly-once press/release events through a shared
//! [`tracker::TransitionTracker`].

pub mod either;
pub mod keycodes;
pub mod keys;
pub mod laws;
pub mod target;
pub mod tracker;

pub use either::KeyOrPointer;
pub use keys::Key;
pub use keys::Modifiers;
pub use keys::PointerButton;
pub use target::BindTarget;
pub use tracker::TransitionTracker;
