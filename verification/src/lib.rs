//! Discrete core of an interactive 2D vector-field sandbox: the selectable
//! modes and their labels, the integer and boolean settings, the border
//! rules, the bounded particle trails, the particle pool, and the pointer
//! handling of the gravity sandbox.
pub mod border;
pub mod pool;
pub mod sandbox;
pub mod settings;
pub mod trail;
