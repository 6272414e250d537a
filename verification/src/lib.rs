//! A managed-pointer bridge: generic handle wrappers over a foreign,
//! reference-counted runtime.
//!
//! The foreign runtime owns the objects; the host holds them through two
//! handle kinds, a compact one (one-word control block, non-atomic count)
//! and a full one (two-word control block, atomic count). Every
//! state-changing operation a handle performs is delegated per pointee
//! type, through trampoline entry points whose link names are built
//! deterministically by [`symbol`].
//!
//! So that the handles' lifetime discipline can be verified, the foreign
//! side's observable behaviour — an allocator plus per-object reference
//! counts — is given explicitly as [`runtime::Runtime`]; a deployment routes
//! the same five entry points to the foreign-compiled trampolines instead.

pub mod compact;
pub mod full;
pub mod laws;
pub mod runtime;
pub mod symbol;
pub mod target;

pub use compact::CompactHandle;
pub use full::FullHandle;
pub use runtime::Runtime;
pub use target::CompactTarget;
pub use target::FullTarget;
pub use target::PlainData;
pub use target::SharedPointee;
