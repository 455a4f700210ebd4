//! Pinned self-referential containers.
//!
//! A self-referential container owns a payload and, once initialized, a
//! derived reference that designates the storage of that same payload. Such a
//! reference is sound only while the container's storage stays where it is, so
//! the container must be *pinned* — its location fixed for the rest of its
//! lifetime — before the reference is computed.
//!
//! Two variants share the idea and differ only in where the storage lives:
//!
//! - [`stack_pinned::Test`] is anchored to a caller-owned slot. The caller
//!   pins it in place under an unchecked promise that the slot will not move,
//!   then runs a one-time initialization step that computes the derived
//!   reference. Reading the derived reference before initialization is a
//!   programmer error and is rejected.
//! - [`heap_pinned::Test`] owns its storage outright, so construction,
//!   pinning and initialization collapse into a single step and every handle
//!   is readable from the moment it exists.
//!
//! Raw self-pointers cannot be verified, so both variants model the derived
//! reference instead of storing an address to chase: the stack variant records
//! the pinned slot's location token and the slot the derived reference
//! designates, and its invariant ties the two together; the heap variant makes
//! the derived reference structural, resolving it to the payload field it
//! owns. Every accessor's contract states exactly what the reference resolves
//! to, and the lifecycle laws are proved over the abstract models.

pub mod heap_pinned;
pub mod stack_pinned;
