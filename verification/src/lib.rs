//! A reference-counted handle that keeps an owner alive while it dereferences
//! to one component reachable from that owner.
//!
//! The handle holds one share of the owner and the rule by which the component
//! is reached from it; no unmanaged pointer is stored. Each dereference reaches
//! the component afresh through the share that the handle itself owns, so the
//! component is available for as long as the handle is, whatever becomes of the
//! other shares.

mod extract;
pub mod laws;
mod rc_ref;

pub use rc_ref::RcRef;
