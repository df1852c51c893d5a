//! Reference-counted sleep inhibition for tunnel hosting.
//!
//! While at least one tunnel session holds an [`handle::InhibitorHandle`], the
//! host must not suspend. The [`manager::InhibitionManager`] counts the holders
//! and decides when the platform's power-management facility has to be engaged
//! and when it can be let go; the native calls themselves are performed by the
//! embedding program, which hands their replies back.
//!
//! [`pets`] is a small lookup of records by their identifier.

pub mod backend;
pub mod error;
pub mod handle;
pub mod manager;
pub mod pets;
pub mod protocol;
