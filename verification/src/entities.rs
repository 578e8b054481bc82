//! Typed entity shapes mirroring the service's resources. These are
//! data-only: every field is optional, so a partial document maps onto a
//! partially filled value.

pub mod common;
