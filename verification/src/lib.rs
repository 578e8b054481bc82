//! Client-side core for a scholarly-metadata web service: a quota-governed
//! request pipeline. The [`client::QuotaGovernor`] gates outgoing requests
//! against a per-window budget, and the codec in [`bakery`] converts between
//! payload values and their external representations (text, structured value,
//! byte buffer).

pub mod bakery;
pub mod client;
pub mod config;
pub mod entities;
pub mod error;
