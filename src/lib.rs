//! Image upload and lookup: allocation of variant filename groups, the
//! per-user group store, and the decisions behind upload and lookup.

pub mod model;
pub mod store;
pub mod image;
pub mod laws;
pub mod presign;
