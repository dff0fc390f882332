//! Sandbox profiles: finding a profile by name among ordered search roots,
//! decoding its TOML text against the profile schema and checking the fields
//! that a profile must define.

pub mod document;
pub mod load;
pub mod profile;
pub mod resolve;
pub mod schema;
