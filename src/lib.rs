//! Conversion of a resolved multi-environment lockfile into an explicit,
//! content-addressed package list for a single environment and platform.
pub mod error;
pub mod explicit;
pub mod hex;
pub mod lockfile;
pub mod package_url;
pub mod pipeline;
