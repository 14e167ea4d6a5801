//! A small ownership layer over a platform's dynamic-library loader.
//!
//! The library never calls the loader itself. It decides, for each operation,
//! exactly which native call is to be made and with which arguments, and it
//! turns what the loader hands back into typed values. The caller performs the
//! native call in between.
pub mod cstr;
pub mod handle;
pub mod loader;
