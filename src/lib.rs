//! Host-side logic of a binding layer over a native NTFS decoding engine.
//!
//! The native engine is reached through its entry points, which callers hand
//! to this library as closures; the library decides which entry points are
//! called, in which order, and how their replies become typed values.
pub mod attribute;
pub mod attribute_type;
pub mod backend;
pub mod error;
pub mod ffi;
pub mod file_entry;
pub mod filetime;
pub mod handle;
pub mod sized;
pub mod stream;
pub mod volume;
