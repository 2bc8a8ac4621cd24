//! An in-memory byte-addressable storage object behind a file-like interface.
//!
//! A single growable byte buffer is guarded by a reader-writer lock and
//! shared, through reference counting, among any number of open handles.
//! Reads copy out of the buffer at an offset, truncated to the bytes
//! available; writes copy into the buffer at an offset, growing it with
//! zero fill as needed.

pub mod buffer;
pub mod device;
