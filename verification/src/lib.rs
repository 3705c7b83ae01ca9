//! A block-addressable storage abstraction: fixed-size blocks, validated
//! device metadata, and interchangeable in-memory backends behind one
//! bounds-checked read/write/persist interface.

pub mod block_device;
