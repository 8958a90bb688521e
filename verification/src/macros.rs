//! Support for the bootstrap glue that a test binary wraps around the
//! harness.

pub mod klib;
