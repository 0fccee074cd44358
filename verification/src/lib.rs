//! # Coffee Filter
//!
//! The verified core of a binding layer over the JVM Tool Interface (JVM TI).
//!
//! Everything here works on plain values: a native pointer is the address it
//! holds (a `usize`, zero for null), a native status is the number the runtime
//! returned. The embedding layer makes the native calls and hands their
//! results to the functions of this crate, which decide what they mean.
pub mod agent_callback;
pub mod jvm;
pub mod prelude;
pub mod sys;
