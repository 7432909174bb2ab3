//! Userspace side of a kernel-instrumentation toolkit: object parsing,
//! relocation, map and program registries, and the ring-buffer consumer
//! protocol, all as pure functions over plain values.
//!
//! The library performs no system calls. Every operation that involves the
//! kernel takes the kernel's answer as an argument, so that a thin driver
//! can perform the calls and the library decides what they mean.
//!
//! - `obj` parses an object and patches its code.
//! - `maps` holds the maps with their handles and borrow states, the typed
//!   views of maps, and the consumer of a ring buffer.
//! - `programs` holds the programs with their load states and attachments.
//! - `bpf` loads an object and finds its maps and programs by name;
//!   `loader` does the load step by step, one question to the kernel at a
//!   time.
//! - `ebpf` is the kernel's side of maps and programs.

pub mod bpf;
pub mod bytes;
pub mod ebpf;
pub mod loader;
pub mod macros;
pub mod maps;
pub mod obj;
pub mod programs;
pub mod search;
pub mod sys;
pub mod util;
