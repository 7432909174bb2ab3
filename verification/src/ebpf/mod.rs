//! The kernel side: the declarations of maps as a loader finds them, and
//! what the answers of the kernel's helpers mean.
//!
//! A program that runs in the kernel reaches its maps through helpers. The
//! calls themselves are not made here: each operation takes the helper's
//! answer, an address or a status, and says what it stands for.

pub mod btf_maps;
pub mod maps;
pub mod programs;
