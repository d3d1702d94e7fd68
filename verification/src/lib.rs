//! System-call boundary of a single-CPU, cooperatively scheduled teaching
//! kernel: the handlers that let a user task request lifecycle transitions
//! (exit, yield), query time and scheduling telemetry, and manage its own
//! virtual-address-space mappings (mmap/munmap/sbrk).
//!
//! The task directory that the handlers mutate is an explicitly owned value
//! ([`directory::TaskDirectory`]) indexed by task id, so callers and tests can
//! construct isolated instances. The trap entry path that decodes raw
//! registers, the page-table walker that resolves user pointers, the physical
//! frame allocator and the monotonic clock are collaborators outside this
//! crate: the handlers take plain values from them (the clock reading in
//! microseconds) and hand plain values back (the composed `TimeVal` or
//! `TaskInfo` to be written through the translator).

pub mod directory;
pub mod mapping;
pub mod task;
pub mod time;
