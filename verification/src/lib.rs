//! A verified kernel-image loader for a firmware-stage boot program.
//!
//! The library parses a position-dependent executable image, bounds-checks
//! its program-header table, computes the page-granular memory layout of
//! every loadable segment, and produces the exact byte content that belongs
//! at each destination address.  The surrounding firmware program performs
//! the file read, the fixed-address page allocation, and the final transfer
//! of control; everything it decides with is computed and proved here.

pub mod bytes;
pub mod errors;
pub mod header;
pub mod idt;
pub mod kernel_args;
pub mod loader;
pub mod phdrs;
pub mod segments;
