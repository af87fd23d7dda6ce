//! The Linux ABI rules used by the Kobo Clara BW runtime.
//!
//! Nothing here talks to the kernel. Each module says which call is to be made
//! and with which bytes, and what a reply means; the code that performs the
//! calls lives around this library.

pub mod failure;
pub mod fb;
pub mod filter;
pub mod hwtcon;
pub mod input;
pub mod ioctl;
pub mod process;
pub mod process_group;
pub mod procfs;
pub mod pty;
pub mod sandbox;
pub mod space;
pub mod step;
pub mod stop;
pub mod text;
pub mod wire;

pub use ioctl::{ioc, ior, iow, iowr};
pub use space::free_space;
