//! A lock abstraction that generic code can be written against once.
//!
//! `Locklet` is the locking interface, implemented for the spin-wait
//! reader-writer lock, which `Lock` names as the backend of this build; the
//! non-blocking requests of the operating system's lock and of the
//! single-owner cell stand beside it. `Holders` is a model of the admission
//! rule of a reader-writer lock, with its laws proved; the locks themselves
//! are not tied to it. The marker traits say what is safe to hand to, or
//! share with, other threads.

pub mod access;
pub mod error;
pub mod lock;
pub mod markers;

pub use access::Holders;
pub use error::Error;
pub use lock::{
    cell_try_read_lock, cell_try_write_lock, granted_even_if_poisoned, granted_if_ok, granted_if_some,
    os_try_read_lock, os_try_write_lock, Lock, Locklet,
};
pub use markers::{HBoxAny, HBoxError, HBoxFuture, HFuture, HSend, HSendSync, HSync, Hrc};
