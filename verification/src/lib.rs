//! The decisions of the Android Binder driver's entry points, verified.
//!
//! The driver sits between the C file system that exports it and the modules that own
//! processes, threads and contexts. What it decides itself is here: which service is
//! asked for what and in which order, what happens when one of them fails, and what is
//! handed back to the caller. An operation that talks to such a service in the middle
//! of its work is a chain of steps. A step names the one thing to do next and carries
//! the value that takes the reply and gives the next step, so that a reply of the wrong
//! kind cannot be given.

pub mod align;
pub mod context_ops;
pub mod debug_id;
pub mod deliver;
pub mod device;
pub mod error;
pub mod file_ops;
pub mod file_ops_run;
pub mod module;
pub mod proc_file;
pub mod show;
pub mod show_order;
pub mod show_run;
pub mod text;
pub mod writer;
