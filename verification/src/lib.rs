//! A pluggable device-session framework.
//!
//! A long-lived driver registers itself with a host, hands out one session
//! per open, and moves bytes between the driver and a segmented byte region
//! that the driver does not control. The host, the threads and the lock
//! around shared state are outside this library: it holds the decisions, as
//! functions from a state and what happened to the next state and what to do.
//!
//! The modules of the framework, leaf first:
//! - [`error`]: the errors that the framework surfaces;
//! - [`io_buffer`] and [`iov_iter`]: readers and writers, and the cursor over
//!   a byte region that is both;
//! - [`semaphore`]: a counting semaphore as a state machine;
//! - [`file_operations`]: what a session can do, and the dispatch of numbered
//!   commands;
//! - [`miscdev`]: the registration of a device, and a registry;
//! - [`rust_semaphore`] and [`rust_chrdev`]: two devices built on these.
//!
//! The modules that turn the declaration of a module into source text:
//! - [`token_stream`]: the tokens of a declaration;
//! - [`module_info`] and [`module_param`]: reading a declaration and the
//!   parameters in it, and telling what is wrong with them;
//! - [`template`]: filling named values into a template;
//! - [`module`]: the text of a module's metadata strings;
//! - [`codegen`]: the source text of a whole module.

pub mod codegen;
pub mod error;
pub mod file_operations;
pub mod io_buffer;
pub mod iov_iter;
pub mod miscdev;
pub mod module;
pub mod module_info;
pub mod module_param;
pub mod rust_chrdev;
pub mod rust_semaphore;
pub mod semaphore;
pub mod template;
pub mod token_stream;
