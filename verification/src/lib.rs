//! A local store for a desktop front-end, written without I/O of its own.
//!
//! The store keeps named text records as files of one application data
//! directory. Every command is a short conversation with the host: the
//! library says what is to be done next (ask the platform for the directory,
//! create it, write or read a file), the host does it and reports how it went,
//! and the library decides what follows. All decisions are taken here; the
//! host only carries them out.
//!
//! ```text
//! let mut task = save_data(filename, data);
//! loop {
//!     let event = /* do what `task` says */;
//!     match task.advance(event) {
//!         Step::Continue { task: next } => task = next,
//!         Step::Finish { result } => break result,
//!     }
//! }
//! ```

pub mod command;
pub mod error;
pub mod host;
pub mod task;

pub use command::{Command, Reply};
pub use error::StoreError;
pub use task::{get_app_data_dir, load_data, save_data, Event, Outcome, Step, Task};
