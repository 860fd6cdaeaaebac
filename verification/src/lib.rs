//! The logic behind a desktop note and task keeper: what is written to
//! which file of the data directory, what a load answers when nothing was
//! saved yet, and what the global hotkeys do to the main window.
//!
//! The host (the window system, the disk) stays outside. Every command is
//! a small machine that names the next thing the host must do and takes
//! the host's answer; every hotkey press is mapped to an action.

pub mod document;
pub mod error;
pub mod greeting;
pub mod host;
pub mod hotkey;
pub mod json;
pub mod laws;
pub mod load;
pub mod memory;
pub mod save;

pub use document::Document;
pub use error::{IoStage, StoreError};
pub use greeting::greet;
pub use host::{Effect, Outcome};
pub use json::TasksPayload;
pub use load::{load_notes, load_tasks, LoadJob, LoadPhase, LoadStep};
pub use memory::MemoryDir;
pub use save::{save_notes, save_tasks, SaveJob, SaveStep};
