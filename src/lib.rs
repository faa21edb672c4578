//! Native backend of a desktop SVG editor shell.
//!
//! The library holds the one file path chosen at launch, decides what each
//! command of the user interface answers, and turns a native close signal
//! into a vetoable notification. Reading and writing the file, emitting
//! events and ending the process are left to the host, which hands the
//! outcomes back as plain values.
pub mod document;
pub mod launch;
pub mod medium;
pub mod shell;

pub use document::DocumentState;
pub use launch::{resolve_svg_file, FileArgument, LaunchError};
pub use shell::{
    Input, Phase, Shell, StorageError, WindowReaction, WindowSignal, CLOSE_REQUESTED_EVENT,
};
