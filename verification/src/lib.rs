//! Builds the context that a text template is rendered against out of a set
//! of input files.
//!
//! The inputs are given as strings, each a literal path or a glob pattern.
//! The library decides which is which, expands the patterns, turns what was
//! read from each file into a [`File`] record, and assembles the records into
//! an [`Environment`], whose object graph is handed to the renderer.
//!
//! The library reads no file itself. The caller reads the bytes of each path
//! that a [`Population`] asks for and hands back what the read gave; every
//! decision on those bytes is taken here, and is proved to be the one that
//! the contracts state. The library does not run the renderer either: it
//! makes what the renderer is handed, and says what the renderer's answer
//! comes to. What a walk of the file system yields is not for the library to
//! know: there the contracts say what holds whatever comes back, and each
//! step of the walk is decided by a function of its own.
//!
//! - [`settings`]: how inputs are resolved and contents normalised.
//! - [`pattern`]: from input strings to paths.
//! - [`path`], [`read`], [`text`]: the name, the text and the trimmed text of
//!   a file.
//! - [`environment`], [`population`]: the records of the files, and loading
//!   them one read at a time.
//! - [`object`], [`render`]: the object graph and the renderer.
//! - [`cli`]: the `format` command.
//! - [`failure`]: what can go wrong.

pub mod cli;
pub mod environment;
pub mod failure;
pub mod object;
pub mod path;
pub mod pattern;
pub mod population;
pub mod read;
pub mod render;
pub mod settings;
pub mod text;

pub use cli::{failure_message, Cli, CliCommand, CliFormatCommand, FormatRun, Progress};
pub use environment::{Environment, File};
pub use failure::Failure;
pub use pattern::{resolve, Expansion, WalkItem};
pub use population::Population;
pub use read::ReadOutcome;
pub use render::{preprocess, rendering, RenderRequest};
pub use settings::EnvironmentPopulateSettings;
