//! Line, word, byte and character counts for text sources, with the
//! decisions of a multi-source run stated as verified functions.

pub mod config;
pub mod counts;
pub mod format;
pub mod run;
pub mod text;

pub use config::Config;
pub use counts::{combine, FileInfo};
pub use format::{format_field, format_line};
pub use run::{finish, source_label, source_message, step, Action, SourceEvent};
pub use text::{count, is_white_space};
