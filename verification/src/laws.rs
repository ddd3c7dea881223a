//! What holds of the library's operations whatever their inputs are: laws over the inputs and the
//! results of single calls, and over the results of calls that belong together.

pub mod command;
pub mod job;
pub mod model;
pub mod paths;
pub mod probe;
pub mod settings;
pub mod subtitles;
pub mod texts;
pub mod titles;
pub mod values;
