//! The decisions of a video encoder front end: what ffmpeg is called with, what is made of its
//! answers, and how settings, jobs and files go together.

pub mod ffmpeg;
pub mod job;
pub mod laws;
pub mod metadata;
pub mod model;
pub mod parsing;
pub mod paths;
pub mod settings;
pub mod strings;
pub mod subtitles;
pub mod time;
