//! Core of a storage-stress data generator: a batch dispatcher plans one
//! file-filling task per output file, each task appends blocks of random
//! alphanumeric text to its own file until a size threshold is reached, and a
//! tracker counts terminal reports so the run ends only when every task is
//! done. File and task I/O live outside this crate; what is here is the
//! verified logic: task planning, file naming, the fill loop's decisions and
//! sizes, content generation, and completion tracking.

pub mod batch;
pub mod content;
pub mod filler;
pub mod names;
