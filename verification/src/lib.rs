//! The file-system-free core of a small file access facade.
//!
//! A front end asks for three things: the text of a file, a file rewritten
//! with a given text, and the text of one configuration file. The host performs
//! the reads and writes; this crate decides which bytes go to disk for a text
//! and what the caller is told once the file system has answered.
//!
//! * [`text`]: file contents as bytes and as text.
//! * [`facade`]: the three operations over what the file system returned.

pub mod facade;
pub mod text;
