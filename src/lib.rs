//! Moves text between the system clipboard and a byte stream: read mode
//! prints the clipboard's text, write mode stores validated input text on the
//! clipboard and echoes it back. Failures become one diagnostic line.

pub mod error;
pub mod clipboard;
pub mod bridge;
