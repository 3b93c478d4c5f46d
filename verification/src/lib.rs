//! A minimal interactive shell core: whitespace tokenization of a command
//! line, the line-editing buffer, and the key-event state machine that
//! drives one session. Terminal I/O and process spawning live outside the
//! library; the library decides, the caller performs.

pub mod tokens;
pub mod session;
