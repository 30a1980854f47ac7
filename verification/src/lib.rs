//! Bridge around an already-built command-line import tool.
//!
//! The library holds the decision logic of three operations: importing
//! translated strings by driving `UndertaleModCli.exe` (building its command
//! line, feeding it one line of configuration on standard input, and judging
//! the outcome of the run), launching the game executable, and extracting a
//! downloaded archive.  The process, thread and file-system calls themselves
//! live in the surrounding binary; this crate states and proves what is
//! decided around them.

pub mod command;
pub mod messages;
pub mod paths;
pub mod payload;
pub mod session;
