//! An incremental, event-driven parser for HTTP/1.x messages.
//!
//! A [`Parser`] is handed the bytes of a stream in pieces of any size. It
//! reads request lines, status lines, header lines, bodies of a declared
//! length, chunked bodies with their trailers and bodies that the end of
//! the stream ends, and announces what it reads as events, to the hooks of
//! its consumer. It never waits for bytes: a piece that ends inside a
//! message leaves the parser where the next piece goes on. A hook can
//! pause the parser or refuse the message.
//!
//! The state of a parser is a [`Machine`], a plain value. What a machine
//! does with one byte is defined in `step`, the moves that it makes by
//! itself between bytes in `body`, and what it does with a sequence of
//! bytes, `feed`, and which events that gives, `trace`, in `run`. The
//! functions that read input, [`Machine::advance`], `Machine::collect` and
//! [`Parser::parse`], are proved to do what `feed` and `trace` say.
//!
//! The remaining modules state and prove what holds of every input:
//! `laws` that the result does not depend on where the input is cut, what
//! a pause, an error and the limits of the options do; `start_line`,
//! `header_line`, `identity`, `chunked` and `message` that a message
//! written as the grammar has it is read as what was written.

pub mod body;
pub mod chunked;
pub mod consts;
pub mod events;
pub mod header_line;
pub mod identity;
pub mod laws;
pub mod lexer;
pub mod machine;
pub mod message;
pub mod parser;
pub mod run;
pub mod start_line;
pub mod step;

pub use crate::consts::{Error, Method, Type};
pub use crate::events::{Answer, Callbacks, Settings};
pub use crate::machine::{Machine, Options};
pub use crate::parser::Parser;
