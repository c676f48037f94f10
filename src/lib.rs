//! Transport and framing layer of a line-oriented IRC client: a line codec
//! under a configurable character encoding, and the decisions that turn a
//! connection configuration into a ready connection.
pub mod conn;
pub mod error;
pub mod line;
