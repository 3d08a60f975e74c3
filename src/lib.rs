//! Runs a piece of JavaScript against an input payload in a fresh QuickJS
//! engine and hands back the result as a null-terminated byte buffer.
//!
//! The modules, from the outside in:
//! - `bridge`: the operations a host calls (transform, execute), with the
//!   null-input and failure rules of the boundary;
//! - `engine`: the embedded engine, reached through a few trusted calls;
//! - `binding`: the script text that binds `inputData` before a user script;
//! - `value`: the closed set of result kinds and their canonical text;
//! - `text`: lossy decoding of foreign bytes and the output buffer.
pub mod binding;
pub mod bridge;
pub mod engine;
pub mod text;
pub mod value;

