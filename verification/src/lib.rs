//! Verified core of a small language-tour demo program.
//!
//! The demo runs a fixed sequence of self-contained steps, each printing a
//! few lines of text.  Every value those lines report is computed here, with
//! a contract that pins it down; the printing itself, and the one
//! environment-dependent step (a file-open attempt), live outside the
//! library.

pub mod arith;

pub mod dispatch;

pub mod ownership;

pub mod rect;

pub mod sequences;
