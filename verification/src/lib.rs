//! Interactive regular-expression tester: a dual-buffer editor state machine
//! (a single-line pattern field and a multi-line text body) combined with a
//! match-and-format pipeline that turns the pattern and the body into a
//! rendered report of every match and its capture groups.

pub mod app;
pub mod engine;
pub mod handler;
pub mod laws;
