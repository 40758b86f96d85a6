//! A small command-line front end for natural-language-to-code generation.
//!
//! The library has two parts. `validator` checks a candidate description and
//! builds the message reported for it; no generation backend is configured
//! yet, so every description is answered with an error. `repl` decides what
//! one iteration of the surrounding read loop does with one raw input line:
//! skip it, stop, or validate it.

pub mod repl;
pub mod validator;
