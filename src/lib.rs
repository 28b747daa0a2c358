//! Decision logic of a bridge that runs an external interpreter once per
//! request: where the interpreter lives, what it is handed, how its
//! diagnostic stream is cut into lines, the order of a transaction's steps,
//! and how its exit status and output become an outcome.

pub mod json;
pub mod outcome;
pub mod request;
pub mod lines;
pub mod locator;
pub mod supervisor;
pub mod bridge;
pub mod document;
