//! Finds `// TODO` annotations in a source tree and describes the
//! interactive panel that lists them.

pub mod cli;
pub mod marker;
pub mod scan;
pub mod presenter;
