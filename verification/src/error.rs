//! Error taxonomy of the simulator's loading phase.

use vstd::prelude::*;

verus! {

/// A fatal error raised while a program image is loaded, before any
/// instruction runs. I/O failures are carried as their message text.
#[derive(Debug)]
pub enum SimError {
    IOError(String),
    ArchError(String),
}

} // verus!
