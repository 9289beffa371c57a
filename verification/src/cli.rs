//! The porcelain command set: plain data, filled in by the surrounding
//! argument parser.

use vstd::prelude::*;

verus! {

/// Initialize the repository in the current directory.
#[derive(Debug, PartialEq, Eq, Structural)]
pub struct Init {}

/// The commands the porcelain front end accepts.
#[derive(Debug, PartialEq, Eq, Structural)]
pub enum SubCommands {
    Init(Init),
}

} // verus!
