//! Output settings.
use vstd::prelude::*;
use crate::theme::Theme;

verus! {

/// What the library needs to know of the output settings.
#[derive(Clone, Copy)]
pub struct Options {
    /// Left-pad the mnemonic column.
    pub pad_output: bool,
    /// Colours for the tokens; `None` leaves the text plain.
    pub theme: Option<Theme>,
    /// Print each instruction's bytes in hex before it.
    pub bytecode: bool,
    /// The input is a PE image rather than raw bytecode.
    pub pe: bool,
}

} // verus!
