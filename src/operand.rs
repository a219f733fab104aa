//! Register operands.
use vstd::prelude::*;
use crate::text::{decimal, push_decimal};
use crate::theme::{Emit, Options, color_indirect, color_operand};

verus! {

/// A register named by an instruction, used directly or, when indirect, as
/// the address of the value.
#[derive(Debug, Clone, Copy, PartialEq, Eq, Structural)]
pub enum Operand {
    /// One of the general-purpose registers R0 to R7.
    GeneralPurpose { register_index: u8, indirect: bool },
    /// One of the dedicated registers: 0 is FLAGS, 1 is IP.
    Dedicated { register_index: u8, indirect: bool },
}

impl Operand {
    /// The register index is in range for the register kind.
    pub open spec fn wf(self) -> bool {
        match self {
            Operand::GeneralPurpose { register_index, .. } => register_index <= 7,
            Operand::Dedicated { register_index, .. } => register_index <= 1,
        }
    }

    pub fn new_general_purpose(register_index: u8, indirect: bool) -> (r: Self)
        requires
            register_index <= 7,
        ensures
            r == (Operand::GeneralPurpose { register_index, indirect }),
            r.wf(),
    {
        Operand::GeneralPurpose { register_index, indirect }
    }

    pub fn new_dedicated(register_index: u8, indirect: bool) -> (r: Self)
        requires
            register_index <= 1,
        ensures
            r == (Operand::Dedicated { register_index, indirect }),
            r.wf(),
    {
        Operand::Dedicated { register_index, indirect }
    }
}

impl Emit for Operand {
    /// `R<n>`, `FLAGS` or `IP`, after an `@` when indirect.
    open spec fn plain(&self) -> Seq<char> {
        match *self {
            Operand::GeneralPurpose { register_index, indirect } => {
                (if indirect { "@"@ } else { ""@ }) + "R"@ + decimal(register_index as nat)
            },
            Operand::Dedicated { register_index, indirect } => {
                (if indirect { "@"@ } else { ""@ }) + (if register_index == 0 {
                    "FLAGS"@
                } else {
                    "IP"@
                })
            },
        }
    }

    fn emit(&self, options: &Options) -> (out: String) {
        let (indirect, name) = match *self {
            Operand::GeneralPurpose { register_index, indirect } => {
                let mut name = String::from_str("R");
                push_decimal(&mut name, register_index as u64);
                (indirect, name)
            },
            Operand::Dedicated { register_index, indirect } => {
                let name = if register_index == 0 {
                    String::from_str("FLAGS")
                } else {
                    String::from_str("IP")
                };
                (indirect, name)
            },
        };
        let mut text = if indirect {
            color_indirect(String::from_str("@"), options)
        } else {
            String::from_str("")
        };
        text.append(name.as_str());
        color_operand(text, options)
    }
}

} // verus!
