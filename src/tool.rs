use vstd::prelude::*;

verus! {

/// The toolchain binaries whose version can be queried.
#[derive(Clone, Copy, Debug, PartialEq, Eq, Structural)]
pub enum Tool {
    Cargo,
    Rustc,
}

/// What the tool prints in front of its version number: its name and one space.
pub open spec fn tool_prefix(tool: Tool) -> Seq<char> {
    match tool {
        Tool::Cargo => seq!['c', 'a', 'r', 'g', 'o', ' '],
        Tool::Rustc => seq!['r', 'u', 's', 't', 'c', ' '],
    }
}

impl Tool {
    /// The text that opens the tool's `--version` output.
    pub fn prefix(&self) -> (r: &'static str)
        ensures
            r@ == tool_prefix(*self),
    {
        match self {
            Tool::Cargo => {
                proof {
                    reveal_strlit("cargo ");
                }
                "cargo "
            },
            Tool::Rustc => {
                proof {
                    reveal_strlit("rustc ");
                }
                "rustc "
            },
        }
    }
}

} // verus!
