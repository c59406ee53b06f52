//! The command line, as plain values.

use crate::commands::{disasm, polkavm_cc_build, staged};
use crate::pipeline::FrontEnd;
use vstd::prelude::*;

verus! {

/// A parsed command line.
pub struct Cli {
    pub command: Commands,
}

/// The subcommands.
pub enum Commands {
    /// Build a guest source file into a program blob, stage by stage.
    Build(staged::Args),
    /// Disassemble a program blob.
    Disasm(disasm::Args),
    /// Build a program blob with one call of a compiler driver.
    PolkavmCcBuild(polkavm_cc_build::Args),
}

impl Commands {
    /// How a build command makes its linked image; `None` for a command that
    /// builds nothing.
    pub fn front_end(&self) -> (r: Option<FrontEnd>)
        ensures
            r == (match self {
                Commands::Build(_) => Some(FrontEnd::Staged),
                Commands::Disasm(_) => None,
                Commands::PolkavmCcBuild(_) => Some(FrontEnd::SingleInvocation),
            }),
    {
        match self {
            Commands::Build(_) => Some(FrontEnd::Staged),
            Commands::Disasm(_) => None,
            Commands::PolkavmCcBuild(_) => Some(FrontEnd::SingleInvocation),
        }
    }
}

} // verus!
