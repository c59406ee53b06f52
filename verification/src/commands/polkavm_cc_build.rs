//! The single-invocation build: one call of a compiler driver that compiles
//! and links guest and stubs, then transform and encode.

use crate::toolchain::{driver_args, driver_compile_args, texts, Invocation, InvocationView};
use vstd::prelude::*;

verus! {

/// What to build, and how.
#[derive(Debug, PartialEq, Eq)]
pub struct Args {
    /// Guest source file.
    pub source: String,
    /// Where the deployment blob goes.
    pub output: String,
    /// The compiler driver.
    pub compiler: String,
    /// Flags handed through to the compiler after the fixed ones.
    pub cflags: Vec<String>,
}

/// The files of one build, as the caller lays them out.
#[derive(Debug, PartialEq, Eq)]
pub struct Workspace {
    pub include_dir: String,
    pub entry_stub: String,
    pub runtime_stub: String,
    pub exports_stub: String,
    pub linked_image: String,
}

/// The one call of a build: the driver on the guest source and the three stub
/// sources.
pub open spec fn driver_compile_spec(args: Args, workspace: Workspace) -> InvocationView {
    InvocationView {
        program: args.compiler@,
        args: driver_args(
            args.source@,
            workspace.entry_stub@,
            workspace.runtime_stub@,
            workspace.exports_stub@,
            workspace.linked_image@,
            workspace.include_dir@,
            texts(args.cflags@),
        ),
        description: "compile C source"@,
    }
}

impl Args {
    /// A build of `source` with everything else at its default: the blob goes
    /// to `service.pvm`, the driver is `polkavm-cc`, and no flags are added.
    pub fn new(source: String) -> (args: Args)
        ensures
            args.source == source,
            args.output@ == "service.pvm"@,
            args.compiler@ == "polkavm-cc"@,
            args.cflags@ == Seq::<String>::empty(),
    {
        Args {
            source,
            output: String::from_str("service.pvm"),
            compiler: String::from_str("polkavm-cc"),
            cflags: Vec::new(),
        }
    }
}

/// The one call of a build.
pub fn driver_compile(args: &Args, workspace: &Workspace) -> (r: Invocation)
    ensures
        r@ == driver_compile_spec(*args, *workspace),
{
    Invocation {
        program: args.compiler.clone(),
        args: driver_compile_args(
            args.source.as_str(),
            workspace.entry_stub.as_str(),
            workspace.runtime_stub.as_str(),
            workspace.exports_stub.as_str(),
            workspace.linked_image.as_str(),
            workspace.include_dir.as_str(),
            &args.cflags,
        ),
        description: String::from_str("compile C source"),
    }
}

} // verus!
