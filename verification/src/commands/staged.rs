//! The staged build: guest compile, three stub compiles, link, transform,
//! encode.

use crate::paths::{is_cpp, is_cpp_source, path_extension};
use crate::toolchain::{
    guest_args, guest_compile_args, link_args, link_objects_args, linker, select_compiler,
    selected_compiler, stub_args, stub_compile_args, texts, Invocation, InvocationView, Stub,
};
use vstd::prelude::*;

verus! {

/// What to build, and how.
#[derive(Debug, PartialEq, Eq)]
pub struct Args {
    /// Guest source file.
    pub source: String,
    /// Where the deployment blob goes.
    pub output: String,
    /// The cross compiler.
    pub compiler: String,
    /// Flags handed through to the compiler after the fixed ones.
    pub cflags: Vec<String>,
}

/// The files of one build, as the caller lays them out: the stub sources and
/// the include directory that come with the pipeline, and the objects and the
/// image in a directory that lives as long as the build.
#[derive(Debug, PartialEq, Eq)]
pub struct Workspace {
    pub include_dir: String,
    pub guest_object: String,
    pub entry_stub: String,
    pub entry_object: String,
    pub runtime_stub: String,
    pub runtime_object: String,
    pub exports_stub: String,
    pub exports_object: String,
    pub linked_image: String,
}

impl Workspace {
    /// The source of a stub.
    pub open spec fn stub_source(self, stub: Stub) -> Seq<char> {
        match stub {
            Stub::Entry => self.entry_stub@,
            Stub::Runtime => self.runtime_stub@,
            Stub::Exports => self.exports_stub@,
        }
    }

    /// The object of a stub.
    pub open spec fn stub_object(self, stub: Stub) -> Seq<char> {
        match stub {
            Stub::Entry => self.entry_object@,
            Stub::Runtime => self.runtime_object@,
            Stub::Exports => self.exports_object@,
        }
    }
}

/// The file name of the guest's object.
pub open spec fn guest_object_name() -> Seq<char> {
    "source.o"@
}

/// The file name of the linked image.
pub open spec fn image_name() -> Seq<char> {
    "linked.elf"@
}

/// What a stub compile is for.
pub open spec fn stub_description(stub: Stub) -> Seq<char> {
    match stub {
        Stub::Entry => "compile entry stub"@,
        Stub::Runtime => "compile runtime stub"@,
        Stub::Exports => "compile exports stub"@,
    }
}

/// The guest compile of a build: the selected compiler on the guest source.
pub open spec fn guest_compile_spec(args: Args, workspace: Workspace) -> InvocationView {
    let cpp = is_cpp(path_extension(args.source@));
    InvocationView {
        program: selected_compiler(args.compiler@, cpp),
        args: guest_args(
            args.source@,
            workspace.guest_object@,
            workspace.include_dir@,
            cpp,
            texts(args.cflags@),
        ),
        description: "compile source"@,
    }
}

/// The compile of a stub: the compiler that the caller named, whatever the
/// guest is written in.
pub open spec fn stub_compile_spec(stub: Stub, args: Args, workspace: Workspace) -> InvocationView {
    InvocationView {
        program: args.compiler@,
        args: stub_args(stub, workspace.stub_source(stub), workspace.stub_object(stub)),
        description: stub_description(stub),
    }
}

/// The link of a build.
pub open spec fn link_spec(workspace: Workspace) -> InvocationView {
    InvocationView {
        program: linker(),
        args: link_args(
            workspace.entry_object@,
            workspace.guest_object@,
            workspace.runtime_object@,
            workspace.exports_object@,
            workspace.linked_image@,
        ),
        description: "link ELF"@,
    }
}

impl Args {
    /// A build of `source` with everything else at its default: the blob goes
    /// to `build/service.pvm`, the compiler is the default compiler, and no
    /// flags are added.
    pub fn new(source: String) -> (args: Args)
        ensures
            args.source == source,
            args.output@ == "build/service.pvm"@,
            args.compiler@ == "riscv64-elf-gcc"@,
            args.cflags@ == Seq::<String>::empty(),
    {
        Args {
            source,
            output: String::from_str("build/service.pvm"),
            compiler: String::from_str("riscv64-elf-gcc"),
            cflags: Vec::new(),
        }
    }
}

/// The file name of the guest's object.
pub fn guest_object_file() -> (name: &'static str)
    ensures
        name@ == guest_object_name(),
{
    "source.o"
}

/// The file name of the linked image.
pub fn image_file() -> (name: &'static str)
    ensures
        name@ == image_name(),
{
    "linked.elf"
}

/// The guest compile of a build.
pub fn guest_compile(args: &Args, workspace: &Workspace) -> (r: Invocation)
    ensures
        r@ == guest_compile_spec(*args, *workspace),
{
    let cpp = is_cpp_source(args.source.as_str());
    Invocation {
        program: select_compiler(args.compiler.as_str(), cpp),
        args: guest_compile_args(
            args.source.as_str(),
            workspace.guest_object.as_str(),
            workspace.include_dir.as_str(),
            cpp,
            &args.cflags,
        ),
        description: String::from_str("compile source"),
    }
}

/// The compile of a stub.
pub fn stub_compile(stub: Stub, args: &Args, workspace: &Workspace) -> (r: Invocation)
    ensures
        r@ == stub_compile_spec(stub, *args, *workspace),
{
    let (source, object, description) = match stub {
        Stub::Entry => (&workspace.entry_stub, &workspace.entry_object, "compile entry stub"),
        Stub::Runtime => (
            &workspace.runtime_stub,
            &workspace.runtime_object,
            "compile runtime stub",
        ),
        Stub::Exports => (
            &workspace.exports_stub,
            &workspace.exports_object,
            "compile exports stub",
        ),
    };
    Invocation {
        program: args.compiler.clone(),
        args: stub_compile_args(stub, source.as_str(), object.as_str()),
        description: String::from_str(description),
    }
}

/// The link of a build.
pub fn link(workspace: &Workspace) -> (r: Invocation)
    ensures
        r@ == link_spec(*workspace),
{
    Invocation {
        program: String::from_str("riscv64-elf-ld"),
        args: link_objects_args(
            workspace.entry_object.as_str(),
            workspace.guest_object.as_str(),
            workspace.runtime_object.as_str(),
            workspace.exports_object.as_str(),
            workspace.linked_image.as_str(),
        ),
        description: String::from_str("link ELF"),
    }
}

} // verus!
