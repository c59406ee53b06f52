//! The command lines of the external toolchain: which compiler is run on
//! which file with which flags, and in what order the objects are linked.

use vstd::prelude::*;

verus! {

/// The compiler that is run where the caller names no other.
pub open spec fn default_compiler() -> Seq<char> {
    "riscv64-elf-gcc"@
}

/// The C++ compiler that goes with the default compiler.
pub open spec fn default_cpp_compiler() -> Seq<char> {
    "riscv64-elf-g++"@
}

/// The linker.
pub open spec fn linker() -> Seq<char> {
    "riscv64-elf-ld"@
}

/// The texts of a list of strings.
pub open spec fn texts(strings: Seq<String>) -> Seq<Seq<char>> {
    Seq::new(strings.len(), |i: int| strings[i]@)
}

/// The flags of every compile: the instruction set, the calling convention,
/// and no linker relaxation, which would move the offsets that relocations
/// refer to.
pub open spec fn isa_flags() -> Seq<Seq<char>> {
    seq!["-march=rv64imac"@, "-mabi=lp64"@, "-mno-relax"@]
}

/// The flags of a freestanding compile: no standard library, no builtins.
pub open spec fn freestanding_flags() -> Seq<Seq<char>> {
    seq!["-ffreestanding"@, "-nostdlib"@, "-fno-builtin"@]
}

/// The flags added for C++: no exceptions, no run-time type information, no
/// position-independent code, and the ten callee-saved registers `s2` to
/// `s11` kept from the compiler, because the runtime stub keeps its own
/// bookkeeping in them across calls.
pub open spec fn cpp_flags() -> Seq<Seq<char>> {
    seq![
        "-fno-exceptions"@,
        "-fno-rtti"@,
        "-fno-pic"@,
        "-ffixed-s2"@,
        "-ffixed-s3"@,
        "-ffixed-s4"@,
        "-ffixed-s5"@,
        "-ffixed-s6"@,
        "-ffixed-s7"@,
        "-ffixed-s8"@,
        "-ffixed-s9"@,
        "-ffixed-s10"@,
        "-ffixed-s11"@,
    ]
}

/// "Compile `source` into `object`."
pub open spec fn compile_to(source: Seq<char>, object: Seq<char>) -> Seq<Seq<char>> {
    seq!["-c"@, source, "-o"@, object]
}

/// The arguments of the guest compile: the flags of every compile, the
/// freestanding flags, source and object, the C++ flags where the source is
/// C++, the caller's flags, and the include directory.
pub open spec fn guest_args(
    source: Seq<char>,
    object: Seq<char>,
    include_dir: Seq<char>,
    is_cpp: bool,
    cflags: Seq<Seq<char>>,
) -> Seq<Seq<char>> {
    isa_flags() + freestanding_flags() + compile_to(source, object) + (if is_cpp {
        cpp_flags()
    } else {
        Seq::empty()
    }) + cflags + seq!["-I"@, include_dir]
}

/// One of the three sources that the pipeline itself brings.
#[derive(Copy, Clone, PartialEq, Eq, Debug, Structural)]
pub enum Stub {
    Entry,
    Runtime,
    Exports,
}

/// The arguments of a stub compile. Entry and exports stubs are low-level
/// code compiled with the toolchain's defaults; the runtime stub is compiled
/// freestanding, as guest code is.
pub open spec fn stub_args(stub: Stub, source: Seq<char>, object: Seq<char>) -> Seq<Seq<char>> {
    isa_flags() + (if stub == Stub::Runtime {
        freestanding_flags()
    } else {
        Seq::empty()
    }) + compile_to(source, object)
}

/// The arguments of the link: a relocatable link of the four objects, the
/// entry object first, so that the process starts in it, and the exports
/// object after the guest's, whose symbols it names.
pub open spec fn link_args(
    entry: Seq<char>,
    guest: Seq<char>,
    runtime: Seq<char>,
    exports: Seq<char>,
    image: Seq<char>,
) -> Seq<Seq<char>> {
    seq!["-r"@, entry, guest, runtime, exports, "-o"@, image]
}

/// The arguments of the one call that compiles and links guest and stubs.
pub open spec fn driver_args(
    source: Seq<char>,
    entry_stub: Seq<char>,
    runtime_stub: Seq<char>,
    exports_stub: Seq<char>,
    image: Seq<char>,
    include_dir: Seq<char>,
    cflags: Seq<Seq<char>>,
) -> Seq<Seq<char>> {
    seq![
        "-march=rv64imac"@,
        "-mno-relax"@,
        "-ffreestanding"@,
        "-fno-builtin"@,
        "-Os"@,
        source,
        entry_stub,
        runtime_stub,
        exports_stub,
        "-o"@,
        image,
    ] + cflags + seq!["-I"@, include_dir]
}

/// Every guest compile has the flags of every compile and the freestanding
/// flags in front, whatever the caller adds, and C++ adds its thirteen flags
/// and nothing else.
pub proof fn lemma_guest_args_baseline(
    source: Seq<char>,
    object: Seq<char>,
    include_dir: Seq<char>,
    is_cpp: bool,
    cflags: Seq<Seq<char>>,
)
    ensures
        guest_args(source, object, include_dir, is_cpp, cflags).subrange(0, 6) == isa_flags()
            + freestanding_flags(),
        guest_args(source, object, include_dir, true, cflags).len() == guest_args(
            source,
            object,
            include_dir,
            false,
            cflags,
        ).len() + 13,
        guest_args(source, object, include_dir, true, cflags) == guest_args(
            source,
            object,
            include_dir,
            false,
            Seq::empty(),
        ).subrange(0, 10) + cpp_flags() + cflags + seq!["-I"@, include_dir],
{
    assert(guest_args(source, object, include_dir, is_cpp, cflags).subrange(0, 6) =~= isa_flags()
        + freestanding_flags());
    assert(guest_args(source, object, include_dir, true, cflags) =~= guest_args(
        source,
        object,
        include_dir,
        false,
        Seq::empty(),
    ).subrange(0, 10) + cpp_flags() + cflags + seq!["-I"@, include_dir]);
}

/// The link order: the objects follow the flag of a relocatable link as
/// entry, guest, runtime, exports, and the image comes last.
pub proof fn lemma_link_order(
    entry: Seq<char>,
    guest: Seq<char>,
    runtime: Seq<char>,
    exports: Seq<char>,
    image: Seq<char>,
)
    ensures
        link_args(entry, guest, runtime, exports, image).len() == 7,
        link_args(entry, guest, runtime, exports, image)[0] == "-r"@,
        link_args(entry, guest, runtime, exports, image).subrange(1, 5) == seq![
            entry,
            guest,
            runtime,
            exports,
        ],
        link_args(entry, guest, runtime, exports, image)[6] == image,
{
    assert(link_args(entry, guest, runtime, exports, image).subrange(1, 5) =~= seq![
        entry,
        guest,
        runtime,
        exports,
    ]);
}

/// Whether a file with this extension is compiled as C++.
pub open spec fn is_cpp_extension_spec(extension: Seq<char>) -> bool {
    extension == "cpp"@ || extension == "cc"@ || extension == "cxx"@
}

/// Whether two strings hold the same text.
pub fn same_text(a: &str, b: &str) -> (r: bool)
    ensures
        r == (a@ == b@),
{
    String::from_str(a) == String::from_str(b)
}

/// Whether a file with this extension is compiled as C++.
pub fn is_cpp_extension(extension: &str) -> (r: bool)
    ensures
        r == is_cpp_extension_spec(extension@),
{
    same_text(extension, "cpp") || same_text(extension, "cc") || same_text(extension, "cxx")
}

/// The compiler that is run on the guest source. A caller who left the
/// compiler at the default gets the C++ compiler for a C++ source; a compiler
/// that the caller chose is kept.
pub open spec fn selected_compiler(compiler: Seq<char>, is_cpp: bool) -> Seq<char> {
    if is_cpp && compiler == default_compiler() {
        default_cpp_compiler()
    } else {
        compiler
    }
}

pub fn select_compiler(compiler: &str, is_cpp: bool) -> (r: String)
    ensures
        r@ == selected_compiler(compiler@, is_cpp),
{
    if is_cpp && same_text(compiler, "riscv64-elf-gcc") {
        String::from_str("riscv64-elf-g++")
    } else {
        String::from_str(compiler)
    }
}

/// Appends one argument.
pub fn push_text(args: &mut Vec<String>, text: &str)
    ensures
        texts(final(args)@) == texts(old(args)@).push(text@),
{
    args.push(String::from_str(text));
    assert(texts(args@) =~= texts(old(args)@).push(text@));
}

/// Appends the arguments of `more`, in their order.
pub fn push_all(args: &mut Vec<String>, more: &Vec<String>)
    ensures
        texts(final(args)@) == texts(old(args)@) + texts(more@),
{
    let mut i: usize = 0;
    while i < more.len()
        invariant
            i <= more.len(),
            texts(args@) == texts(old(args)@) + texts(more@).subrange(0, i as int),
        decreases more.len() - i,
    {
        let ghost before = args@;
        args.push(more[i].clone());
        assert(texts(args@) =~= texts(before).push(more@[i as int]@));
        assert(texts(more@).subrange(0, i + 1) =~= texts(more@).subrange(0, i as int).push(
            more@[i as int]@,
        ));
        i += 1;
    }
    assert(texts(more@).subrange(0, more.len() as int) =~= texts(more@));
}

fn push_isa_flags(args: &mut Vec<String>)
    ensures
        texts(final(args)@) == texts(old(args)@) + isa_flags(),
{
    push_text(args, "-march=rv64imac");
    push_text(args, "-mabi=lp64");
    push_text(args, "-mno-relax");
    assert(texts(args@) =~= texts(old(args)@) + isa_flags());
}

fn push_freestanding_flags(args: &mut Vec<String>)
    ensures
        texts(final(args)@) == texts(old(args)@) + freestanding_flags(),
{
    push_text(args, "-ffreestanding");
    push_text(args, "-nostdlib");
    push_text(args, "-fno-builtin");
    assert(texts(args@) =~= texts(old(args)@) + freestanding_flags());
}

fn push_cpp_flags(args: &mut Vec<String>)
    ensures
        texts(final(args)@) == texts(old(args)@) + cpp_flags(),
{
    push_text(args, "-fno-exceptions");
    push_text(args, "-fno-rtti");
    push_text(args, "-fno-pic");
    push_text(args, "-ffixed-s2");
    push_text(args, "-ffixed-s3");
    push_text(args, "-ffixed-s4");
    push_text(args, "-ffixed-s5");
    push_text(args, "-ffixed-s6");
    push_text(args, "-ffixed-s7");
    push_text(args, "-ffixed-s8");
    push_text(args, "-ffixed-s9");
    push_text(args, "-ffixed-s10");
    push_text(args, "-ffixed-s11");
    assert(texts(args@) =~= texts(old(args)@) + cpp_flags());
}

fn push_compile_to(args: &mut Vec<String>, source: &str, object: &str)
    ensures
        texts(final(args)@) == texts(old(args)@) + compile_to(source@, object@),
{
    push_text(args, "-c");
    push_text(args, source);
    push_text(args, "-o");
    push_text(args, object);
    assert(texts(args@) =~= texts(old(args)@) + compile_to(source@, object@));
}

/// The arguments of the guest compile.
pub fn guest_compile_args(
    source: &str,
    object: &str,
    include_dir: &str,
    is_cpp: bool,
    cflags: &Vec<String>,
) -> (args: Vec<String>)
    ensures
        texts(args@) == guest_args(source@, object@, include_dir@, is_cpp, texts(cflags@)),
{
    let mut args: Vec<String> = Vec::new();
    assert(texts(args@) =~= Seq::empty());
    push_isa_flags(&mut args);
    push_freestanding_flags(&mut args);
    push_compile_to(&mut args, source, object);
    if is_cpp {
        push_cpp_flags(&mut args);
    }
    let ghost fixed = texts(args@);
    push_all(&mut args, cflags);
    push_text(&mut args, "-I");
    push_text(&mut args, include_dir);
    assert(texts(args@) =~= fixed + texts(cflags@) + seq!["-I"@, include_dir@]);
    assert(fixed =~= isa_flags() + freestanding_flags() + compile_to(source@, object@) + (if is_cpp {
        cpp_flags()
    } else {
        Seq::empty()
    }));
    args
}

/// The arguments of the compile of one stub.
pub fn stub_compile_args(stub: Stub, source: &str, object: &str) -> (args: Vec<String>)
    ensures
        texts(args@) == stub_args(stub, source@, object@),
{
    let mut args: Vec<String> = Vec::new();
    assert(texts(args@) =~= Seq::empty());
    push_isa_flags(&mut args);
    match stub {
        Stub::Runtime => {
            push_freestanding_flags(&mut args);
        },
        _ => {},
    }
    let ghost flags = texts(args@);
    push_compile_to(&mut args, source, object);
    assert(flags =~= isa_flags() + (if stub == Stub::Runtime {
        freestanding_flags()
    } else {
        Seq::empty()
    }));
    args
}

/// The arguments of the link of the four objects into the image.
pub fn link_objects_args(entry: &str, guest: &str, runtime: &str, exports: &str, image: &str) -> (args:
    Vec<String>)
    ensures
        texts(args@) == link_args(entry@, guest@, runtime@, exports@, image@),
{
    let mut args: Vec<String> = Vec::new();
    assert(texts(args@) =~= Seq::empty());
    push_text(&mut args, "-r");
    push_text(&mut args, entry);
    push_text(&mut args, guest);
    push_text(&mut args, runtime);
    push_text(&mut args, exports);
    push_text(&mut args, "-o");
    push_text(&mut args, image);
    args
}

/// The arguments of the one call that compiles and links guest and stubs.
pub fn driver_compile_args(
    source: &str,
    entry_stub: &str,
    runtime_stub: &str,
    exports_stub: &str,
    image: &str,
    include_dir: &str,
    cflags: &Vec<String>,
) -> (args: Vec<String>)
    ensures
        texts(args@) == driver_args(
            source@,
            entry_stub@,
            runtime_stub@,
            exports_stub@,
            image@,
            include_dir@,
            texts(cflags@),
        ),
{
    let mut args: Vec<String> = Vec::new();
    assert(texts(args@) =~= Seq::empty());
    push_text(&mut args, "-march=rv64imac");
    push_text(&mut args, "-mno-relax");
    push_text(&mut args, "-ffreestanding");
    push_text(&mut args, "-fno-builtin");
    push_text(&mut args, "-Os");
    push_text(&mut args, source);
    push_text(&mut args, entry_stub);
    push_text(&mut args, runtime_stub);
    push_text(&mut args, exports_stub);
    push_text(&mut args, "-o");
    push_text(&mut args, image);
    let ghost fixed = texts(args@);
    push_all(&mut args, cflags);
    push_text(&mut args, "-I");
    push_text(&mut args, include_dir);
    assert(texts(args@) =~= fixed + texts(cflags@) + seq!["-I"@, include_dir@]);
    args
}

impl Stub {
    /// The file name of the stub's source.
    pub open spec fn spec_source_name(self) -> Seq<char> {
        match self {
            Stub::Entry => "entry.S"@,
            Stub::Runtime => "runtime.c"@,
            Stub::Exports => "exports.S"@,
        }
    }

    /// The file name of the stub's object.
    pub open spec fn spec_object_name(self) -> Seq<char> {
        match self {
            Stub::Entry => "entry.o"@,
            Stub::Runtime => "runtime.o"@,
            Stub::Exports => "exports.o"@,
        }
    }

    /// The file name of the stub's source.
    pub fn source_name(self) -> (name: &'static str)
        ensures
            name@ == self.spec_source_name(),
    {
        match self {
            Stub::Entry => "entry.S",
            Stub::Runtime => "runtime.c",
            Stub::Exports => "exports.S",
        }
    }

    /// The file name of the stub's object.
    pub fn object_name(self) -> (name: &'static str)
        ensures
            name@ == self.spec_object_name(),
    {
        match self {
            Stub::Entry => "entry.o",
            Stub::Runtime => "runtime.o",
            Stub::Exports => "exports.o",
        }
    }
}

/// One call of an external tool: the program, its arguments, and what the
/// call is for, in words for an error message.
#[derive(Debug, PartialEq, Eq)]
pub struct Invocation {
    pub program: String,
    pub args: Vec<String>,
    pub description: String,
}

/// One call of an external tool as mathematical values.
pub struct InvocationView {
    pub program: Seq<char>,
    pub args: Seq<Seq<char>>,
    pub description: Seq<char>,
}

impl View for Invocation {
    type V = InvocationView;

    open spec fn view(&self) -> InvocationView {
        InvocationView {
            program: self.program@,
            args: texts(self.args@),
            description: self.description@,
        }
    }
}

/// What is said of a tool that exited without success.
pub open spec fn failure_message(
    description: Seq<char>,
    status: Seq<char>,
    stdout: Seq<char>,
    stderr: Seq<char>,
) -> Seq<char> {
    "Command failed for "@ + description + ": "@ + status + "\nstdout: "@ + stdout
        + "\nstderr: "@ + stderr
}

/// What is said of a tool that exited without success: what it was run for,
/// its exit status, and all that it printed.
pub fn command_failure_message(description: &str, status: &str, stdout: &str, stderr: &str) -> (r:
    String)
    ensures
        r@ == failure_message(description@, status@, stdout@, stderr@),
{
    String::from_str("Command failed for ").concat(description).concat(": ").concat(status).concat(
        "\nstdout: ",
    ).concat(stdout).concat("\nstderr: ").concat(stderr)
}

/// What becomes of the exit of a tool: nothing on success, the failure
/// message otherwise.
pub fn command_outcome(
    description: &str,
    success: bool,
    status: &str,
    stdout: &str,
    stderr: &str,
) -> (r: Result<(), String>)
    ensures
        match r {
            Ok(()) => success,
            Err(message) => !success && message@ == failure_message(
                description@,
                status@,
                stdout@,
                stderr@,
            ),
        },
{
    if success {
        Ok(())
    } else {
        Err(command_failure_message(description, status, stdout, stderr))
    }
}

} // verus!
