use ajanta_build_tool::commands::{polkavm_cc_build, staged};
use ajanta_build_tool::paths::{debug_artifact_name, debug_artifact_path, is_cpp_source};
use ajanta_build_tool::toolchain::{
    command_failure_message, command_outcome, driver_compile_args, guest_compile_args,
    is_cpp_extension, link_objects_args, push_all, push_text, same_text, select_compiler,
    stub_compile_args, Stub,
};

fn strings(items: &[&str]) -> Vec<String> {
    items.iter().map(|s| s.to_string()).collect()
}

fn workspace() -> staged::Workspace {
    staged::Workspace {
        include_dir: "sdk/src".to_string(),
        guest_object: "/tmp/b/source.o".to_string(),
        entry_stub: "sdk/stubs/entry.S".to_string(),
        entry_object: "/tmp/b/entry.o".to_string(),
        runtime_stub: "sdk/stubs/runtime.c".to_string(),
        runtime_object: "/tmp/b/runtime.o".to_string(),
        exports_stub: "sdk/stubs/exports.S".to_string(),
        exports_object: "/tmp/b/exports.o".to_string(),
        linked_image: "/tmp/b/linked.elf".to_string(),
    }
}

#[test]
fn guest_args_for_c() {
    let args = guest_compile_args("main.c", "source.o", "inc", false, &strings(&["-O2", "-g"]));
    assert_eq!(
        args,
        strings(&[
            "-march=rv64imac",
            "-mabi=lp64",
            "-mno-relax",
            "-ffreestanding",
            "-nostdlib",
            "-fno-builtin",
            "-c",
            "main.c",
            "-o",
            "source.o",
            "-O2",
            "-g",
            "-I",
            "inc",
        ])
    );
}

#[test]
fn guest_args_for_cpp() {
    let args = guest_compile_args("main.cpp", "source.o", "inc", true, &strings(&["-O2"]));
    assert_eq!(
        args,
        strings(&[
            "-march=rv64imac",
            "-mabi=lp64",
            "-mno-relax",
            "-ffreestanding",
            "-nostdlib",
            "-fno-builtin",
            "-c",
            "main.cpp",
            "-o",
            "source.o",
            "-fno-exceptions",
            "-fno-rtti",
            "-fno-pic",
            "-ffixed-s2",
            "-ffixed-s3",
            "-ffixed-s4",
            "-ffixed-s5",
            "-ffixed-s6",
            "-ffixed-s7",
            "-ffixed-s8",
            "-ffixed-s9",
            "-ffixed-s10",
            "-ffixed-s11",
            "-O2",
            "-I",
            "inc",
        ])
    );
}

#[test]
fn cpp_reserves_ten_registers() {
    let args = guest_compile_args("a.cc", "a.o", "i", true, &vec![]);
    assert_eq!(args.iter().filter(|a| a.starts_with("-ffixed-s")).count(), 10);
    let args = guest_compile_args("a.c", "a.o", "i", false, &vec![]);
    assert_eq!(args.iter().filter(|a| a.starts_with("-ffixed-s")).count(), 0);
}

#[test]
fn stub_args_by_stub() {
    let plain = |s: &str, o: &str| strings(&["-march=rv64imac", "-mabi=lp64", "-mno-relax", "-c", s, "-o", o]);
    assert_eq!(stub_compile_args(Stub::Entry, "entry.S", "entry.o"), plain("entry.S", "entry.o"));
    assert_eq!(
        stub_compile_args(Stub::Exports, "exports.S", "exports.o"),
        plain("exports.S", "exports.o")
    );
    assert_eq!(
        stub_compile_args(Stub::Runtime, "runtime.c", "runtime.o"),
        strings(&[
            "-march=rv64imac",
            "-mabi=lp64",
            "-mno-relax",
            "-ffreestanding",
            "-nostdlib",
            "-fno-builtin",
            "-c",
            "runtime.c",
            "-o",
            "runtime.o",
        ])
    );
}

#[test]
fn link_order_is_entry_guest_runtime_exports() {
    assert_eq!(
        link_objects_args("entry.o", "source.o", "runtime.o", "exports.o", "linked.elf"),
        strings(&["-r", "entry.o", "source.o", "runtime.o", "exports.o", "-o", "linked.elf"])
    );
}

#[test]
fn driver_args_in_order() {
    assert_eq!(
        driver_compile_args("m.c", "e.S", "r.c", "x.S", "l.elf", "include", &strings(&["-DX"])),
        strings(&[
            "-march=rv64imac",
            "-mno-relax",
            "-ffreestanding",
            "-fno-builtin",
            "-Os",
            "m.c",
            "e.S",
            "r.c",
            "x.S",
            "-o",
            "l.elf",
            "-DX",
            "-I",
            "include",
        ])
    );
}

#[test]
fn push_helpers_append() {
    let mut args = strings(&["a"]);
    push_text(&mut args, "b");
    push_all(&mut args, &strings(&["c", "d"]));
    push_all(&mut args, &vec![]);
    assert_eq!(args, strings(&["a", "b", "c", "d"]));
}

#[test]
fn same_text_compares_whole_strings() {
    assert!(same_text("", ""));
    assert!(same_text("guest", "guest"));
    assert!(!same_text("guest", "guest "));
    assert!(!same_text("Guest", "guest"));
}

#[test]
fn cpp_extensions() {
    for extension in ["cpp", "cc", "cxx"] {
        assert!(is_cpp_extension(extension));
    }
    for extension in ["c", "C", "CPP", "c++", "hpp", "", "S"] {
        assert!(!is_cpp_extension(extension));
    }
}

#[test]
fn cpp_sources() {
    assert!(is_cpp_source("main.cpp"));
    assert!(is_cpp_source("dir.c/main.cc"));
    assert!(is_cpp_source("a/b/main.tar.cxx"));
    assert!(!is_cpp_source("main.c"));
    assert!(!is_cpp_source("main"));
    assert!(!is_cpp_source(".cpp"));
    assert!(!is_cpp_source("dir.cpp/main"));
    assert!(!is_cpp_source(""));
}

#[test]
fn compiler_selection() {
    assert_eq!(select_compiler("riscv64-elf-gcc", true), "riscv64-elf-g++");
    assert_eq!(select_compiler("riscv64-elf-gcc", false), "riscv64-elf-gcc");
    assert_eq!(select_compiler("clang", true), "clang");
    assert_eq!(select_compiler("clang", false), "clang");
}

#[test]
fn debug_name_from_stem() {
    assert_eq!(debug_artifact_name(Some("service")), "service.debug.pvm");
    assert_eq!(debug_artifact_name(Some("")), ".debug.pvm");
    assert_eq!(debug_artifact_name(None), ".debug.pvm");
}

#[test]
fn debug_path_is_beside_the_output() {
    assert_eq!(debug_artifact_path("build/service.pvm"), "build/service.debug.pvm");
    assert_eq!(debug_artifact_path("service.pvm"), "service.debug.pvm");
    assert_eq!(debug_artifact_path("/a/b/out.tar.pvm"), "/a/b/out.tar.debug.pvm");
    assert_eq!(debug_artifact_path("a.d/out"), "a.d/out.debug.pvm");
    assert_eq!(debug_artifact_path("out"), "out.debug.pvm");
    assert_eq!(debug_artifact_path(""), ".debug.pvm");
}

#[test]
fn debug_path_differs_from_the_output() {
    for output in ["build/service.pvm", "service.pvm", "service", "x/service.debug.pvm"] {
        assert_ne!(debug_artifact_path(output), output);
    }
}

#[test]
fn failure_message_holds_everything() {
    assert_eq!(
        command_failure_message("link ELF", "exit status: 1", "out", "err"),
        "Command failed for link ELF: exit status: 1\nstdout: out\nstderr: err"
    );
}

#[test]
fn outcome_of_a_command() {
    assert_eq!(command_outcome("x", true, "exit status: 0", "o", "e"), Ok(()));
    assert_eq!(
        command_outcome("x", false, "exit status: 2", "o", "e"),
        Err("Command failed for x: exit status: 2\nstdout: o\nstderr: e".to_string())
    );
}

#[test]
fn stub_file_names() {
    assert_eq!(Stub::Entry.source_name(), "entry.S");
    assert_eq!(Stub::Runtime.source_name(), "runtime.c");
    assert_eq!(Stub::Exports.source_name(), "exports.S");
    assert_eq!(Stub::Entry.object_name(), "entry.o");
    assert_eq!(Stub::Runtime.object_name(), "runtime.o");
    assert_eq!(Stub::Exports.object_name(), "exports.o");
    assert_eq!(staged::guest_object_file(), "source.o");
    assert_eq!(staged::image_file(), "linked.elf");
}

#[test]
fn staged_defaults() {
    let args = staged::Args::new("main.c".to_string());
    assert_eq!(args.source, "main.c");
    assert_eq!(args.output, "build/service.pvm");
    assert_eq!(args.compiler, "riscv64-elf-gcc");
    assert!(args.cflags.is_empty());
}

#[test]
fn driver_defaults() {
    let args = polkavm_cc_build::Args::new("main.c".to_string());
    assert_eq!(args.output, "service.pvm");
    assert_eq!(args.compiler, "polkavm-cc");
    assert!(args.cflags.is_empty());
}

#[test]
fn staged_guest_compile_of_cpp_with_default_compiler() {
    let args = staged::Args::new("src/main.cpp".to_string());
    let call = staged::guest_compile(&args, &workspace());
    assert_eq!(call.program, "riscv64-elf-g++");
    assert_eq!(call.description, "compile source");
    assert_eq!(call.args, guest_compile_args("src/main.cpp", "/tmp/b/source.o", "sdk/src", true, &vec![]));
}

#[test]
fn staged_guest_compile_of_c() {
    let mut args = staged::Args::new("main.c".to_string());
    args.cflags = strings(&["-O1"]);
    let call = staged::guest_compile(&args, &workspace());
    assert_eq!(call.program, "riscv64-elf-gcc");
    assert_eq!(
        call.args,
        guest_compile_args("main.c", "/tmp/b/source.o", "sdk/src", false, &strings(&["-O1"]))
    );
}

#[test]
fn staged_stub_compiles_keep_the_named_compiler() {
    let args = staged::Args::new("main.cpp".to_string());
    let ws = workspace();
    let entry = staged::stub_compile(Stub::Entry, &args, &ws);
    assert_eq!(entry.program, "riscv64-elf-gcc");
    assert_eq!(entry.description, "compile entry stub");
    assert_eq!(entry.args, stub_compile_args(Stub::Entry, "sdk/stubs/entry.S", "/tmp/b/entry.o"));
    let runtime = staged::stub_compile(Stub::Runtime, &args, &ws);
    assert_eq!(runtime.description, "compile runtime stub");
    assert_eq!(
        runtime.args,
        stub_compile_args(Stub::Runtime, "sdk/stubs/runtime.c", "/tmp/b/runtime.o")
    );
    let exports = staged::stub_compile(Stub::Exports, &args, &ws);
    assert_eq!(exports.description, "compile exports stub");
    assert_eq!(
        exports.args,
        stub_compile_args(Stub::Exports, "sdk/stubs/exports.S", "/tmp/b/exports.o")
    );
}

#[test]
fn staged_link() {
    let call = staged::link(&workspace());
    assert_eq!(call.program, "riscv64-elf-ld");
    assert_eq!(call.description, "link ELF");
    assert_eq!(
        call.args,
        strings(&[
            "-r",
            "/tmp/b/entry.o",
            "/tmp/b/source.o",
            "/tmp/b/runtime.o",
            "/tmp/b/exports.o",
            "-o",
            "/tmp/b/linked.elf",
        ])
    );
}

#[test]
fn driver_compile_call() {
    let mut args = polkavm_cc_build::Args::new("main.c".to_string());
    args.cflags = strings(&["-DA"]);
    let ws = polkavm_cc_build::Workspace {
        include_dir: "include".to_string(),
        entry_stub: "e.S".to_string(),
        runtime_stub: "r.c".to_string(),
        exports_stub: "x.S".to_string(),
        linked_image: "l.elf".to_string(),
    };
    let call = polkavm_cc_build::driver_compile(&args, &ws);
    assert_eq!(call.program, "polkavm-cc");
    assert_eq!(call.description, "compile C source");
    assert_eq!(
        call.args,
        driver_compile_args("main.c", "e.S", "r.c", "x.S", "l.elf", "include", &strings(&["-DA"]))
    );
}
