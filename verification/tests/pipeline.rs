use ajanta_build_tool::cli::{Cli, Commands};
use ajanta_build_tool::codec::encode_program;
use ajanta_build_tool::commands::{disasm, polkavm_cc_build, staged};
use ajanta_build_tool::error::FormatError;
use ajanta_build_tool::pipeline::{
    Action, BuildError, Event, FrontEnd, Pass, Pipeline, Stage, Tool, ToolOutput,
};
use ajanta_build_tool::toolchain::Stub;
use ajanta_build_tool::transform::{transform_request, InstructionSet, TransformRequest};
use polkavm_common::program::{Instruction, InstructionSetKind, Reg};
use polkavm_common::writer::ProgramBlobBuilder;

fn output(status: &str, stdout: &str, stderr: &str) -> ToolOutput {
    ToolOutput { status: status.to_string(), stdout: stdout.to_string(), stderr: stderr.to_string() }
}

fn ok() -> Event {
    Event::ToolExited { success: true, output: output("exit status: 0", "", "") }
}

fn failed() -> Event {
    Event::ToolExited { success: false, output: output("exit status: 1", "out", "err") }
}

fn program(stack_size: u32) -> Vec<u8> {
    let mut builder = ProgramBlobBuilder::new(InstructionSetKind::JamV1);
    builder.set_stack_size(stack_size);
    builder.set_code(&[Instruction::jump_indirect(Reg::RA.into(), 0)], &[]);
    builder.into_vec().unwrap()
}

fn linked(front_end: FrontEnd) -> Pipeline {
    let mut build = Pipeline::new(front_end);
    build.step(Event::Start);
    if front_end == FrontEnd::Staged {
        for _ in 0..4 {
            build.step(ok());
        }
    }
    assert_eq!(build.step(ok()), Action::ReadImage);
    build
}

#[test]
fn staged_build_runs_the_tools_in_order() {
    let mut build = Pipeline::new(FrontEnd::Staged);
    assert_eq!(build.stage(), Stage::Init);
    assert_eq!(build.front_end(), FrontEnd::Staged);
    assert_eq!(build.step(Event::Start), Action::Run(Tool::GuestCompile));
    assert_eq!(build.stage(), Stage::Compiling);
    assert_eq!(build.step(ok()), Action::Run(Tool::StubCompile(Stub::Entry)));
    assert_eq!(build.stage(), Stage::StubBuilding(Stub::Entry));
    assert_eq!(build.step(ok()), Action::Run(Tool::StubCompile(Stub::Runtime)));
    assert_eq!(build.stage(), Stage::StubBuilding(Stub::Runtime));
    assert_eq!(build.step(ok()), Action::Run(Tool::StubCompile(Stub::Exports)));
    assert_eq!(build.stage(), Stage::StubBuilding(Stub::Exports));
    assert_eq!(build.step(ok()), Action::Run(Tool::Link));
    assert_eq!(build.stage(), Stage::Linking);
    assert_eq!(build.step(ok()), Action::ReadImage);
    assert_eq!(build.stage(), Stage::Transforming(Pass::Load));
    assert_eq!(
        build.step(Event::ImageRead(vec![1, 2, 3])),
        Action::Transform(transform_request(true))
    );
    assert_eq!(build.linked_image(), &vec![1, 2, 3]);
    assert_eq!(build.stage(), Stage::Transforming(Pass::Strip));
    assert_eq!(
        build.step(Event::Transformed(Ok(program(4096)))),
        Action::Transform(transform_request(false))
    );
    assert_eq!(build.linked_image(), &vec![1, 2, 3]);
    assert_eq!(build.stage(), Stage::Transforming(Pass::Keep));
    let action = build.step(Event::Transformed(Ok(program(8192))));
    assert_eq!(
        action,
        Action::WriteArtifacts {
            deployment: encode_program(&program(4096), &[]).unwrap(),
            debug: encode_program(&program(8192), &[]).unwrap(),
        }
    );
    assert_eq!(build.stage(), Stage::Encoding);
    assert_eq!(build.step(Event::ArtifactsWritten), Action::Finish);
    assert_eq!(build.stage(), Stage::Done);
    assert_eq!(build.step(Event::Start), Action::Halt);
    assert_eq!(build.stage(), Stage::Done);
}

#[test]
fn deployment_blob_has_empty_metadata_by_default() {
    let mut build = linked(FrontEnd::Staged);
    build.step(Event::ImageRead(vec![]));
    build.step(Event::Transformed(Ok(program(4096))));
    match build.step(Event::Transformed(Ok(program(4096)))) {
        Action::WriteArtifacts { deployment, debug } => {
            assert_eq!(deployment[0], 0);
            assert_eq!(deployment, debug);
            let (_, metadata) = ajanta_build_tool::codec::decode(&deployment).unwrap();
            assert!(metadata.is_empty());
        }
        other => panic!("unexpected: {:?}", other),
    }
}

#[test]
fn metadata_goes_into_both_blobs() {
    let mut build = Pipeline::with_metadata(FrontEnd::SingleInvocation, vec![7, 7]);
    build.step(Event::Start);
    build.step(ok());
    build.step(Event::ImageRead(vec![]));
    build.step(Event::Transformed(Ok(program(4096))));
    assert_eq!(
        build.step(Event::Transformed(Ok(program(0)))),
        Action::WriteArtifacts {
            deployment: encode_program(&program(4096), &[7, 7]).unwrap(),
            debug: encode_program(&program(0), &[7, 7]).unwrap(),
        }
    );
}

#[test]
fn single_invocation_goes_from_the_driver_to_the_image() {
    let mut build = Pipeline::new(FrontEnd::SingleInvocation);
    assert_eq!(build.step(Event::Start), Action::Run(Tool::Driver));
    assert_eq!(build.stage(), Stage::Compiling);
    assert_eq!(build.step(ok()), Action::ReadImage);
    assert_eq!(build.stage(), Stage::Transforming(Pass::Load));
}

#[test]
fn guest_compile_failure_aborts_and_nothing_is_written() {
    let mut build = Pipeline::new(FrontEnd::Staged);
    build.step(Event::Start);
    assert_eq!(
        build.step(failed()),
        Action::Abort(BuildError::Compile {
            tool: Tool::GuestCompile,
            output: output("exit status: 1", "out", "err"),
        })
    );
    assert_eq!(build.stage(), Stage::Failed);
    for event in [
        ok(),
        Event::ImageRead(vec![]),
        Event::Transformed(Ok(program(0))),
        Event::Transformed(Ok(program(0))),
        Event::ArtifactsWritten,
        Event::Start,
    ] {
        assert_eq!(build.step(event), Action::Halt);
        assert_eq!(build.stage(), Stage::Failed);
    }
}

#[test]
fn driver_failure_is_a_compile_error() {
    let mut build = Pipeline::new(FrontEnd::SingleInvocation);
    build.step(Event::Start);
    assert_eq!(
        build.step(failed()),
        Action::Abort(BuildError::Compile {
            tool: Tool::Driver,
            output: output("exit status: 1", "out", "err"),
        })
    );
}

#[test]
fn stub_failure_is_a_compile_error() {
    let mut build = Pipeline::new(FrontEnd::Staged);
    build.step(Event::Start);
    build.step(ok());
    build.step(ok());
    assert_eq!(
        build.step(failed()),
        Action::Abort(BuildError::Compile {
            tool: Tool::StubCompile(Stub::Runtime),
            output: output("exit status: 1", "out", "err"),
        })
    );
    assert_eq!(build.stage(), Stage::Failed);
}

#[test]
fn link_failure_is_a_link_error() {
    let mut build = Pipeline::new(FrontEnd::Staged);
    build.step(Event::Start);
    for _ in 0..4 {
        build.step(ok());
    }
    assert_eq!(
        build.step(failed()),
        Action::Abort(BuildError::Link { output: output("exit status: 1", "out", "err") })
    );
    assert_eq!(build.stage(), Stage::Failed);
}

#[test]
fn io_failure_carries_the_path() {
    let mut build = linked(FrontEnd::Staged);
    assert_eq!(
        build.step(Event::IoFailed { path: "linked.elf".to_string(), message: "gone".to_string() }),
        Action::Abort(BuildError::Io { path: "linked.elf".to_string(), message: "gone".to_string() })
    );
    assert_eq!(build.stage(), Stage::Failed);
}

#[test]
fn write_failure_fails_the_build() {
    let mut build = linked(FrontEnd::Staged);
    build.step(Event::ImageRead(vec![]));
    build.step(Event::Transformed(Ok(program(0))));
    build.step(Event::Transformed(Ok(program(0))));
    assert_eq!(
        build.step(Event::IoFailed { path: "out.pvm".to_string(), message: "full".to_string() }),
        Action::Abort(BuildError::Io { path: "out.pvm".to_string(), message: "full".to_string() })
    );
}

#[test]
fn transform_failure_carries_the_message() {
    let mut build = linked(FrontEnd::Staged);
    build.step(Event::ImageRead(vec![]));
    assert_eq!(
        build.step(Event::Transformed(Err("bad image".to_string()))),
        Action::Abort(BuildError::Transform { message: "bad image".to_string() })
    );
    let mut build = linked(FrontEnd::Staged);
    build.step(Event::ImageRead(vec![]));
    build.step(Event::Transformed(Ok(program(0))));
    assert_eq!(
        build.step(Event::Transformed(Err("worse".to_string()))),
        Action::Abort(BuildError::Transform { message: "worse".to_string() })
    );
}

#[test]
fn unpackable_stripped_program_is_a_format_error() {
    let mut build = linked(FrontEnd::Staged);
    build.step(Event::ImageRead(vec![]));
    build.step(Event::Transformed(Ok(program(1 << 24))));
    assert_eq!(
        build.step(Event::Transformed(Ok(program(0)))),
        Action::Abort(BuildError::Format(FormatError::SectionTooLarge))
    );
    assert_eq!(build.stage(), Stage::Failed);
}

#[test]
fn unpackable_debug_program_is_a_format_error() {
    let mut build = linked(FrontEnd::Staged);
    build.step(Event::ImageRead(vec![]));
    build.step(Event::Transformed(Ok(program(0))));
    match build.step(Event::Transformed(Ok(vec![1, 2, 3]))) {
        Action::Abort(BuildError::Format(FormatError::MalformedProgram(_))) => {}
        other => panic!("unexpected: {:?}", other),
    }
}

#[test]
fn unexpected_events_fail_the_build() {
    let mut build = Pipeline::new(FrontEnd::Staged);
    assert_eq!(build.step(ok()), Action::Abort(BuildError::UnexpectedEvent));
    assert_eq!(build.stage(), Stage::Failed);
    let mut build = Pipeline::new(FrontEnd::Staged);
    build.step(Event::Start);
    assert_eq!(build.step(Event::Start), Action::Abort(BuildError::UnexpectedEvent));
    let mut build = linked(FrontEnd::Staged);
    assert_eq!(build.step(ok()), Action::Abort(BuildError::UnexpectedEvent));
    let mut build = linked(FrontEnd::Staged);
    build.step(Event::ImageRead(vec![]));
    assert_eq!(build.step(Event::ImageRead(vec![])), Action::Abort(BuildError::UnexpectedEvent));
}

#[test]
fn the_transformer_is_asked_for_the_fixed_table() {
    let mut build = linked(FrontEnd::SingleInvocation);
    let expected = |strip| TransformRequest {
        instruction_set: InstructionSet::JamV1,
        dispatch_table: vec![
            b"refine_ext".to_vec(),
            b"accumulate_ext".to_vec(),
            b"on_transfer_ext".to_vec(),
        ],
        strip,
    };
    assert_eq!(build.step(Event::ImageRead(b"image".to_vec())), Action::Transform(expected(true)));
    assert_eq!(
        build.step(Event::Transformed(Ok(program(0)))),
        Action::Transform(expected(false))
    );
    assert_eq!(transform_request(true), expected(true));
    assert_eq!(transform_request(false), expected(false));
}

#[test]
fn the_image_is_kept_for_both_transformer_runs() {
    let mut build = linked(FrontEnd::Staged);
    assert!(build.linked_image().is_empty());
    build.step(Event::ImageRead(vec![4, 5]));
    assert_eq!(build.linked_image(), &vec![4, 5]);
    build.step(Event::Transformed(Ok(program(0))));
    assert_eq!(build.linked_image(), &vec![4, 5]);
    build.step(Event::ImageRead(vec![6]));
    assert_eq!(build.stage(), Stage::Failed);
    assert_eq!(build.linked_image(), &vec![4, 5]);
}

#[test]
fn tool_descriptions() {
    assert_eq!(Tool::GuestCompile.description(), "compile source");
    assert_eq!(Tool::StubCompile(Stub::Entry).description(), "compile entry stub");
    assert_eq!(Tool::StubCompile(Stub::Runtime).description(), "compile runtime stub");
    assert_eq!(Tool::StubCompile(Stub::Exports).description(), "compile exports stub");
    assert_eq!(Tool::Link.description(), "link ELF");
    assert_eq!(Tool::Driver.description(), "compile C source");
}

#[test]
fn build_error_messages() {
    assert_eq!(
        BuildError::Compile { tool: Tool::GuestCompile, output: output("exit status: 1", "o", "e") }
            .message(),
        "Command failed for compile source: exit status: 1\nstdout: o\nstderr: e"
    );
    assert_eq!(
        BuildError::Link { output: output("signal: 9", "", "killed") }.message(),
        "Command failed for link ELF: signal: 9\nstdout: \nstderr: killed"
    );
    assert_eq!(
        BuildError::Transform { message: "no".to_string() }.message(),
        "convert ELF to PVM: no"
    );
    assert_eq!(
        BuildError::Format(FormatError::BadDataSize).message(),
        "encode program blob: size of the read-write data out of range"
    );
    assert_eq!(
        BuildError::Io { path: "a/b".to_string(), message: "denied".to_string() }.message(),
        "a/b: denied"
    );
    assert_eq!(BuildError::UnexpectedEvent.message(), "unexpected event");
}

#[test]
fn commands_choose_the_front_end() {
    let build = Cli { command: Commands::Build(staged::Args::new("a.c".to_string())) };
    assert_eq!(build.command.front_end(), Some(FrontEnd::Staged));
    let cc = Commands::PolkavmCcBuild(polkavm_cc_build::Args::new("a.c".to_string()));
    assert_eq!(cc.front_end(), Some(FrontEnd::SingleInvocation));
    let dis = Commands::Disasm(disasm::Args { input: "a.pvm".to_string(), format: "guest".to_string() });
    assert_eq!(dis.front_end(), None);
}
