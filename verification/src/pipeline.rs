//! The build as a state machine. The caller runs the external tools and the
//! transformer, reads and writes the files, and reports what happened; the
//! machine decides what is done next.

use crate::codec::{encode_program, encode_spec, packs_to, program_parts_of};
use crate::error::FormatError;
use crate::toolchain::{command_failure_message, failure_message, Stub};
use crate::transform::{request_for, transform_request, TransformRequest};
use vstd::prelude::*;

verus! {

/// How the linked image is made.
#[derive(Copy, Clone, PartialEq, Eq, Debug, Structural)]
pub enum FrontEnd {
    /// Guest compile, three stub compiles and a link, one tool at a time.
    Staged,
    /// One call of a compiler driver that compiles and links guest and stubs.
    SingleInvocation,
}

/// An external tool that the caller is asked to run.
#[derive(Copy, Clone, PartialEq, Eq, Debug, Structural)]
pub enum Tool {
    GuestCompile,
    StubCompile(Stub),
    Link,
    Driver,
}

/// What a build in the stage `Transforming` waits for.
#[derive(Copy, Clone, PartialEq, Eq, Debug, Structural)]
pub enum Pass {
    /// The linked image.
    Load,
    /// The program without debug information.
    Strip,
    /// The program with debug information.
    Keep,
}

/// Where a build stands.
#[derive(Copy, Clone, PartialEq, Eq, Debug, Structural)]
pub enum Stage {
    Init,
    Compiling,
    StubBuilding(Stub),
    Linking,
    Transforming(Pass),
    Encoding,
    Done,
    Failed,
}

/// What an event is, without what it carries.
#[derive(Copy, Clone, PartialEq, Eq, Debug, Structural)]
pub enum EventKind {
    Start,
    ToolSucceeded,
    ToolFailed,
    ImageRead,
    Transformed,
    TransformFailed,
    ArtifactsWritten,
    IoFailed,
}

/// What an error is, without what it carries.
#[derive(Copy, Clone, PartialEq, Eq, Debug, Structural)]
pub enum ErrorKind {
    Compile,
    Link,
    Transform,
    Format,
    Io,
    UnexpectedEvent,
}

/// What an action is, without what it carries.
#[derive(Copy, Clone, PartialEq, Eq, Debug, Structural)]
pub enum ActionKind {
    Run(Tool),
    ReadImage,
    Transform(bool),
    WriteArtifacts,
    Finish,
    Abort(ErrorKind),
    Halt,
}

/// What an external tool left behind.
#[derive(Debug, PartialEq, Eq)]
pub struct ToolOutput {
    /// The exit status, as text.
    pub status: String,
    pub stdout: String,
    pub stderr: String,
}

/// What the caller reports.
#[derive(Debug, PartialEq, Eq)]
pub enum Event {
    /// The build is to begin.
    Start,
    /// The tool that was asked for has run.
    ToolExited { success: bool, output: ToolOutput },
    /// The linked image was read.
    ImageRead(Vec<u8>),
    /// The transformer has run: its program, or its complaint.
    Transformed(Result<Vec<u8>, String>),
    /// Both blobs were written.
    ArtifactsWritten,
    /// A tool could not be started, or a file could not be read or written.
    IoFailed { path: String, message: String },
}

/// Why a build failed.
#[derive(Debug, PartialEq, Eq)]
pub enum BuildError {
    /// A compiler exit that was no success, with what the compiler printed.
    Compile { tool: Tool, output: ToolOutput },
    /// A linker exit that was no success, with what the linker printed.
    Link { output: ToolOutput },
    /// The transformer refused the image.
    Transform { message: String },
    /// A program could not be packed into a blob.
    Format(FormatError),
    /// A tool could not be started, or a file could not be read or written.
    Io { path: String, message: String },
    /// The caller reported something that the build was not waiting for.
    UnexpectedEvent,
}

/// What the caller is to do next.
#[derive(Debug, PartialEq, Eq)]
pub enum Action {
    /// Run this tool and report its exit.
    Run(Tool),
    /// Read the linked image and report its bytes.
    ReadImage,
    /// Run the transformer on the linked image with this request, and report
    /// what it returns.
    Transform(TransformRequest),
    /// Write the deployment blob to the output path and the debug blob to
    /// its path, and report it.
    WriteArtifacts { deployment: Vec<u8>, debug: Vec<u8> },
    /// The build is done.
    Finish,
    /// The build has failed.
    Abort(BuildError),
    /// The build was over before this event.
    Halt,
}

impl Event {
    pub open spec fn kind(self) -> EventKind {
        match self {
            Event::Start => EventKind::Start,
            Event::ToolExited { success, .. } => if success {
                EventKind::ToolSucceeded
            } else {
                EventKind::ToolFailed
            },
            Event::ImageRead(_) => EventKind::ImageRead,
            Event::Transformed(Ok(_)) => EventKind::Transformed,
            Event::Transformed(Err(_)) => EventKind::TransformFailed,
            Event::ArtifactsWritten => EventKind::ArtifactsWritten,
            Event::IoFailed { .. } => EventKind::IoFailed,
        }
    }
}

impl BuildError {
    pub open spec fn kind(self) -> ErrorKind {
        match self {
            BuildError::Compile { .. } => ErrorKind::Compile,
            BuildError::Link { .. } => ErrorKind::Link,
            BuildError::Transform { .. } => ErrorKind::Transform,
            BuildError::Format(_) => ErrorKind::Format,
            BuildError::Io { .. } => ErrorKind::Io,
            BuildError::UnexpectedEvent => ErrorKind::UnexpectedEvent,
        }
    }
}

impl Action {
    pub open spec fn kind(self) -> ActionKind {
        match self {
            Action::Run(tool) => ActionKind::Run(tool),
            Action::ReadImage => ActionKind::ReadImage,
            Action::Transform(request) => ActionKind::Transform(request.strip),
            Action::WriteArtifacts { .. } => ActionKind::WriteArtifacts,
            Action::Finish => ActionKind::Finish,
            Action::Abort(error) => ActionKind::Abort(error.kind()),
            Action::Halt => ActionKind::Halt,
        }
    }
}

impl Tool {
    /// What the tool is run for, in the words of an error message.
    pub open spec fn spec_description(self) -> Seq<char> {
        match self {
            Tool::GuestCompile => "compile source"@,
            Tool::StubCompile(Stub::Entry) => "compile entry stub"@,
            Tool::StubCompile(Stub::Runtime) => "compile runtime stub"@,
            Tool::StubCompile(Stub::Exports) => "compile exports stub"@,
            Tool::Link => "link ELF"@,
            Tool::Driver => "compile C source"@,
        }
    }

    /// What the tool is run for, in the words of an error message.
    pub fn description(self) -> (r: &'static str)
        ensures
            r@ == self.spec_description(),
    {
        match self {
            Tool::GuestCompile => "compile source",
            Tool::StubCompile(Stub::Entry) => "compile entry stub",
            Tool::StubCompile(Stub::Runtime) => "compile runtime stub",
            Tool::StubCompile(Stub::Exports) => "compile exports stub",
            Tool::Link => "link ELF",
            Tool::Driver => "compile C source",
        }
    }
}

impl BuildError {
    /// The error in words, with all that the failing tool printed.
    pub open spec fn spec_message(self) -> Seq<char> {
        match self {
            BuildError::Compile { tool, output } => failure_message(
                tool.spec_description(),
                output.status@,
                output.stdout@,
                output.stderr@,
            ),
            BuildError::Link { output } => failure_message(
                Tool::Link.spec_description(),
                output.status@,
                output.stdout@,
                output.stderr@,
            ),
            BuildError::Transform { message } => "convert ELF to PVM: "@ + message@,
            BuildError::Format(error) => "encode program blob: "@ + error.spec_message(),
            BuildError::Io { path, message } => path@ + ": "@ + message@,
            BuildError::UnexpectedEvent => "unexpected event"@,
        }
    }

    /// The error in words, with all that the failing tool printed.
    pub fn message(&self) -> (r: String)
        ensures
            r@ == self.spec_message(),
    {
        match self {
            BuildError::Compile { tool, output } => command_failure_message(
                tool.description(),
                output.status.as_str(),
                output.stdout.as_str(),
                output.stderr.as_str(),
            ),
            BuildError::Link { output } => command_failure_message(
                Tool::Link.description(),
                output.status.as_str(),
                output.stdout.as_str(),
                output.stderr.as_str(),
            ),
            BuildError::Transform { message } => String::from_str("convert ELF to PVM: ").concat(
                message.as_str(),
            ),
            BuildError::Format(error) => String::from_str("encode program blob: ").concat(
                error.message().as_str(),
            ),
            BuildError::Io { path, message } => path.clone().concat(": ").concat(message.as_str()),
            BuildError::UnexpectedEvent => String::from_str("unexpected event"),
        }
    }
}

/// The tool that is run first.
pub open spec fn first_tool(front_end: FrontEnd) -> Tool {
    match front_end {
        FrontEnd::Staged => Tool::GuestCompile,
        FrontEnd::SingleInvocation => Tool::Driver,
    }
}

/// The tool that a build in this stage waits for, where it waits for one.
pub open spec fn running_tool(front_end: FrontEnd, stage: Stage) -> Tool {
    match stage {
        Stage::StubBuilding(stub) => Tool::StubCompile(stub),
        Stage::Linking => Tool::Link,
        _ => first_tool(front_end),
    }
}

/// What follows the success of the tool that a build in this stage waited
/// for.
pub open spec fn after_tool(front_end: FrontEnd, stage: Stage) -> (Stage, ActionKind) {
    match stage {
        Stage::Compiling => match front_end {
            FrontEnd::Staged => (
                Stage::StubBuilding(Stub::Entry),
                ActionKind::Run(Tool::StubCompile(Stub::Entry)),
            ),
            FrontEnd::SingleInvocation => (Stage::Transforming(Pass::Load), ActionKind::ReadImage),
        },
        Stage::StubBuilding(Stub::Entry) => (
            Stage::StubBuilding(Stub::Runtime),
            ActionKind::Run(Tool::StubCompile(Stub::Runtime)),
        ),
        Stage::StubBuilding(Stub::Runtime) => (
            Stage::StubBuilding(Stub::Exports),
            ActionKind::Run(Tool::StubCompile(Stub::Exports)),
        ),
        Stage::StubBuilding(Stub::Exports) => (Stage::Linking, ActionKind::Run(Tool::Link)),
        _ => (Stage::Transforming(Pass::Load), ActionKind::ReadImage),
    }
}

/// The failure of a build, for a reason of this kind.
pub open spec fn failure(kind: ErrorKind) -> (Stage, ActionKind) {
    (Stage::Failed, ActionKind::Abort(kind))
}

/// The transition function: the stage that follows `stage` on an event of
/// this kind, and the kind of action that the caller is asked for. `packed`
/// says whether both programs can be packed into blobs; it is asked only
/// when the second program arrives.
///
/// The first failure ends the build, and nothing is tried again. An event
/// that the stage does not wait for ends it too.
pub open spec fn next(front_end: FrontEnd, stage: Stage, event: EventKind, packed: bool) -> (
    Stage,
    ActionKind,
) {
    match stage {
        Stage::Done | Stage::Failed => (stage, ActionKind::Halt),
        Stage::Init => match event {
            EventKind::Start => (Stage::Compiling, ActionKind::Run(first_tool(front_end))),
            _ => failure(ErrorKind::UnexpectedEvent),
        },
        Stage::Compiling | Stage::StubBuilding(_) | Stage::Linking => match event {
            EventKind::ToolSucceeded => after_tool(front_end, stage),
            EventKind::ToolFailed => failure(
                if stage == Stage::Linking {
                    ErrorKind::Link
                } else {
                    ErrorKind::Compile
                },
            ),
            EventKind::IoFailed => failure(ErrorKind::Io),
            _ => failure(ErrorKind::UnexpectedEvent),
        },
        Stage::Transforming(Pass::Load) => match event {
            EventKind::ImageRead => (Stage::Transforming(Pass::Strip), ActionKind::Transform(true)),
            EventKind::IoFailed => failure(ErrorKind::Io),
            _ => failure(ErrorKind::UnexpectedEvent),
        },
        Stage::Transforming(Pass::Strip) => match event {
            EventKind::Transformed => (Stage::Transforming(Pass::Keep), ActionKind::Transform(false)),
            EventKind::TransformFailed => failure(ErrorKind::Transform),
            _ => failure(ErrorKind::UnexpectedEvent),
        },
        Stage::Transforming(Pass::Keep) => match event {
            EventKind::Transformed => if packed {
                (Stage::Encoding, ActionKind::WriteArtifacts)
            } else {
                failure(ErrorKind::Format)
            },
            EventKind::TransformFailed => failure(ErrorKind::Transform),
            _ => failure(ErrorKind::UnexpectedEvent),
        },
        Stage::Encoding => match event {
            EventKind::ArtifactsWritten => (Stage::Done, ActionKind::Finish),
            EventKind::IoFailed => failure(ErrorKind::Io),
            _ => failure(ErrorKind::UnexpectedEvent),
        },
    }
}

/// Whether a build in `stage` can have asked for an action of this kind.
pub open spec fn awaits(stage: Stage, action: ActionKind) -> bool {
    match action {
        ActionKind::Run(Tool::GuestCompile) | ActionKind::Run(Tool::Driver) => stage
            == Stage::Compiling,
        ActionKind::Run(Tool::StubCompile(stub)) => stage == Stage::StubBuilding(stub),
        ActionKind::Run(Tool::Link) => stage == Stage::Linking,
        ActionKind::ReadImage => stage == Stage::Transforming(Pass::Load),
        ActionKind::Transform(strip) => stage == Stage::Transforming(
            if strip {
                Pass::Strip
            } else {
                Pass::Keep
            },
        ),
        ActionKind::WriteArtifacts => stage == Stage::Encoding,
        ActionKind::Finish => stage == Stage::Done,
        ActionKind::Abort(_) => stage == Stage::Failed,
        ActionKind::Halt => stage == Stage::Done || stage == Stage::Failed,
    }
}

/// Whether the program `program` can be packed into a blob with `metadata`.
pub open spec fn packable_program(program: Seq<u8>, metadata: Seq<u8>) -> bool {
    program_parts_of(program) matches Ok(parts) && encode_spec(parts, metadata) is Ok
}

/// A build under way.
pub struct Pipeline {
    front_end: FrontEnd,
    stage: Stage,
    metadata: Vec<u8>,
    image: Vec<u8>,
    stripped: Vec<u8>,
}

impl Pipeline {
    pub closed spec fn spec_front_end(&self) -> FrontEnd {
        self.front_end
    }

    pub closed spec fn spec_stage(&self) -> Stage {
        self.stage
    }

    /// The metadata that goes into both blobs.
    pub closed spec fn metadata(&self) -> Seq<u8> {
        self.metadata@
    }

    /// The linked image, once it was read.
    pub closed spec fn image(&self) -> Seq<u8> {
        self.image@
    }

    /// The program without debug information, once the transformer made it.
    pub closed spec fn stripped(&self) -> Seq<u8> {
        self.stripped@
    }

    /// A build that has not begun, with empty metadata.
    pub fn new(front_end: FrontEnd) -> (pipeline: Pipeline)
        ensures
            pipeline.spec_front_end() == front_end,
            pipeline.spec_stage() == Stage::Init,
            pipeline.metadata() == Seq::<u8>::empty(),
    {
        Pipeline {
            front_end,
            stage: Stage::Init,
            metadata: Vec::new(),
            image: Vec::new(),
            stripped: Vec::new(),
        }
    }

    /// A build that has not begun, with metadata for its blobs.
    pub fn with_metadata(front_end: FrontEnd, metadata: Vec<u8>) -> (pipeline: Pipeline)
        ensures
            pipeline.spec_front_end() == front_end,
            pipeline.spec_stage() == Stage::Init,
            pipeline.metadata() == metadata@,
    {
        Pipeline { front_end, stage: Stage::Init, metadata, image: Vec::new(), stripped: Vec::new() }
    }

    #[verifier::when_used_as_spec(spec_front_end)]
    pub fn front_end(&self) -> (front_end: FrontEnd)
        ensures
            front_end == self.spec_front_end(),
    {
        self.front_end
    }

    #[verifier::when_used_as_spec(spec_stage)]
    pub fn stage(&self) -> (stage: Stage)
        ensures
            stage == self.spec_stage(),
    {
        self.stage
    }

    /// The linked image that the transformer is run on, once it was read.
    pub fn linked_image(&self) -> (image: &Vec<u8>)
        ensures
            image@ == self.image(),
    {
        &self.image
    }

    /// Whether the program that `event` brings and the stripped program can
    /// both be packed.
    pub open spec fn packed(&self, event: Event) -> bool {
        event matches Event::Transformed(Ok(program)) && packable_program(
            self.stripped(),
            self.metadata(),
        ) && packable_program(program@, self.metadata())
    }

    /// What an action carries, where it carries anything: the transformer is
    /// asked for what every build asks of it; the blobs are the packed
    /// programs, the stripped one for deployment; an error holds what the
    /// event brought, or the first refusal of the codec.
    pub open spec fn carries(&self, event: Event, action: Action) -> bool {
        match action {
            Action::Transform(request) => request@ == request_for(request.strip),
            Action::WriteArtifacts { deployment, debug } => event matches Event::Transformed(
                Ok(program),
            ) && packs_to(
                program_parts_of(self.stripped()),
                self.metadata(),
                Ok::<Vec<u8>, FormatError>(deployment),
            ) && packs_to(
                program_parts_of(program@),
                self.metadata(),
                Ok::<Vec<u8>, FormatError>(debug),
            ),
            Action::Abort(BuildError::Compile { tool, output }) => {
                &&& tool == running_tool(self.spec_front_end(), self.spec_stage())
                &&& event matches Event::ToolExited { output: printed, .. }
                &&& printed == output
            },
            Action::Abort(BuildError::Link { output }) => event matches Event::ToolExited {
                output: printed,
                ..
            } && printed == output,
            Action::Abort(BuildError::Transform { message }) => event == Event::Transformed(
                Err(message),
            ),
            Action::Abort(BuildError::Format(error)) => event matches Event::Transformed(
                Ok(program),
            ) && (packs_to(
                program_parts_of(self.stripped()),
                self.metadata(),
                Err::<Vec<u8>, FormatError>(error),
            ) || (packable_program(self.stripped(), self.metadata()) && packs_to(
                program_parts_of(program@),
                self.metadata(),
                Err::<Vec<u8>, FormatError>(error),
            ))),
            Action::Abort(BuildError::Io { path, message }) => event == (Event::IoFailed {
                path,
                message,
            }),
            _ => true,
        }
    }

    /// What a step keeps of the image and of the stripped program: each is
    /// taken from the event that brings it and kept from then on.
    pub open spec fn keeps(&self, event: Event, after: Pipeline) -> bool {
        &&& after.spec_front_end() == self.spec_front_end()
        &&& after.metadata() == self.metadata()
        &&& after.image() == (match event {
            Event::ImageRead(image) if self.spec_stage() == Stage::Transforming(Pass::Load) => image@,
            _ => self.image(),
        })
        &&& after.stripped() == (match event {
            Event::Transformed(Ok(program)) if self.spec_stage() == Stage::Transforming(
                Pass::Strip,
            ) => program@,
            _ => self.stripped(),
        })
    }

    fn fail(&mut self, error: BuildError) -> (action: Action)
        ensures
            final(self).spec_stage() == Stage::Failed,
            final(self).spec_front_end() == old(self).spec_front_end(),
            final(self).metadata() == old(self).metadata(),
            final(self).image() == old(self).image(),
            final(self).stripped() == old(self).stripped(),
            action == Action::Abort(error),
    {
        self.stage = Stage::Failed;
        Action::Abort(error)
    }

    /// Takes one event and says what is to be done next.
    ///
    /// The stage and the kind of action are those of the transition function
    /// `next`. Blobs are handed out for writing only when both programs are
    /// packed, so a caller that writes only what it is handed never leaves a
    /// blob of a build that failed before.
    pub fn step(&mut self, event: Event) -> (action: Action)
        ensures
            (final(self).spec_stage(), action.kind()) == next(
                old(self).spec_front_end(),
                old(self).spec_stage(),
                event.kind(),
                old(self).packed(event),
            ),
            old(self).keeps(event, *final(self)),
            old(self).carries(event, action),
    {
        match self.stage {
            Stage::Done | Stage::Failed => Action::Halt,
            Stage::Init => match event {
                Event::Start => {
                    self.stage = Stage::Compiling;
                    match self.front_end {
                        FrontEnd::Staged => Action::Run(Tool::GuestCompile),
                        FrontEnd::SingleInvocation => Action::Run(Tool::Driver),
                    }
                },
                _ => self.fail(BuildError::UnexpectedEvent),
            },
            Stage::Compiling => match event {
                Event::ToolExited { success, output } => if success {
                    match self.front_end {
                        FrontEnd::Staged => {
                            self.stage = Stage::StubBuilding(Stub::Entry);
                            Action::Run(Tool::StubCompile(Stub::Entry))
                        },
                        FrontEnd::SingleInvocation => {
                            self.stage = Stage::Transforming(Pass::Load);
                            Action::ReadImage
                        },
                    }
                } else {
                    let tool = match self.front_end {
                        FrontEnd::Staged => Tool::GuestCompile,
                        FrontEnd::SingleInvocation => Tool::Driver,
                    };
                    self.fail(BuildError::Compile { tool, output })
                },
                Event::IoFailed { path, message } => self.fail(BuildError::Io { path, message }),
                _ => self.fail(BuildError::UnexpectedEvent),
            },
            Stage::StubBuilding(stub) => match event {
                Event::ToolExited { success, output } => if success {
                    match stub {
                        Stub::Entry => {
                            self.stage = Stage::StubBuilding(Stub::Runtime);
                            Action::Run(Tool::StubCompile(Stub::Runtime))
                        },
                        Stub::Runtime => {
                            self.stage = Stage::StubBuilding(Stub::Exports);
                            Action::Run(Tool::StubCompile(Stub::Exports))
                        },
                        Stub::Exports => {
                            self.stage = Stage::Linking;
                            Action::Run(Tool::Link)
                        },
                    }
                } else {
                    self.fail(BuildError::Compile { tool: Tool::StubCompile(stub), output })
                },
                Event::IoFailed { path, message } => self.fail(BuildError::Io { path, message }),
                _ => self.fail(BuildError::UnexpectedEvent),
            },
            Stage::Linking => match event {
                Event::ToolExited { success, output } => if success {
                    self.stage = Stage::Transforming(Pass::Load);
                    Action::ReadImage
                } else {
                    self.fail(BuildError::Link { output })
                },
                Event::IoFailed { path, message } => self.fail(BuildError::Io { path, message }),
                _ => self.fail(BuildError::UnexpectedEvent),
            },
            Stage::Transforming(Pass::Load) => match event {
                Event::ImageRead(image) => {
                    self.image = image;
                    self.stage = Stage::Transforming(Pass::Strip);
                    Action::Transform(transform_request(true))
                },
                Event::IoFailed { path, message } => self.fail(BuildError::Io { path, message }),
                _ => self.fail(BuildError::UnexpectedEvent),
            },
            Stage::Transforming(Pass::Strip) => match event {
                Event::Transformed(Ok(program)) => {
                    self.stripped = program;
                    self.stage = Stage::Transforming(Pass::Keep);
                    Action::Transform(transform_request(false))
                },
                Event::Transformed(Err(message)) => self.fail(BuildError::Transform { message }),
                _ => self.fail(BuildError::UnexpectedEvent),
            },
            Stage::Transforming(Pass::Keep) => match event {
                Event::Transformed(Ok(program)) => {
                    match encode_program(self.stripped.as_slice(), self.metadata.as_slice()) {
                        Err(error) => self.fail(BuildError::Format(error)),
                        Ok(deployment) => match encode_program(
                            program.as_slice(),
                            self.metadata.as_slice(),
                        ) {
                            Err(error) => self.fail(BuildError::Format(error)),
                            Ok(debug) => {
                                self.stage = Stage::Encoding;
                                Action::WriteArtifacts { deployment, debug }
                            },
                        },
                    }
                },
                Event::Transformed(Err(message)) => self.fail(BuildError::Transform { message }),
                _ => self.fail(BuildError::UnexpectedEvent),
            },
            Stage::Encoding => match event {
                Event::ArtifactsWritten => {
                    self.stage = Stage::Done;
                    Action::Finish
                },
                Event::IoFailed { path, message } => self.fail(BuildError::Io { path, message }),
                _ => self.fail(BuildError::UnexpectedEvent),
            },
        }
    }
}

/// The blobs are handed out for writing when the second program has arrived
/// and both programs are packed, and at no other time.
pub proof fn lemma_write_needs_packed_programs(
    front_end: FrontEnd,
    stage: Stage,
    event: EventKind,
    packed: bool,
)
    ensures
        next(front_end, stage, event, packed).1 == ActionKind::WriteArtifacts <==> stage
            == Stage::Transforming(Pass::Keep) && event == EventKind::Transformed && packed,
{
}

/// Whatever happens, the build stands where the action that it asks for
/// belongs.
pub proof fn lemma_next_awaits(front_end: FrontEnd, stage: Stage, event: EventKind, packed: bool)
    ensures
        awaits(
            next(front_end, stage, event, packed).0,
            next(front_end, stage, event, packed).1,
        ),
{
}

/// Whether an event of this kind reports a failure.
pub open spec fn is_failure(event: EventKind) -> bool {
    event == EventKind::ToolFailed || event == EventKind::TransformFailed || event
        == EventKind::IoFailed
}

/// A failure ends the build: the build that takes one fails, unless it was
/// over before.
pub proof fn lemma_failure_ends_build(
    front_end: FrontEnd,
    stage: Stage,
    event: EventKind,
    packed: bool,
)
    requires
        is_failure(event),
    ensures
        next(front_end, stage, event, packed).0 == (if stage == Stage::Done {
            Stage::Done
        } else {
            Stage::Failed
        }),
        next(front_end, stage, event, packed).1 is Abort || next(
            front_end,
            stage,
            event,
            packed,
        ).1 is Halt,
{
}

/// The kinds of action that a build asks for, one for each event of a run:
/// each event comes with the answer to whether the programs are packed.
pub open spec fn actions(front_end: FrontEnd, stage: Stage, events: Seq<(EventKind, bool)>) -> Seq<
    ActionKind,
>
    decreases events.len(),
{
    if events.len() == 0 {
        Seq::empty()
    } else {
        let (after, action) = next(front_end, stage, events[0].0, events[0].1);
        seq![action] + actions(front_end, after, events.drop_first())
    }
}

/// A build that is over asks for nothing more.
pub proof fn lemma_over_is_over(
    front_end: FrontEnd,
    stage: Stage,
    events: Seq<(EventKind, bool)>,
    i: int,
)
    requires
        stage == Stage::Done || stage == Stage::Failed,
        0 <= i < events.len(),
    ensures
        actions(front_end, stage, events).len() == events.len(),
        actions(front_end, stage, events)[i] == ActionKind::Halt,
    decreases events.len(),
{
    lemma_actions_len(front_end, stage, events);
    if i > 0 {
        lemma_over_is_over(front_end, stage, events.drop_first(), i - 1);
    }
}

/// A run asks for one action for each event.
pub proof fn lemma_actions_len(front_end: FrontEnd, stage: Stage, events: Seq<(EventKind, bool)>)
    ensures
        actions(front_end, stage, events).len() == events.len(),
    decreases events.len(),
{
    if events.len() > 0 {
        let (after, action) = next(front_end, stage, events[0].0, events[0].1);
        lemma_actions_len(front_end, after, events.drop_first());
    }
}

/// No partial output: once a tool has failed, the transformer has refused
/// the image, or a file could not be read or written, no later event makes
/// the build hand out a blob for writing. In particular a build whose guest
/// compile fails never asks for a write.
pub proof fn lemma_no_write_after_failure(
    front_end: FrontEnd,
    stage: Stage,
    events: Seq<(EventKind, bool)>,
    failed_at: int,
    i: int,
)
    requires
        0 <= failed_at <= i < events.len(),
        is_failure(events[failed_at].0),
    ensures
        actions(front_end, stage, events).len() == events.len(),
        actions(front_end, stage, events)[i] != ActionKind::WriteArtifacts,
    decreases events.len(),
{
    lemma_actions_len(front_end, stage, events);
    let (after, action) = next(front_end, stage, events[0].0, events[0].1);
    let rest = events.drop_first();
    lemma_actions_len(front_end, after, rest);
    if failed_at == 0 {
        lemma_failure_ends_build(front_end, stage, events[0].0, events[0].1);
        if i > 0 {
            lemma_over_is_over(front_end, after, rest, i - 1);
        }
    } else {
        lemma_no_write_after_failure(front_end, after, rest, failed_at - 1, i - 1);
    }
}

/// A blob is a function of its program and metadata: two packings of one
/// program with the same metadata are the same bytes.
pub proof fn lemma_packing_is_deterministic(
    program: Seq<u8>,
    metadata: Seq<u8>,
    first: Vec<u8>,
    second: Vec<u8>,
)
    requires
        packs_to(program_parts_of(program), metadata, Ok::<Vec<u8>, FormatError>(first)),
        packs_to(program_parts_of(program), metadata, Ok::<Vec<u8>, FormatError>(second)),
    ensures
        first@ == second@,
{
}

} // verus!
