//! Disassembly of a program blob: the choice of a listing format, and the
//! program that a blob holds. The listing itself is rendered by whoever calls,
//! with a disassembler that writes to the output as it goes.

use crate::codec::{decode, decode_spec, ProgramParts, ProgramPartsView};
use crate::error::FormatError;
use crate::toolchain::same_text;
use polkavm_common::program::{InstructionSetKind, ProgramParts as PvmParts};
use vstd::prelude::*;

verus! {

/// What to disassemble, and how to show it.
pub struct Args {
    /// The blob file.
    pub input: String,
    /// The name of the listing format.
    pub format: String,
}

/// How a listing shows the program.
#[derive(Copy, Clone, PartialEq, Eq, Debug, Structural)]
pub enum DisassemblyFormat {
    /// The instructions of the guest.
    Guest,
    /// The instructions of the guest, each with the native code it becomes.
    GuestAndNative,
    /// The native code alone.
    Native,
    /// The instructions of the guest without what changes from build to
    /// build, for comparing listings.
    DiffFriendly,
}

/// A command line that cannot be carried out.
#[derive(Debug, PartialEq, Eq)]
pub enum ArgumentError {
    /// No listing format has this name.
    UnknownFormat(String),
}

/// Why there is no listing.
#[derive(Debug, PartialEq, Eq)]
pub enum DisasmError {
    /// The command line cannot be carried out.
    Argument(ArgumentError),
    /// The bytes are no blob, or the blob holds no program.
    Format(FormatError),
    /// The disassembler gave up; the text is its own.
    Render(String),
}

impl ArgumentError {
    /// The error in words.
    pub open spec fn spec_message(self) -> Seq<char> {
        match self {
            ArgumentError::UnknownFormat(name) => "unknown format: "@ + name@,
        }
    }

    /// The error in words.
    pub fn message(&self) -> (r: String)
        ensures
            r@ == self.spec_message(),
    {
        match self {
            ArgumentError::UnknownFormat(name) => String::from_str("unknown format: ").concat(
                name.as_str(),
            ),
        }
    }
}

impl DisasmError {
    /// The error in words: those of the argument or format error, or the
    /// disassembler's own.
    pub open spec fn spec_message(self) -> Seq<char> {
        match self {
            DisasmError::Argument(error) => error.spec_message(),
            DisasmError::Format(error) => error.spec_message(),
            DisasmError::Render(why) => why@,
        }
    }

    /// The error in words.
    pub fn message(&self) -> (r: String)
        ensures
            r@ == self.spec_message(),
    {
        match self {
            DisasmError::Argument(error) => error.message(),
            DisasmError::Format(error) => error.message(),
            DisasmError::Render(why) => why.clone(),
        }
    }
}

/// The format that goes by `name`, if one does. Each format has one name of
/// its own and the short names that were accepted before.
pub open spec fn format_named(name: Seq<char>) -> Option<DisassemblyFormat> {
    if name == "guest"@ {
        Some(DisassemblyFormat::Guest)
    } else if name == "guest-and-native"@ || name == "guestnative"@ || name == "guest-native"@ {
        Some(DisassemblyFormat::GuestAndNative)
    } else if name == "native"@ {
        Some(DisassemblyFormat::Native)
    } else if name == "diff-friendly"@ || name == "diff"@ || name == "difffriendly"@ {
        Some(DisassemblyFormat::DiffFriendly)
    } else {
        None
    }
}

impl DisassemblyFormat {
    /// The name of the format.
    pub open spec fn spec_name(self) -> Seq<char> {
        match self {
            DisassemblyFormat::Guest => "guest"@,
            DisassemblyFormat::GuestAndNative => "guest-and-native"@,
            DisassemblyFormat::Native => "native"@,
            DisassemblyFormat::DiffFriendly => "diff-friendly"@,
        }
    }

    /// The name of the format.
    pub fn name(self) -> (name: &'static str)
        ensures
            name@ == self.spec_name(),
    {
        match self {
            DisassemblyFormat::Guest => "guest",
            DisassemblyFormat::GuestAndNative => "guest-and-native",
            DisassemblyFormat::Native => "native",
            DisassemblyFormat::DiffFriendly => "diff-friendly",
        }
    }

    /// The format that goes by `name`, or `UnknownFormat` with the name.
    pub fn parse(name: &str) -> (r: Result<DisassemblyFormat, ArgumentError>)
        ensures
            match r {
                Ok(format) => format_named(name@) == Some(format),
                Err(ArgumentError::UnknownFormat(given)) => format_named(name@) is None && given@
                    == name@,
            },
    {
        if same_text(name, "guest") {
            Ok(DisassemblyFormat::Guest)
        } else if same_text(name, "guest-and-native") || same_text(name, "guestnative")
            || same_text(name, "guest-native") {
            Ok(DisassemblyFormat::GuestAndNative)
        } else if same_text(name, "native") {
            Ok(DisassemblyFormat::Native)
        } else if same_text(name, "diff-friendly") || same_text(name, "diff") || same_text(
            name,
            "difffriendly",
        ) {
            Ok(DisassemblyFormat::DiffFriendly)
        } else {
            Err(ArgumentError::UnknownFormat(String::from_str(name)))
        }
    }
}

/// Every format is chosen by its own name, and by no other format's.
pub proof fn lemma_format_names(format: DisassemblyFormat)
    ensures
        format_named(format.spec_name()) == Some(format),
{
    reveal_strlit("guest");
    reveal_strlit("guest-and-native");
    reveal_strlit("guestnative");
    reveal_strlit("guest-native");
    reveal_strlit("native");
    reveal_strlit("diff-friendly");
    reveal_strlit("diff");
    reveal_strlit("difffriendly");
    match format {
        DisassemblyFormat::Guest => {},
        DisassemblyFormat::GuestAndNative => {
            assert("guest-and-native"@.len() != "guest"@.len());
        },
        DisassemblyFormat::Native => {
            assert("native"@.len() != "guest"@.len());
            assert("native"@.len() != "guest-and-native"@.len());
            assert("native"@.len() != "guestnative"@.len());
            assert("native"@.len() != "guest-native"@.len());
        },
        DisassemblyFormat::DiffFriendly => {
            assert("diff-friendly"@.len() != "guest"@.len());
            assert("diff-friendly"@.len() != "guest-and-native"@.len());
            assert("diff-friendly"@.len() != "guestnative"@.len());
            assert("diff-friendly"@.len() != "guest-native"@.len());
            assert("diff-friendly"@.len() != "native"@.len());
        },
    }
}

/// Checks a command line before anything is read: the format that it names,
/// or `UnknownFormat`.
pub fn check(args: &Args) -> (r: Result<DisassemblyFormat, ArgumentError>)
    ensures
        match r {
            Ok(format) => format_named(args.format@) == Some(format),
            Err(ArgumentError::UnknownFormat(given)) => format_named(args.format@) is None
                && given@ == args.format@,
        },
{
    DisassemblyFormat::parse(args.format.as_str())
}

#[verifier::external_type_specification]
#[verifier::external_body]
pub struct ExProgramBlob(polkavm_common::program::ProgramBlob);

/// Why a program of the JAM instruction set with these parts is no program,
/// in the words of `ProgramBlob::from_parts` of `polkavm_common`; `None`
/// where it is one.
pub uninterp spec fn program_complaint(parts: ProgramPartsView) -> Option<Seq<char>>;

/// Calls `ProgramBlob::from_parts` of `polkavm_common` on a program of the
/// JAM instruction set with these sizes, data sections and code, and nothing
/// else. It checks that the parts make a program; nothing is stated of the
/// check but that it goes by the parts alone.
#[verifier::external_body]
fn program_from_parts(parts: &ProgramParts) -> (r: Result<
    polkavm_common::program::ProgramBlob,
    String,
>)
    ensures
        match r {
            Ok(_) => program_complaint(parts@) is None,
            Err(why) => program_complaint(parts@) == Some(why@),
        },
{
    let mut p = PvmParts::empty(InstructionSetKind::JamV1);
    p.ro_data_size = parts.ro_data_size;
    p.rw_data_size = parts.rw_data_size;
    p.stack_size = parts.stack_size;
    p.ro_data = parts.ro_data.as_slice().into();
    p.rw_data = parts.rw_data.as_slice().into();
    p.code_and_jump_table = parts.code_and_jump_table.as_slice().into();
    match polkavm_common::program::ProgramBlob::from_parts(p) {
        Ok(program) => Ok(program),
        Err(error) => Err(error.to_string()),
    }
}

/// What becomes of what the parts of a blob were found to be: a blob that
/// holds no program is refused as malformed, in the words of the check.
pub fn checked_program<T>(program: Result<T, String>) -> (r: Result<T, DisasmError>)
    ensures
        match program {
            Ok(program) => r == Ok::<T, DisasmError>(program),
            Err(why) => r == Err::<T, DisasmError>(
                DisasmError::Format(FormatError::MalformedProgram(why)),
            ),
        },
{
    match program {
        Ok(program) => Ok(program),
        Err(why) => Err(DisasmError::Format(FormatError::MalformedProgram(why))),
    }
}

/// What becomes of what the disassembler returned: its result, or its
/// complaint as a `Render` error.
pub fn rendered<T>(outcome: Result<T, String>) -> (r: Result<T, DisasmError>)
    ensures
        match outcome {
            Ok(value) => r == Ok::<T, DisasmError>(value),
            Err(why) => r == Err::<T, DisasmError>(DisasmError::Render(why)),
        },
{
    match outcome {
        Ok(value) => Ok(value),
        Err(why) => Err(DisasmError::Render(why)),
    }
}

/// Why a blob that holds no program is refused.
pub open spec fn refused(blob: Seq<u8>, error: DisasmError) -> bool {
    match decode_spec(blob) {
        Err(e) => error == DisasmError::Format(e),
        Ok((parts, _)) => error matches DisasmError::Format(FormatError::MalformedProgram(why))
            && program_complaint(parts) == Some(why@),
    }
}

/// Whether a blob holds a program.
pub open spec fn holds_program(blob: Seq<u8>) -> bool {
    decode_spec(blob) matches Ok((parts, _)) && program_complaint(parts) is None
}

/// The program that a blob holds, ready for a disassembler.
///
/// Bytes that are no blob are refused as `MalformedBlob`, and a blob whose
/// parts are no program as `MalformedProgram`, in the words of the check;
/// every other blob gives its program.
pub fn load(blob: &[u8]) -> (r: Result<polkavm_common::program::ProgramBlob, DisasmError>)
    ensures
        match r {
            Ok(_) => holds_program(blob@),
            Err(error) => !holds_program(blob@) && refused(blob@, error),
        },
{
    let parts = match decode(blob) {
        Ok((parts, _)) => parts,
        Err(error) => {
            return Err(DisasmError::Format(error));
        },
    };
    checked_program(program_from_parts(&parts))
}

} // verus!
