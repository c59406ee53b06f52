//! What can go wrong in the blob codec.

use vstd::prelude::*;

verus! {

/// Why a program or a blob was refused by the codec.
#[derive(Debug, PartialEq, Eq)]
pub enum FormatError {
    /// The bytes are no program as the transformer writes one; the text says
    /// why, in the words of the program's reader.
    MalformedProgram(String),
    /// The bytes are no program blob: they end early, a length in them does
    /// not match what follows, or bytes are left over.
    MalformedBlob,
    /// A section, the stack size or the metadata is larger than its field in
    /// the container can say.
    SectionTooLarge,
    /// The declared size of the read-write section is smaller than its
    /// initial contents, or asks for more padding pages than can be counted.
    BadDataSize,
}

impl FormatError {
    /// The error in words.
    pub open spec fn spec_message(self) -> Seq<char> {
        match self {
            FormatError::MalformedProgram(why) => "malformed program: "@ + why@,
            FormatError::MalformedBlob => "malformed program blob"@,
            FormatError::SectionTooLarge => "section too large for a program blob"@,
            FormatError::BadDataSize => "size of the read-write data out of range"@,
        }
    }

    /// The error in words.
    pub fn message(&self) -> (r: String)
        ensures
            r@ == self.spec_message(),
    {
        match self {
            FormatError::MalformedProgram(why) => String::from_str("malformed program: ").concat(
                why.as_str(),
            ),
            FormatError::MalformedBlob => String::from_str("malformed program blob"),
            FormatError::SectionTooLarge => String::from_str(
                "section too large for a program blob",
            ),
            FormatError::BadDataSize => String::from_str(
                "size of the read-write data out of range",
            ),
        }
    }
}

} // verus!
