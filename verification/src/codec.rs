//! The program blob: the durable container of a program and its metadata.
//!
//! The container is written and read by `jam_program_blob_common`; this module
//! states what it looks like, checks a program before handing it over, and
//! proves that reading undoes writing.

use crate::compact::{
    le_bytes, le_value, lemma_le_bytes_len, lemma_le_roundtrip, lemma_le_value_bound,
    lemma_length_prefix_len, lemma_radix_values, lemma_read_length_prefix, length_prefix,
    read_length_prefix,
};
use crate::error::FormatError;
use jam_program_blob_common::ProgramBlob as JamBlob;
use polkavm_common::program::{InstructionSetKind, ProgramParts as PvmParts};
use std::borrow::Cow;
use vstd::prelude::*;

verus! {

/// `n` rounded up to whole pages of 4096 bytes.
pub open spec fn page_round_up(n: nat) -> nat {
    ((n + 4095) / 4096) * 4096
}

/// The parts of a program that the transformer hands over and the container
/// keeps.
#[derive(Debug, PartialEq, Eq)]
pub struct ProgramParts {
    /// Size of the read-only section in memory.
    pub ro_data_size: u32,
    /// Size of the read-write section in memory.
    pub rw_data_size: u32,
    pub stack_size: u32,
    /// Initial contents of the read-only section; the rest is zero.
    pub ro_data: Vec<u8>,
    /// Initial contents of the read-write section; the rest is zero.
    pub rw_data: Vec<u8>,
    pub code_and_jump_table: Vec<u8>,
}

/// The parts of a program as mathematical values.
pub struct ProgramPartsView {
    pub ro_data_size: u32,
    pub rw_data_size: u32,
    pub stack_size: u32,
    pub ro_data: Seq<u8>,
    pub rw_data: Seq<u8>,
    pub code_and_jump_table: Seq<u8>,
}

impl View for ProgramParts {
    type V = ProgramPartsView;

    open spec fn view(&self) -> ProgramPartsView {
        ProgramPartsView {
            ro_data_size: self.ro_data_size,
            rw_data_size: self.rw_data_size,
            stack_size: self.stack_size,
            ro_data: self.ro_data@,
            rw_data: self.rw_data@,
            code_and_jump_table: self.code_and_jump_table@,
        }
    }
}

/// `data` cut or filled with zeros to `size` bytes.
pub open spec fn zero_padded(data: Seq<u8>, size: nat) -> Seq<u8> {
    if data.len() >= size {
        data.subrange(0, size as int)
    } else {
        data + Seq::new((size - data.len()) as nat, |i: int| 0u8)
    }
}

impl ProgramPartsView {
    /// Every section is small enough for its field in the container, with
    /// `metadata` beside it.
    pub open spec fn fits(self, metadata: Seq<u8>) -> bool {
        &&& metadata.len() <= u32::MAX
        &&& self.ro_data_size < 0x100_0000
        &&& self.rw_data.len() < 0x100_0000
        &&& self.stack_size < 0x100_0000
        &&& self.code_and_jump_table.len() <= u32::MAX
    }

    /// Whole pages of the read-write section beyond its initial contents.
    pub open spec fn padding_pages(self) -> int {
        (page_round_up(self.rw_data_size as nat) - page_round_up(self.rw_data.len())) / 4096
    }

    /// The read-write section is declared at least as large as its initial
    /// contents, and its padding can be counted in sixteen bits.
    pub open spec fn packable(self) -> bool {
        &&& page_round_up(self.rw_data.len()) <= page_round_up(self.rw_data_size as nat)
        &&& self.padding_pages() <= u16::MAX
    }

    /// The blob that holds this program and `metadata`: the read-only section
    /// written out in full, the read-write section as its initial contents and
    /// a count of padding pages.
    pub open spec fn pack(self, metadata: Seq<u8>) -> BlobView {
        BlobView {
            metadata,
            ro_data: zero_padded(self.ro_data, self.ro_data_size as nat),
            rw_data: self.rw_data,
            code_blob: self.code_and_jump_table,
            rw_data_padding_pages: self.padding_pages() as u16,
            stack_size: self.stack_size,
        }
    }

    /// The read-only section is given in full and the read-write section is
    /// declared in whole pages: nothing is left for the container to fill in.
    pub open spec fn canonical(self) -> bool {
        &&& self.ro_data.len() == self.ro_data_size
        &&& self.rw_data_size % 4096 == 0
    }

    /// This program as a container keeps it: the read-only section written
    /// out in full, the size of the read-write section in whole pages.
    pub open spec fn normalized(self) -> ProgramPartsView {
        ProgramPartsView {
            ro_data_size: self.ro_data_size,
            rw_data_size: page_round_up(self.rw_data_size as nat) as u32,
            stack_size: self.stack_size,
            ro_data: zero_padded(self.ro_data, self.ro_data_size as nat),
            rw_data: self.rw_data,
            code_and_jump_table: self.code_and_jump_table,
        }
    }
}

/// A program blob, field by field.
#[derive(Debug, PartialEq, Eq)]
pub struct Blob {
    pub metadata: Vec<u8>,
    pub ro_data: Vec<u8>,
    pub rw_data: Vec<u8>,
    pub code_blob: Vec<u8>,
    pub rw_data_padding_pages: u16,
    pub stack_size: u32,
}

/// A program blob as a mathematical value.
pub struct BlobView {
    pub metadata: Seq<u8>,
    pub ro_data: Seq<u8>,
    pub rw_data: Seq<u8>,
    pub code_blob: Seq<u8>,
    pub rw_data_padding_pages: u16,
    pub stack_size: u32,
}

impl View for Blob {
    type V = BlobView;

    open spec fn view(&self) -> BlobView {
        BlobView {
            metadata: self.metadata@,
            ro_data: self.ro_data@,
            rw_data: self.rw_data@,
            code_blob: self.code_blob@,
            rw_data_padding_pages: self.rw_data_padding_pages,
            stack_size: self.stack_size,
        }
    }
}

impl BlobView {
    /// Every length and size fits the field that the container has for it.
    pub open spec fn encodable(self) -> bool {
        &&& self.metadata.len() <= u32::MAX
        &&& self.ro_data.len() < 0x100_0000
        &&& self.rw_data.len() < 0x100_0000
        &&& self.stack_size < 0x100_0000
        &&& self.code_blob.len() <= u32::MAX
    }

    /// The program that this blob holds.
    pub open spec fn parts(self) -> ProgramPartsView {
        ProgramPartsView {
            ro_data_size: self.ro_data.len() as u32,
            rw_data_size: (page_round_up(self.rw_data.len()) + self.rw_data_padding_pages as nat
                * 4096) as u32,
            stack_size: self.stack_size,
            ro_data: self.ro_data,
            rw_data: self.rw_data,
            code_and_jump_table: self.code_blob,
        }
    }

    /// The eleven bytes between the metadata and the sections: both section
    /// lengths, the padding pages and the stack size.
    pub open spec fn header(self) -> Seq<u8> {
        le_bytes(self.ro_data.len(), 3) + le_bytes(self.rw_data.len(), 3) + le_bytes(
            self.rw_data_padding_pages as nat,
            2,
        ) + le_bytes(self.stack_size as nat, 3)
    }

    /// The bytes of the blob.
    pub open spec fn layout(self) -> Seq<u8> {
        length_prefix(self.metadata.len() as u32) + self.metadata + self.header() + self.ro_data
            + self.rw_data + le_bytes(self.code_blob.len(), 4) + self.code_blob
    }
}

/// The blob that `bytes` spell, if they spell one.
pub open spec fn parse_blob(bytes: Seq<u8>) -> Option<BlobView> {
    match read_length_prefix(bytes) {
        None => None,
        Some((metadata_len, prefix_len)) => {
            let header_at = prefix_len as int + metadata_len as int;
            if bytes.len() < header_at + 11 {
                None
            } else {
                let ro_len = le_value(bytes.subrange(header_at, header_at + 3)) as int;
                let rw_len = le_value(bytes.subrange(header_at + 3, header_at + 6)) as int;
                let pages = le_value(bytes.subrange(header_at + 6, header_at + 8));
                let stack = le_value(bytes.subrange(header_at + 8, header_at + 11));
                let ro_at = header_at + 11;
                let rw_at = ro_at + ro_len;
                let code_len_at = rw_at + rw_len;
                if bytes.len() < code_len_at + 4 {
                    None
                } else {
                    let code_len = le_value(bytes.subrange(code_len_at, code_len_at + 4)) as int;
                    if bytes.len() != code_len_at + 4 + code_len {
                        None
                    } else {
                        Some(
                            BlobView {
                                metadata: bytes.subrange(prefix_len as int, header_at),
                                ro_data: bytes.subrange(ro_at, rw_at),
                                rw_data: bytes.subrange(rw_at, code_len_at),
                                code_blob: bytes.subrange(code_len_at + 4, bytes.len() as int),
                                rw_data_padding_pages: pages as u16,
                                stack_size: stack as u32,
                            },
                        )
                    }
                }
            }
        },
    }
}

/// Calls `ProgramBlob::to_vec` of `jam_program_blob_common` on a blob with
/// these fields. It writes the length of the metadata as a compact integer of
/// `jam_codec`, which `length_prefix` spells out, and the metadata; the two
/// section lengths in three bytes each, the padding pages in two, the stack
/// size in three, all least significant byte first; the two sections; the
/// length of the code in four bytes and the code. It refuses a blob with a
/// field too large for its place, and no other.
#[verifier::external_body]
fn blob_to_vec(blob: &Blob) -> (r: Option<Vec<u8>>)
    ensures
        r is Some <==> blob@.encodable(),
        r is Some ==> r->0@ == blob@.layout(),
{
    let outside = JamBlob {
        metadata: Cow::Borrowed(blob.metadata.as_slice()),
        ro_data: Cow::Borrowed(blob.ro_data.as_slice()),
        rw_data: Cow::Borrowed(blob.rw_data.as_slice()),
        code_blob: Cow::Borrowed(blob.code_blob.as_slice()),
        rw_data_padding_pages: blob.rw_data_padding_pages,
        stack_size: blob.stack_size,
    };
    outside.to_vec().ok()
}

/// Calls `ProgramBlob::from_bytes` of `jam_program_blob_common`. It reads the
/// fields in the order in which `to_vec` writes them, and refuses bytes that
/// end before a field does or go on after the code. The length of the metadata
/// it reads as `jam_codec` reads a compact integer, which `read_length_prefix`
/// spells out: in any of its spellings, not only the shortest.
#[verifier::external_body]
fn blob_from_bytes(bytes: &[u8]) -> (r: Option<Blob>)
    ensures
        match r {
            Some(blob) => parse_blob(bytes@) == Some(blob@),
            None => parse_blob(bytes@) is None,
        },
{
    match JamBlob::from_bytes(bytes) {
        Some(outside) => Some(
            Blob {
                metadata: outside.metadata.into_owned(),
                ro_data: outside.ro_data.into_owned(),
                rw_data: outside.rw_data.into_owned(),
                code_blob: outside.code_blob.into_owned(),
                rw_data_padding_pages: outside.rw_data_padding_pages,
                stack_size: outside.stack_size,
            },
        ),
        None => None,
    }
}

/// Calls `ProgramBlob::from_pvm` of `jam_program_blob_common` on a program
/// with these parts. It writes the read-only section out to its declared size
/// and counts the pages of the read-write section beyond its contents; the
/// other fields it hands on. It stops the process where that count is negative
/// or does not fit sixteen bits, which `requires` leaves out.
#[verifier::external_body]
fn blob_from_pvm(parts: &ProgramParts, metadata: &[u8]) -> (r: Blob)
    requires
        parts@.packable(),
        parts.rw_data@.len() + 4095 <= usize::MAX,
        parts.rw_data_size + 4095 <= usize::MAX,
    ensures
        r@ == parts@.pack(metadata@),
{
    let mut p = PvmParts::empty(InstructionSetKind::JamV1);
    p.ro_data_size = parts.ro_data_size;
    p.rw_data_size = parts.rw_data_size;
    p.stack_size = parts.stack_size;
    p.ro_data = parts.ro_data.as_slice().into();
    p.rw_data = parts.rw_data.as_slice().into();
    p.code_and_jump_table = parts.code_and_jump_table.as_slice().into();
    let b = JamBlob::from_pvm(&p, Cow::Borrowed(metadata));
    Blob {
        metadata: b.metadata.into_owned(), ro_data: b.ro_data.into_owned(),
        rw_data: b.rw_data.into_owned(), code_blob: b.code_blob.into_owned(),
        rw_data_padding_pages: b.rw_data_padding_pages, stack_size: b.stack_size,
    }
}

/// What `encode` returns for a program and its metadata.
pub open spec fn encode_spec(parts: ProgramPartsView, metadata: Seq<u8>) -> Result<
    Seq<u8>,
    FormatError,
> {
    if !parts.fits(metadata) {
        Err(FormatError::SectionTooLarge)
    } else if !parts.packable() {
        Err(FormatError::BadDataSize)
    } else {
        Ok(parts.pack(metadata).layout())
    }
}

/// What `decode` returns for the bytes of a blob.
pub open spec fn decode_spec(bytes: Seq<u8>) -> Result<(ProgramPartsView, Seq<u8>), FormatError> {
    match parse_blob(bytes) {
        Some(blob) => Ok((blob.parts(), blob.metadata)),
        None => Err(FormatError::MalformedBlob),
    }
}

impl Blob {
    /// The bytes of this blob, or `SectionTooLarge` where a field does not
    /// fit its place in the container.
    pub fn to_vec(&self) -> (r: Result<Vec<u8>, FormatError>)
        ensures
            match r {
                Ok(bytes) => self@.encodable() && bytes@ == self@.layout(),
                Err(e) => !self@.encodable() && e == FormatError::SectionTooLarge,
            },
    {
        match blob_to_vec(self) {
            Some(bytes) => Ok(bytes),
            None => Err(FormatError::SectionTooLarge),
        }
    }

    /// The blob that `bytes` spell, or `MalformedBlob`.
    pub fn from_bytes(bytes: &[u8]) -> (r: Result<Blob, FormatError>)
        ensures
            match r {
                Ok(blob) => parse_blob(bytes@) == Some(blob@),
                Err(e) => parse_blob(bytes@) is None && e == FormatError::MalformedBlob,
            },
    {
        match blob_from_bytes(bytes) {
            Some(blob) => Ok(blob),
            None => Err(FormatError::MalformedBlob),
        }
    }

    /// The program that this blob holds and its metadata, or
    /// `SectionTooLarge` where a field is larger than a container could have
    /// held.
    pub fn into_parts(self) -> (r: Result<(ProgramParts, Vec<u8>), FormatError>)
        ensures
            match r {
                Ok((parts, metadata)) => self@.encodable() && parts@ == self@.parts()
                    && metadata@ == self@.metadata,
                Err(e) => !self@.encodable() && e == FormatError::SectionTooLarge,
            },
    {
        if self.metadata.len() > u32::MAX as usize || self.ro_data.len() >= 0x100_0000
            || self.rw_data.len() >= 0x100_0000 || self.stack_size >= 0x100_0000
            || self.code_blob.len() > u32::MAX as usize {
            return Err(FormatError::SectionTooLarge);
        }
        let ro_data_size = self.ro_data.len() as u32;
        let initial_pages: u32 = (self.rw_data.len() as u32 + 4095) / 4096;
        let rw_data_size: u32 = initial_pages * 4096 + self.rw_data_padding_pages as u32 * 4096;
        Ok(
            (
                ProgramParts {
                    ro_data_size,
                    rw_data_size,
                    stack_size: self.stack_size,
                    ro_data: self.ro_data,
                    rw_data: self.rw_data,
                    code_and_jump_table: self.code_blob,
                },
                self.metadata,
            ),
        )
    }
}

/// The parts of the program that `program` spells, or why it spells none:
/// what `ProgramParts::from_bytes` of `polkavm_common` makes of these bytes.
pub uninterp spec fn program_parts_of(program: Seq<u8>) -> Result<ProgramPartsView, Seq<char>>;

/// Calls `ProgramParts::from_bytes` of `polkavm_common` on the bytes of a
/// program, and keeps the sizes, the two data sections and the code of what
/// it returns. Nothing is stated of the result but that it is a function of
/// the bytes.
#[verifier::external_body]
fn parts_from_bytes(program: &[u8]) -> (r: Result<ProgramParts, String>)
    ensures
        match r {
            Ok(parts) => program_parts_of(program@) == Ok::<ProgramPartsView, Seq<char>>(parts@),
            Err(why) => program_parts_of(program@) == Err::<ProgramPartsView, Seq<char>>(why@),
        },
{
    match PvmParts::from_bytes(program.into()) {
        Ok(p) => Ok(ProgramParts {
            ro_data_size: p.ro_data_size, rw_data_size: p.rw_data_size,
            stack_size: p.stack_size, ro_data: p.ro_data.to_vec(),
            rw_data: p.rw_data.to_vec(),
            code_and_jump_table: p.code_and_jump_table.to_vec(),
        }),
        Err(error) => Err(error.to_string()),
    }
}

/// Whether `r` is what packing the program of `parts` comes to, where `parts`
/// is what the program's reader made of the transformer's output.
pub open spec fn packs_to(
    parts: Result<ProgramPartsView, Seq<char>>,
    metadata: Seq<u8>,
    r: Result<Vec<u8>, FormatError>,
) -> bool {
    match parts {
        Err(why) => r matches Err(FormatError::MalformedProgram(text)) && text@ == why,
        Ok(parts) => match r {
            Ok(bytes) => encode_spec(parts, metadata) == Ok::<Seq<u8>, FormatError>(bytes@),
            Err(e) => encode_spec(parts, metadata) == Err::<Seq<u8>, FormatError>(e),
        },
    }
}

/// Packs the program that `parts` holds, or hands on why there is none.
pub fn encode_parsed(parts: Result<ProgramParts, String>, metadata: &[u8]) -> (r: Result<
    Vec<u8>,
    FormatError,
>)
    ensures
        packs_to(
            match parts {
                Ok(parts) => Ok(parts@),
                Err(why) => Err(why@),
            },
            metadata@,
            r,
        ),
{
    match parts {
        Ok(parts) => encode(&parts, metadata),
        Err(why) => Err(FormatError::MalformedProgram(why)),
    }
}

/// Packs the output of the transformer and its metadata into the bytes of a
/// blob: reads the program's parts, then packs them as `encode` does.
pub fn encode_program(program: &[u8], metadata: &[u8]) -> (r: Result<Vec<u8>, FormatError>)
    ensures
        packs_to(program_parts_of(program@), metadata@, r),
{
    encode_parsed(parts_from_bytes(program), metadata)
}

/// Packs a program and its metadata into the bytes of a blob.
///
/// Fails with `SectionTooLarge` where a section, the stack size or the
/// metadata does not fit its field, and with `BadDataSize` where the declared
/// size of the read-write section is below its contents or too far above them.
pub fn encode(parts: &ProgramParts, metadata: &[u8]) -> (r: Result<Vec<u8>, FormatError>)
    ensures
        match r {
            Ok(bytes) => encode_spec(parts@, metadata@) == Ok::<Seq<u8>, FormatError>(bytes@),
            Err(e) => encode_spec(parts@, metadata@) == Err::<Seq<u8>, FormatError>(e),
        },
{
    if metadata.len() > u32::MAX as usize || parts.ro_data_size >= 0x100_0000
        || parts.rw_data.len() >= 0x100_0000 || parts.stack_size >= 0x100_0000
        || parts.code_and_jump_table.len() > u32::MAX as usize {
        return Err(FormatError::SectionTooLarge);
    }
    let declared_pages: u64 = (parts.rw_data_size as u64 + 4095) / 4096;
    let initial_pages: u64 = (parts.rw_data.len() as u64 + 4095) / 4096;
    if declared_pages < initial_pages || declared_pages - initial_pages > 65535 {
        return Err(FormatError::BadDataSize);
    }
    let blob = blob_from_pvm(parts, metadata);
    match blob_to_vec(&blob) {
        Some(bytes) => Ok(bytes),
        None => Err(FormatError::SectionTooLarge),
    }
}

/// Unpacks the bytes of a blob into the program and the metadata that it
/// holds. Fails with `MalformedBlob` on anything that is no blob.
pub fn decode(bytes: &[u8]) -> (r: Result<(ProgramParts, Vec<u8>), FormatError>)
    ensures
        match r {
            Ok((parts, metadata)) => decode_spec(bytes@) == Ok::<
                (ProgramPartsView, Seq<u8>),
                FormatError,
            >((parts@, metadata@)),
            Err(e) => decode_spec(bytes@) == Err::<(ProgramPartsView, Seq<u8>), FormatError>(e),
        },
{
    match blob_from_bytes(bytes) {
        Some(blob) => {
            proof {
                lemma_parsed_blob_encodable(bytes@);
            }
            blob.into_parts()
        },
        None => Err(FormatError::MalformedBlob),
    }
}

/// No two blobs have the same bytes.
pub proof fn lemma_layout_injective(first: BlobView, second: BlobView)
    requires
        first.encodable(),
        second.encodable(),
        first.layout() == second.layout(),
    ensures
        first == second,
{
    lemma_blob_roundtrip(first);
    lemma_blob_roundtrip(second);
}

/// Every field of a blob that was read fits its place: a blob that was read
/// can be written again.
pub proof fn lemma_parsed_blob_encodable(bytes: Seq<u8>)
    requires
        parse_blob(bytes) is Some,
    ensures
        parse_blob(bytes)->0.encodable(),
{
    let (metadata_len, prefix_len) = read_length_prefix(bytes)->0;
    let header_at = prefix_len as int + metadata_len as int;
    lemma_radix_values();
    lemma_le_value_bound(bytes.subrange(header_at, header_at + 3));
    lemma_le_value_bound(bytes.subrange(header_at + 3, header_at + 6));
    lemma_le_value_bound(bytes.subrange(header_at + 6, header_at + 8));
    lemma_le_value_bound(bytes.subrange(header_at + 8, header_at + 11));
    let code_len_at = header_at + 11 + le_value(bytes.subrange(header_at, header_at + 3))
        + le_value(bytes.subrange(header_at + 3, header_at + 6));
    lemma_le_value_bound(bytes.subrange(code_len_at, code_len_at + 4));
}

/// Where the fields of a blob lie in its bytes.
proof fn lemma_layout_fields(blob: BlobView)
    requires
        blob.encodable(),
    ensures
        ({
            let bytes = blob.layout();
            let prefix_len = length_prefix(blob.metadata.len() as u32).len() as int;
            let header_at = prefix_len + blob.metadata.len();
            let ro_at = header_at + 11;
            let rw_at = ro_at + blob.ro_data.len();
            let code_len_at = rw_at + blob.rw_data.len();
            &&& bytes.len() == code_len_at + 4 + blob.code_blob.len()
            &&& bytes.subrange(0, prefix_len) == length_prefix(blob.metadata.len() as u32)
            &&& bytes.subrange(prefix_len, header_at) == blob.metadata
            &&& bytes.subrange(header_at, header_at + 3) == le_bytes(blob.ro_data.len(), 3)
            &&& bytes.subrange(header_at + 3, header_at + 6) == le_bytes(blob.rw_data.len(), 3)
            &&& bytes.subrange(header_at + 6, header_at + 8) == le_bytes(
                blob.rw_data_padding_pages as nat,
                2,
            )
            &&& bytes.subrange(header_at + 8, header_at + 11) == le_bytes(
                blob.stack_size as nat,
                3,
            )
            &&& bytes.subrange(ro_at, rw_at) == blob.ro_data
            &&& bytes.subrange(rw_at, code_len_at) == blob.rw_data
            &&& bytes.subrange(code_len_at, code_len_at + 4) == le_bytes(blob.code_blob.len(), 4)
            &&& bytes.subrange(code_len_at + 4, bytes.len() as int) == blob.code_blob
        }),
{
    lemma_length_prefix_len(blob.metadata.len() as u32);
    lemma_le_bytes_len(blob.ro_data.len(), 3);
    lemma_le_bytes_len(blob.rw_data.len(), 3);
    lemma_le_bytes_len(blob.rw_data_padding_pages as nat, 2);
    lemma_le_bytes_len(blob.stack_size as nat, 3);
    lemma_le_bytes_len(blob.code_blob.len(), 4);
    let bytes = blob.layout();
    let prefix_len = length_prefix(blob.metadata.len() as u32).len() as int;
    let header_at = prefix_len + blob.metadata.len();
    let ro_at = header_at + 11;
    let rw_at = ro_at + blob.ro_data.len();
    let code_len_at = rw_at + blob.rw_data.len();
    assert(bytes.subrange(0, prefix_len) =~= length_prefix(blob.metadata.len() as u32));
    assert(bytes.subrange(prefix_len, header_at) =~= blob.metadata);
    assert(bytes.subrange(header_at, header_at + 3) =~= le_bytes(blob.ro_data.len(), 3));
    assert(bytes.subrange(header_at + 3, header_at + 6) =~= le_bytes(blob.rw_data.len(), 3));
    assert(bytes.subrange(header_at + 6, header_at + 8) =~= le_bytes(
        blob.rw_data_padding_pages as nat,
        2,
    ));
    assert(bytes.subrange(header_at + 8, header_at + 11) =~= le_bytes(blob.stack_size as nat, 3));
    assert(bytes.subrange(ro_at, rw_at) =~= blob.ro_data);
    assert(bytes.subrange(rw_at, code_len_at) =~= blob.rw_data);
    assert(bytes.subrange(code_len_at, code_len_at + 4) =~= le_bytes(blob.code_blob.len(), 4));
    assert(bytes.subrange(code_len_at + 4, bytes.len() as int) =~= blob.code_blob);
}

/// Reading undoes writing: the bytes of a blob that can be written spell that
/// blob and no other, whatever its metadata holds.
pub proof fn lemma_blob_roundtrip(blob: BlobView)
    requires
        blob.encodable(),
    ensures
        parse_blob(blob.layout()) == Some(blob),
{
    let metadata_len = blob.metadata.len() as u32;
    let prefix = length_prefix(metadata_len);
    let bytes = blob.layout();
    lemma_layout_fields(blob);
    assert(read_length_prefix(bytes) == Some((metadata_len, prefix.len()))) by {
        let rest = bytes.subrange(prefix.len() as int, bytes.len() as int);
        assert(bytes =~= prefix + rest);
        lemma_read_length_prefix(metadata_len, rest);
    }
    lemma_radix_values();
    lemma_le_roundtrip(blob.ro_data.len(), 3);
    lemma_le_roundtrip(blob.rw_data.len(), 3);
    lemma_le_roundtrip(blob.rw_data_padding_pages as nat, 2);
    lemma_le_roundtrip(blob.stack_size as nat, 3);
    lemma_le_roundtrip(blob.code_blob.len(), 4);
}

/// What a container keeps of a program is the program itself where nothing
/// was left for the container to fill in.
pub proof fn lemma_normalized_canonical(parts: ProgramPartsView)
    requires
        parts.canonical(),
    ensures
        parts.normalized() == parts,
{
    assert(zero_padded(parts.ro_data, parts.ro_data_size as nat) =~= parts.ro_data);
}

/// Unpacking undoes packing. The blob of a program and its metadata, where
/// there is one, unpacks to the same metadata, empty or not, and to the
/// program as the container keeps it; that is the program itself where it is
/// canonical.
pub proof fn lemma_decode_encode(parts: ProgramPartsView, metadata: Seq<u8>)
    requires
        encode_spec(parts, metadata) is Ok,
    ensures
        decode_spec(encode_spec(parts, metadata)->Ok_0) == Ok::<
            (ProgramPartsView, Seq<u8>),
            FormatError,
        >((parts.normalized(), metadata)),
        parts.canonical() ==> decode_spec(encode_spec(parts, metadata)->Ok_0) == Ok::<
            (ProgramPartsView, Seq<u8>),
            FormatError,
        >((parts, metadata)),
{
    lemma_pack_keeps_program(parts, metadata);
    lemma_blob_roundtrip(parts.pack(metadata));
    if parts.canonical() {
        lemma_normalized_canonical(parts);
    }
}

/// A program that fits a container is kept by its blob in normal form.
pub proof fn lemma_pack_keeps_program(parts: ProgramPartsView, metadata: Seq<u8>)
    requires
        parts.fits(metadata),
        parts.packable(),
    ensures
        parts.pack(metadata).encodable(),
        parts.pack(metadata).parts() == parts.normalized(),
        parts.pack(metadata).metadata == metadata,
{
    let declared = (parts.rw_data_size as nat + 4095) / 4096;
    let initial = (parts.rw_data.len() + 4095) / 4096;
    assert(page_round_up(parts.rw_data_size as nat) == declared * 4096);
    assert(page_round_up(parts.rw_data.len()) == initial * 4096);
    assert(parts.padding_pages() == declared - initial);
    assert(initial * 4096 + (declared - initial) * 4096 == declared * 4096);
    assert(declared * 4096 <= u32::MAX);
}

} // verus!
