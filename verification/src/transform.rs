//! The step from a linked image to a program: the fixed dispatch table, and
//! what the transformer is asked for. The transformer itself is called by
//! whoever drives the build.

use vstd::prelude::*;

verus! {

/// The names that a guest exports to its host, in the order of their
/// dispatch indices.
pub open spec fn export_names() -> Seq<Seq<char>> {
    seq!["refine_ext"@, "accumulate_ext"@, "on_transfer_ext"@]
}

/// The bytes of a text of ASCII characters.
pub open spec fn ascii_bytes(text: Seq<char>) -> Seq<u8> {
    Seq::new(text.len(), |i: int| text[i] as u8)
}

/// The symbols of the dispatch table: the export names as bytes, in their
/// order.
pub open spec fn dispatch_symbols() -> Seq<Seq<u8>> {
    Seq::new(3, |i: int| ascii_bytes(export_names()[i]))
}

/// The contents of a list of byte strings.
pub open spec fn byte_strings(list: Seq<Vec<u8>>) -> Seq<Seq<u8>> {
    Seq::new(list.len(), |i: int| list[i]@)
}

/// The dispatch table that the transformer is given. Its entries are
/// constants of the pipeline: whatever a guest exports, the table holds the
/// three export names, in their order, and nothing else.
pub struct DispatchTable {
    symbols: Vec<Vec<u8>>,
}

impl View for DispatchTable {
    type V = Seq<Seq<u8>>;

    closed spec fn view(&self) -> Seq<Seq<u8>> {
        byte_strings(self.symbols@)
    }
}

/// The bytes of an export name.
fn symbol_bytes(name: &str) -> (bytes: Vec<u8>)
    requires
        name.is_ascii(),
    ensures
        bytes@ == ascii_bytes(name@),
{
    broadcast use vstd::string::is_ascii_spec_bytes;

    name.as_bytes_vec()
}

/// Whether two byte strings are the same.
fn same_bytes(a: &[u8], b: &[u8]) -> (r: bool)
    ensures
        r == (a@ == b@),
{
    if a.len() != b.len() {
        return false;
    }
    let mut i: usize = 0;
    while i < a.len()
        invariant
            a.len() == b.len(),
            i <= a.len(),
            a@.subrange(0, i as int) == b@.subrange(0, i as int),
        decreases a.len() - i,
    {
        if a[i] != b[i] {
            assert(a@[i as int] != b@[i as int]);
            return false;
        }
        assert(a@.subrange(0, i + 1) =~= a@.subrange(0, i as int).push(a@[i as int]));
        assert(b@.subrange(0, i + 1) =~= b@.subrange(0, i as int).push(b@[i as int]));
        i += 1;
    }
    assert(a@ =~= a@.subrange(0, a.len() as int));
    assert(b@ =~= b@.subrange(0, b.len() as int));
    true
}

impl DispatchTable {
    #[verifier::type_invariant]
    spec fn fixed(self) -> bool {
        byte_strings(self.symbols@) == dispatch_symbols()
    }

    /// The dispatch table.
    pub fn new() -> (table: DispatchTable)
        ensures
            table@ == dispatch_symbols(),
    {
        proof {
            reveal_strlit("refine_ext");
            reveal_strlit("accumulate_ext");
            reveal_strlit("on_transfer_ext");
        }
        let mut symbols: Vec<Vec<u8>> = Vec::new();
        symbols.push(symbol_bytes("refine_ext"));
        symbols.push(symbol_bytes("accumulate_ext"));
        symbols.push(symbol_bytes("on_transfer_ext"));
        assert(byte_strings(symbols@) =~= dispatch_symbols());
        DispatchTable { symbols }
    }

    /// The number of entries: three.
    pub fn len(&self) -> (n: usize)
        ensures
            n == 3,
            self@ == dispatch_symbols(),
    {
        proof {
            use_type_invariant(self);
        }
        self.symbols.len()
    }

    /// The symbol with dispatch index `index`.
    pub fn symbol(&self, index: usize) -> (symbol: &Vec<u8>)
        requires
            index < 3,
        ensures
            symbol@ == dispatch_symbols()[index as int],
    {
        proof {
            use_type_invariant(self);
            assert(byte_strings(self.symbols@).len() == 3);
            assert(byte_strings(self.symbols@)[index as int] == self.symbols@[index as int]@);
        }
        &self.symbols[index]
    }

    /// The dispatch index of `symbol`: its place among the export names, or
    /// `None` for any other symbol.
    pub fn index_of(&self, symbol: &[u8]) -> (r: Option<usize>)
        ensures
            match r {
                Some(index) => index < 3 && dispatch_symbols()[index as int] == symbol@,
                None => forall|i: int| 0 <= i < 3 ==> dispatch_symbols()[i] != symbol@,
            },
    {
        proof {
            use_type_invariant(self);
        }
        let mut i: usize = 0;
        while i < 3
            invariant
                i <= 3,
                byte_strings(self.symbols@) == dispatch_symbols(),
                forall|j: int| 0 <= j < i ==> dispatch_symbols()[j] != symbol@,
            decreases 3 - i,
        {
            assert(byte_strings(self.symbols@).len() == 3);
            assert(byte_strings(self.symbols@)[i as int] == self.symbols@[i as int]@);
            if same_bytes(self.symbols[i].as_slice(), symbol) {
                return Some(i);
            }
            i += 1;
        }
        None
    }

    /// The symbols, in the order of their dispatch indices.
    pub fn into_symbols(self) -> (symbols: Vec<Vec<u8>>)
        ensures
            byte_strings(symbols@) == dispatch_symbols(),
    {
        proof {
            use_type_invariant(&self);
        }
        self.symbols
    }
}

/// The dispatch table is closed: it has three symbols, they are the bytes of
/// the three export names, and no two of them are the same, so each has one
/// dispatch index.
pub proof fn lemma_dispatch_symbols()
    ensures
        dispatch_symbols().len() == 3,
        dispatch_symbols()[0] == ascii_bytes("refine_ext"@),
        dispatch_symbols()[1] == ascii_bytes("accumulate_ext"@),
        dispatch_symbols()[2] == ascii_bytes("on_transfer_ext"@),
        forall|i: int, j: int|
            0 <= i < j < 3 ==> #[trigger] dispatch_symbols()[i] != #[trigger] dispatch_symbols()[j],
{
    reveal_strlit("refine_ext");
    reveal_strlit("accumulate_ext");
    reveal_strlit("on_transfer_ext");
    assert(dispatch_symbols()[0].len() == 10);
    assert(dispatch_symbols()[1].len() == 14);
    assert(dispatch_symbols()[2].len() == 15);
}

/// The instruction sets that the transformer can lay a program out for.
#[derive(Copy, Clone, PartialEq, Eq, Debug, Structural)]
pub enum InstructionSet {
    ReviveV1,
    JamV1,
    Latest,
}

/// What the transformer is asked for, beside the linked image.
#[derive(Debug, PartialEq, Eq)]
pub struct TransformRequest {
    pub instruction_set: InstructionSet,
    /// The symbols of the dispatch table, in the order of their indices.
    pub dispatch_table: Vec<Vec<u8>>,
    /// Whether debug information is left out of the program.
    pub strip: bool,
}

/// What the transformer is asked for, as mathematical values.
pub struct TransformRequestView {
    pub instruction_set: InstructionSet,
    pub dispatch_table: Seq<Seq<u8>>,
    pub strip: bool,
}

impl View for TransformRequest {
    type V = TransformRequestView;

    open spec fn view(&self) -> TransformRequestView {
        TransformRequestView {
            instruction_set: self.instruction_set,
            dispatch_table: byte_strings(self.dispatch_table@),
            strip: self.strip,
        }
    }
}

/// What every build asks of the transformer: a program of the JAM
/// instruction set with the fixed dispatch table, whatever the guest exports,
/// with debug information stripped or kept.
pub open spec fn request_for(strip: bool) -> TransformRequestView {
    TransformRequestView {
        instruction_set: InstructionSet::JamV1,
        dispatch_table: dispatch_symbols(),
        strip,
    }
}

/// What a build asks of the transformer, with debug information stripped or
/// kept.
pub fn transform_request(strip: bool) -> (request: TransformRequest)
    ensures
        request@ == request_for(strip),
{
    TransformRequest {
        instruction_set: InstructionSet::JamV1,
        dispatch_table: DispatchTable::new().into_symbols(),
        strip,
    }
}

} // verus!
