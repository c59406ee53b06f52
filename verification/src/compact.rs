//! Integer encodings of the program blob container: fixed-width little-endian
//! fields and the variable-length length prefix.

use vstd::prelude::*;

verus! {

/// `256^width`.
pub open spec fn radix(width: nat) -> nat
    decreases width,
{
    if width == 0 {
        1
    } else {
        256 * radix((width - 1) as nat)
    }
}

/// The number that `bytes` spells, least significant byte first.
pub open spec fn le_value(bytes: Seq<u8>) -> nat
    decreases bytes.len(),
{
    if bytes.len() == 0 {
        0
    } else {
        bytes[0] as nat + 256 * le_value(bytes.drop_first())
    }
}

/// The `width` low-order bytes of `value`, least significant byte first.
pub open spec fn le_bytes(value: nat, width: nat) -> Seq<u8>
    decreases width,
{
    if width == 0 {
        Seq::empty()
    } else {
        seq![(value % 256) as u8] + le_bytes(value / 256, (width - 1) as nat)
    }
}

/// How many bytes follow the first byte of the length prefix of `value`.
pub open spec fn prefix_extra(value: nat) -> nat {
    if value < 0x80 {
        0
    } else if value < 0x4000 {
        1
    } else if value < 0x20_0000 {
        2
    } else if value < 0x1000_0000 {
        3
    } else {
        4
    }
}

/// The first byte of a length prefix with `extra` following bytes, before the
/// high-order bits of the value are added to it: `extra` leading one bits.
pub open spec fn prefix_marker(extra: nat) -> nat {
    if extra == 0 {
        0
    } else if extra == 1 {
        0x80
    } else if extra == 2 {
        0xC0
    } else if extra == 3 {
        0xE0
    } else if extra == 4 {
        0xF0
    } else if extra == 5 {
        0xF8
    } else if extra == 6 {
        0xFC
    } else if extra == 7 {
        0xFE
    } else {
        0xFF
    }
}

/// The variable-length prefix that announces a length of `value` bytes.
pub open spec fn length_prefix(value: u32) -> Seq<u8> {
    let extra = prefix_extra(value as nat);
    seq![(prefix_marker(extra) + value as nat / radix(extra)) as u8] + le_bytes(
        value as nat % radix(extra),
        extra,
    )
}

/// How many bytes follow a prefix that starts with `first`: the number of
/// leading one bits of `first`.
pub open spec fn prefix_width(first: u8) -> nat {
    if first < 0x80 {
        0
    } else if first < 0xC0 {
        1
    } else if first < 0xE0 {
        2
    } else if first < 0xF0 {
        3
    } else if first < 0xF8 {
        4
    } else if first < 0xFC {
        5
    } else if first < 0xFE {
        6
    } else if first < 0xFF {
        7
    } else {
        8
    }
}

/// Reads a length prefix off the front of `bytes`: the length announced and
/// the number of bytes the prefix takes. A reader accepts every spelling of a
/// length that fits 32 bits, not only the shortest one.
pub open spec fn read_length_prefix(bytes: Seq<u8>) -> Option<(u32, nat)> {
    if bytes.len() == 0 {
        None
    } else {
        let extra = prefix_width(bytes[0]);
        if bytes.len() < 1 + extra {
            None
        } else {
            let high = (bytes[0] as nat - prefix_marker(extra)) as nat;
            let value = le_value(bytes.subrange(1, 1 + extra as int)) + high * radix(extra);
            if value <= u32::MAX {
                Some((value as u32, 1 + extra))
            } else {
                None
            }
        }
    }
}

pub proof fn lemma_radix_values()
    ensures
        radix(0) == 1,
        radix(1) == 0x100,
        radix(2) == 0x1_0000,
        radix(3) == 0x100_0000,
        radix(4) == 0x1_0000_0000,
{
    reveal_with_fuel(radix, 5);
}

/// A little-endian field has the width it was written with.
pub proof fn lemma_le_bytes_len(value: nat, width: nat)
    ensures
        le_bytes(value, width).len() == width,
    decreases width,
{
    if width > 0 {
        lemma_le_bytes_len(value / 256, (width - 1) as nat);
    }
}

/// Reading a little-endian field gives back the number written, as far as the
/// field is wide enough to hold it.
pub proof fn lemma_le_roundtrip(value: nat, width: nat)
    requires
        value < radix(width),
    ensures
        le_value(le_bytes(value, width)) == value,
    decreases width,
{
    if width > 0 {
        let rest = le_bytes(value / 256, (width - 1) as nat);
        let all = le_bytes(value, width);
        assert(all.drop_first() =~= rest);
        assert(value / 256 < radix((width - 1) as nat)) by (nonlinear_arith)
            requires
                value < 256 * radix((width - 1) as nat),
        ;
        lemma_le_roundtrip(value / 256, (width - 1) as nat);
        assert(value == value % 256 + 256 * (value / 256)) by (nonlinear_arith);
    }
}

/// A little-endian field never spells a number that its width cannot hold.
pub proof fn lemma_le_value_bound(bytes: Seq<u8>)
    ensures
        le_value(bytes) < radix(bytes.len()),
    decreases bytes.len(),
{
    if bytes.len() > 0 {
        lemma_le_value_bound(bytes.drop_first());
    }
}

/// The prefix of a length takes one byte and the bytes counted by
/// `prefix_extra`.
pub proof fn lemma_length_prefix_len(value: u32)
    ensures
        length_prefix(value).len() == 1 + prefix_extra(value as nat),
        1 <= length_prefix(value).len() <= 5,
{
    lemma_le_bytes_len(value as nat % radix(prefix_extra(value as nat)), prefix_extra(value as nat));
}

/// A reader that meets the prefix of `value`, whatever follows it, reads
/// `value` and stops where the prefix ends.
pub proof fn lemma_read_length_prefix(value: u32, rest: Seq<u8>)
    ensures
        read_length_prefix(length_prefix(value) + rest) == Some(
            (value, length_prefix(value).len()),
        ),
{
    let extra = prefix_extra(value as nat);
    let low = value as nat % radix(extra);
    let high = value as nat / radix(extra);
    let prefix = length_prefix(value);
    let bytes = prefix + rest;
    lemma_radix_values();
    lemma_length_prefix_len(value);
    lemma_le_bytes_len(low, extra);
    assert(high + prefix_marker(extra) < 256 && prefix_width((prefix_marker(extra) + high) as u8)
        == extra) by {
        if extra == 0 {
            assert(high == value as nat / 1);
        } else if extra == 1 {
            assert(high == value as nat / 0x100);
        } else if extra == 2 {
            assert(high == value as nat / 0x1_0000);
        } else if extra == 3 {
            assert(high == value as nat / 0x100_0000);
        } else {
            assert(high == value as nat / 0x1_0000_0000);
        }
    }
    assert(bytes[0] == prefix[0]);
    assert(bytes.subrange(1, 1 + extra as int) =~= le_bytes(low, extra));
    lemma_le_roundtrip(low, extra);
    assert(value as nat == low + high * radix(extra)) by (nonlinear_arith)
        requires
            low == value as nat % radix(extra),
            high == value as nat / radix(extra),
            radix(extra) > 0,
    ;
}

} // verus!
