use gimli::{EndianSlice, LittleEndian, RawRngListEntry};
use vstd::prelude::*;

use crate::error::DebuggerError;

verus! {

/// The little-endian `u32` at `pos` of `s`.
pub open spec fn spec_u32_le_at(s: Seq<u8>, pos: int) -> u64 {
    (s[pos] as int + 0x100 * (s[pos + 1] as int) + 0x10000 * (s[pos + 2] as int) + 0x1000000 * (s[
        pos + 3
    ] as int)) as u64
}

/// An entry of a DWARF 4 range list.
#[derive(Debug, Clone, Copy, PartialEq, Eq, Structural)]
pub enum RangeEntry {
    /// A new base address for the entries after it.
    BaseAddress { addr: u64 },
    /// A range, relative to the base address.
    AddressOrOffsetPair { begin: u64, end: u64 },
    /// A form of DWARF 5 range lists, which a DWARF 4 list does not hold.
    Other,
}

/// What reading one entry from the bytes `input` of a DWARF 4 range list
/// with 4-byte addresses gives (`Err` for a failure), and the bytes left.
/// Two addresses are read; two zeros end the list, a first address of all
/// ones sets the base address.
pub open spec fn spec_next_range(input: Seq<u8>) -> (Result<Option<RangeEntry>, ()>, Seq<u8>) {
    if input.len() == 0 {
        (Ok(None), input)
    } else if input.len() < 8 {
        (Err(()), Seq::empty())
    } else {
        let begin = spec_u32_le_at(input, 0);
        let end = spec_u32_le_at(input, 4);
        if begin == 0 && end == 0 {
            (Ok(None), Seq::empty())
        } else if begin == 0xffff_ffff {
            (Ok(Some(RangeEntry::BaseAddress { addr: end })), input.skip(8))
        } else {
            (Ok(Some(RangeEntry::AddressOrOffsetPair { begin, end })), input.skip(8))
        }
    }
}

/// The entries of the DWARF 4 range list that `input` starts with, or
/// `Err` where the bytes end in the middle of an entry.
pub open spec fn spec_debug_ranges(input: Seq<u8>) -> Result<Seq<RangeEntry>, ()>
    decreases input.len(),
{
    match spec_next_range(input).0 {
        Err(()) => Err(()),
        Ok(None) => Ok(Seq::empty()),
        Ok(Some(e)) => if spec_next_range(input).1.len() < input.len() {
            match spec_debug_ranges(spec_next_range(input).1) {
                Ok(rest) => Ok(seq![e] + rest),
                Err(()) => Err(()),
            }
        } else {
            Err(())
        },
    }
}

/// The iterator that `gimli::RangeLists::raw_ranges` gives over a
/// `.debug_ranges` section.
#[verifier::external_body]
pub struct RawRanges<'a> {
    iter: gimli::RawRngListIter<EndianSlice<'a, LittleEndian>>,
}

/// The bytes that `r` has still to read.
pub uninterp spec fn spec_raw_ranges_input(r: RawRanges) -> Seq<u8>;

/// `gimli::RangeLists::raw_ranges` at offset 0 of a `.debug_ranges`
/// section, for DWARF 4 units with 4-byte addresses: skipping no bytes
/// cannot fail, and the iterator starts with all the bytes to read.
#[verifier::external_body]
fn raw_ranges<'a>(data: &'a [u8]) -> (r: Result<RawRanges<'a>, gimli::Error>)
    ensures
        r is Ok,
        r matches Ok(it) ==> spec_raw_ranges_input(it) == data@,
{
    let lists = gimli::RangeLists::new(
        gimli::DebugRanges::new(data, LittleEndian),
        gimli::DebugRngLists::new(&[], LittleEndian),
    );
    let encoding = gimli::Encoding { format: gimli::Format::Dwarf32, version: 4, address_size: 4 };
    lists.raw_ranges(gimli::RangeListsOffset(0), encoding).map(|iter| RawRanges { iter })
}

/// `gimli::RawRngListIter::next` on a DWARF 4 list with 4-byte addresses:
/// what it gives, and the bytes it leaves, are those of [`spec_next_range`].
#[verifier::external_body]
fn next_raw_range(it: &mut RawRanges) -> (r: Result<Option<RangeEntry>, gimli::Error>)
    ensures
        match (r, spec_next_range(spec_raw_ranges_input(*old(it))).0) {
            (Ok(x), Ok(y)) => x == y,
            (Err(_), Err(_)) => true,
            _ => false,
        },
        spec_raw_ranges_input(*final(it)) == spec_next_range(spec_raw_ranges_input(*old(it))).1,
{
    it.iter.next().map(|entry| entry.map(|e| match e {
        RawRngListEntry::BaseAddress { addr } => RangeEntry::BaseAddress { addr },
        RawRngListEntry::AddressOrOffsetPair { begin, end } => RangeEntry::AddressOrOffsetPair { begin, end },
        _ => RangeEntry::Other,
    }))
}

/// Reads the range list at the start of a `.debug_ranges` section (DWARF 4,
/// 4-byte addresses) up to its end-of-list entry or the end of the bytes.
pub fn parse_debug_ranges(data: &[u8]) -> (res: Result<Vec<RangeEntry>, DebuggerError>)
    ensures
        match (res, spec_debug_ranges(data@)) {
            (Ok(v), Ok(es)) => v@ == es,
            (Err(e), Err(())) => e is Gimli,
            _ => false,
        },
{
    let mut ranges = match raw_ranges(data) {
        Ok(it) => it,
        Err(e) => {
            return Err(DebuggerError::Gimli(e));
        },
    };
    let mut entries: Vec<RangeEntry> = Vec::new();
    loop
        invariant
            spec_debug_ranges(data@) == match spec_debug_ranges(spec_raw_ranges_input(ranges)) {
                Ok(rest) => Ok(entries@ + rest),
                Err(()) => Err(()),
            },
        decreases spec_raw_ranges_input(ranges).len(),
    {
        let ghost input = spec_raw_ranges_input(ranges);
        match next_raw_range(&mut ranges) {
            Ok(Some(range)) => {
                proof {
                    let rest = spec_raw_ranges_input(ranges);
                    assert(rest.len() < input.len());
                    if let Ok(tail) = spec_debug_ranges(rest) {
                        assert(entries@.push(range) + tail =~= entries@ + (seq![range] + tail));
                    }
                }
                entries.push(range);
            },
            Ok(None) => {
                assert(entries@ + Seq::<RangeEntry>::empty() =~= entries@);
                return Ok(entries);
            },
            Err(e) => {
                return Err(DebuggerError::Gimli(e));
            },
        }
    }
}

/// A range list is read eight bytes at a time, two little-endian
/// addresses per entry: no bytes give an empty list, fewer than eight an
/// error, two zeros end the list; a first address of all ones gives a new
/// base address, the second; any other pair gives a range from the first
/// address to the second. The list goes on with the bytes after the entry.
pub proof fn law_range_list_entry(input: Seq<u8>)
    ensures
        input.len() == 0 ==> spec_debug_ranges(input) == Ok::<Seq<RangeEntry>, ()>(Seq::empty()),
        0 < input.len() < 8 ==> spec_debug_ranges(input) is Err,
        input.len() >= 8 && spec_u32_le_at(input, 0) == 0 && spec_u32_le_at(input, 4) == 0
            ==> spec_debug_ranges(input) == Ok::<Seq<RangeEntry>, ()>(Seq::empty()),
        input.len() >= 8 && spec_u32_le_at(input, 0) == 0xffff_ffff ==> spec_debug_ranges(input)
            == match spec_debug_ranges(input.skip(8)) {
            Ok(rest) => Ok(seq![RangeEntry::BaseAddress { addr: spec_u32_le_at(input, 4) }] + rest),
            Err(()) => Err(()),
        },
        input.len() >= 8 && spec_u32_le_at(input, 0) != 0xffff_ffff && !(spec_u32_le_at(input, 0) == 0
            && spec_u32_le_at(input, 4) == 0) ==> spec_debug_ranges(input) == match spec_debug_ranges(
            input.skip(8),
        ) {
            Ok(rest) => Ok(
                seq![
                    RangeEntry::AddressOrOffsetPair {
                        begin: spec_u32_le_at(input, 0),
                        end: spec_u32_le_at(input, 4),
                    },
                ] + rest,
            ),
            Err(()) => Err(()),
        },
{
}

/// The address read at `pos` is the number whose four little-endian bytes
/// are those at `pos` to `pos + 3`.
pub proof fn law_u32_le_bytes(s: Seq<u8>, pos: int)
    ensures
        0 <= pos && pos + 4 <= s.len() ==> spec_u32_le_at(s, pos) % 256 == s[pos] && (spec_u32_le_at(
            s,
            pos,
        ) / 256) % 256 == s[pos + 1] && (spec_u32_le_at(s, pos) / 65536) % 256 == s[pos + 2]
            && spec_u32_le_at(s, pos) / 16777216 == s[pos + 3],
{
    if 0 <= pos && pos + 4 <= s.len() {
        let (b0, b1, b2, b3) = (s[pos] as int, s[pos + 1] as int, s[pos + 2] as int, s[pos + 3] as int);
        let v = b0 + 0x100 * b1 + 0x10000 * b2 + 0x1000000 * b3;
        assert(0 <= v < 0x1_0000_0000 && v % 256 == b0 && (v / 256) % 256 == b1 && (v / 65536) % 256
            == b2 && v / 16777216 == b3) by (nonlinear_arith)
            requires
                0 <= b0 < 256,
                0 <= b1 < 256,
                0 <= b2 < 256,
                0 <= b3 < 256,
                v == b0 + 0x100 * b1 + 0x10000 * b2 + 0x1000000 * b3,
        ;
        assert(spec_u32_le_at(s, pos) == v);
    }
}

} // verus!
