use gimli::{EndianSlice, LittleEndian, RawLocListEntry};
use vstd::prelude::*;

use crate::custom_sections::DwarfSections;
use crate::debug_sections::debug_ranges::spec_u32_le_at;
use crate::error::DebuggerError;

verus! {

/// An entry of a DWARF 4 location list.
pub enum LocationEntry {
    /// A new base address for the entries after it.
    BaseAddress { addr: u64 },
    /// A range, relative to the base address, and the location expression
    /// that holds within it.
    AddressOrOffsetPair { begin: u64, end: u64, data: Vec<u8> },
    /// A form of DWARF 5 location lists, which a DWARF 4 list does not hold.
    Other,
}

/// The mathematical value of a [`LocationEntry`].
pub enum LocationEntryView {
    BaseAddress { addr: u64 },
    AddressOrOffsetPair { begin: u64, end: u64, data: Seq<u8> },
    Other,
}

impl View for LocationEntry {
    type V = LocationEntryView;

    open spec fn view(&self) -> LocationEntryView {
        match self {
            LocationEntry::BaseAddress { addr } => LocationEntryView::BaseAddress { addr: *addr },
            LocationEntry::AddressOrOffsetPair { begin, end, data } => LocationEntryView::AddressOrOffsetPair {
                begin: *begin,
                end: *end,
                data: data@,
            },
            LocationEntry::Other => LocationEntryView::Other,
        }
    }
}

/// The little-endian `u16` at `pos` of `s`.
pub open spec fn spec_u16_le_at(s: Seq<u8>, pos: int) -> int {
    s[pos] as int + 0x100 * (s[pos + 1] as int)
}

/// What reading one entry from the bytes `input` of a DWARF 4 location list
/// with 4-byte addresses gives (`Err` for a failure), and the bytes left.
/// Two addresses are read; two zeros end the list, a first address of all
/// ones sets the base address; any other pair is followed by a 2-byte length
/// and that many bytes of location expression.
pub open spec fn spec_next_location(input: Seq<u8>) -> (Result<Option<LocationEntryView>, ()>, Seq<u8>) {
    if input.len() == 0 {
        (Ok(None), input)
    } else if input.len() < 8 {
        (Err(()), Seq::empty())
    } else {
        let begin = spec_u32_le_at(input, 0);
        let end = spec_u32_le_at(input, 4);
        if begin == 0 && end == 0 {
            (Ok(None), Seq::empty())
        } else if begin == 0xffff_ffff {
            (Ok(Some(LocationEntryView::BaseAddress { addr: end })), input.skip(8))
        } else if input.len() < 10 || input.len() < 10 + spec_u16_le_at(input, 8) {
            (Err(()), Seq::empty())
        } else {
            let n = spec_u16_le_at(input, 8);
            (
                Ok(Some(LocationEntryView::AddressOrOffsetPair { begin, end, data: input.subrange(10, 10 + n) })),
                input.skip(10 + n),
            )
        }
    }
}

/// The entries of the DWARF 4 location list that `input` starts with, or
/// `Err` where the bytes end in the middle of an entry.
pub open spec fn spec_debug_loc(input: Seq<u8>) -> Result<Seq<LocationEntryView>, ()>
    decreases input.len(),
{
    match spec_next_location(input).0 {
        Err(()) => Err(()),
        Ok(None) => Ok(Seq::empty()),
        Ok(Some(e)) => if spec_next_location(input).1.len() < input.len() {
            match spec_debug_loc(spec_next_location(input).1) {
                Ok(rest) => Ok(seq![e] + rest),
                Err(()) => Err(()),
            }
        } else {
            Err(())
        },
    }
}

/// The iterator that `gimli::LocationLists::raw_locations` gives over a
/// `.debug_loc` section.
#[verifier::external_body]
pub struct RawLocations<'a> {
    iter: gimli::RawLocListIter<EndianSlice<'a, LittleEndian>>,
}

/// The bytes that `r` has still to read.
pub uninterp spec fn spec_raw_locations_input(r: RawLocations) -> Seq<u8>;

/// `gimli::LocationLists::raw_locations` at offset 0 of a `.debug_loc`
/// section, for DWARF 4 units with 4-byte addresses: skipping no bytes
/// cannot fail, and the iterator starts with all the bytes to read.
#[verifier::external_body]
fn raw_locations<'a>(data: &'a [u8]) -> (r: Result<RawLocations<'a>, gimli::Error>)
    ensures
        r is Ok,
        r matches Ok(it) ==> spec_raw_locations_input(it) == data@,
{
    let lists = gimli::LocationLists::new(
        gimli::DebugLoc::new(data, LittleEndian),
        gimli::DebugLocLists::new(&[], LittleEndian),
    );
    let encoding = gimli::Encoding { format: gimli::Format::Dwarf32, version: 4, address_size: 4 };
    lists.raw_locations(gimli::LocationListsOffset(0), encoding).map(|iter| RawLocations { iter })
}

/// `gimli::RawLocListIter::next` on a DWARF 4 list with 4-byte addresses:
/// what it gives, and the bytes it leaves, are those of [`spec_next_location`].
#[verifier::external_body]
fn next_raw_location(it: &mut RawLocations) -> (r: Result<Option<LocationEntry>, gimli::Error>)
    ensures
        match (r, spec_next_location(spec_raw_locations_input(*old(it))).0) {
            (Ok(Some(x)), Ok(Some(y))) => x@ == y,
            (Ok(None), Ok(None)) => true,
            (Err(_), Err(_)) => true,
            _ => false,
        },
        spec_raw_locations_input(*final(it)) == spec_next_location(spec_raw_locations_input(*old(it))).1,
{
    it.iter.next().map(|entry| entry.map(|e| match e {
        RawLocListEntry::BaseAddress { addr } => LocationEntry::BaseAddress { addr },
        RawLocListEntry::AddressOrOffsetPair { begin, end, data } => LocationEntry::AddressOrOffsetPair {
            begin, end, data: data.0.slice().to_vec(),
        },
        _ => LocationEntry::Other,
    }))
}

/// The views of a sequence of location entries.
pub open spec fn locations_view(v: Seq<LocationEntry>) -> Seq<LocationEntryView> {
    v.map_values(|e: LocationEntry| e@)
}

/// Reads the location list at the start of a `.debug_loc` section (DWARF 4,
/// 4-byte addresses) up to its end-of-list entry or the end of the bytes.
/// The other sections of `dwarf` are not read.
pub fn parse_debug_loc(data: &[u8], dwarf: &DwarfSections) -> (res: Result<Vec<LocationEntry>, DebuggerError>)
    ensures
        match (res, spec_debug_loc(data@)) {
            (Ok(v), Ok(es)) => locations_view(v@) == es,
            (Err(e), Err(())) => e is Gimli,
            _ => false,
        },
{
    let mut locations = match raw_locations(data) {
        Ok(it) => it,
        Err(e) => {
            return Err(DebuggerError::Gimli(e));
        },
    };
    let mut entries: Vec<LocationEntry> = Vec::new();
    loop
        invariant
            spec_debug_loc(data@) == match spec_debug_loc(spec_raw_locations_input(locations)) {
                Ok(rest) => Ok(locations_view(entries@) + rest),
                Err(()) => Err(()),
            },
        decreases spec_raw_locations_input(locations).len(),
    {
        let ghost input = spec_raw_locations_input(locations);
        match next_raw_location(&mut locations) {
            Ok(Some(location)) => {
                let ghost before = entries@;
                proof {
                    let rest = spec_raw_locations_input(locations);
                    assert(rest.len() < input.len());
                }
                entries.push(location);
                proof {
                    assert(locations_view(entries@) =~= locations_view(before).push(entries@.last()@));
                    if let Ok(tail) = spec_debug_loc(spec_raw_locations_input(locations)) {
                        assert(locations_view(entries@) + tail =~= locations_view(before) + (seq![
                            entries@.last()@
                        ] + tail));
                    }
                }
            },
            Ok(None) => {
                assert(locations_view(entries@) + Seq::<LocationEntryView>::empty()
                    =~= locations_view(entries@));
                return Ok(entries);
            },
            Err(e) => {
                return Err(DebuggerError::Gimli(e));
            },
        }
    }
}

/// A location list is read entry by entry: no bytes give an empty list,
/// fewer than eight an error, two zero addresses end the list; a first
/// address of all ones gives a new base address, the second; any other
/// pair gives a range from the first address to the second, followed by a
/// little-endian 2-byte length and that many bytes of location expression.
/// The list goes on with the bytes after the entry.
pub proof fn law_location_list_entry(input: Seq<u8>)
    ensures
        input.len() == 0 ==> spec_debug_loc(input) == Ok::<Seq<LocationEntryView>, ()>(Seq::empty()),
        0 < input.len() < 8 ==> spec_debug_loc(input) is Err,
        input.len() >= 8 && spec_u32_le_at(input, 0) == 0 && spec_u32_le_at(input, 4) == 0
            ==> spec_debug_loc(input) == Ok::<Seq<LocationEntryView>, ()>(Seq::empty()),
        input.len() >= 8 && spec_u32_le_at(input, 0) == 0xffff_ffff ==> spec_debug_loc(input)
            == match spec_debug_loc(input.skip(8)) {
            Ok(rest) => Ok(seq![LocationEntryView::BaseAddress { addr: spec_u32_le_at(input, 4) }] + rest),
            Err(()) => Err(()),
        },
        input.len() >= 10 && spec_u32_le_at(input, 0) != 0xffff_ffff && !(spec_u32_le_at(input, 0) == 0
            && spec_u32_le_at(input, 4) == 0) && input.len() >= 10 + input[8] + 0x100 * input[9]
            ==> spec_debug_loc(input) == match spec_debug_loc(
            input.skip(10 + input[8] + 0x100 * input[9]),
        ) {
            Ok(rest) => Ok(
                seq![
                    LocationEntryView::AddressOrOffsetPair {
                        begin: spec_u32_le_at(input, 0),
                        end: spec_u32_le_at(input, 4),
                        data: input.subrange(10, 10 + input[8] + 0x100 * input[9]),
                    },
                ] + rest,
            ),
            Err(()) => Err(()),
        },
        input.len() >= 8 && spec_u32_le_at(input, 0) != 0xffff_ffff && !(spec_u32_le_at(input, 0) == 0
            && spec_u32_le_at(input, 4) == 0) && (input.len() < 10 || input.len() < 10 + input[8] + 0x100
            * input[9]) ==> spec_debug_loc(input) is Err,
{
}

} // verus!
