use gimli::{AttributeValue as GimliValue, EndianSlice, LittleEndian};
use vstd::prelude::*;
use vstd::utf8::{decode_utf8, valid_utf8};

use crate::die_types::models::die::{AttrValue, AttrValueView};

verus! {

/// What `String::from_utf8_lossy` makes of `bytes`: their characters, with
/// each invalid sequence replaced by U+FFFD.
pub uninterp spec fn spec_utf8_lossy(bytes: Seq<u8>) -> Seq<char>;

/// The text that `gimli`'s derived `Debug` formatting gives for an attribute value.
pub uninterp spec fn spec_attr_value_debug(v: AttrValueView) -> Seq<char>;

/// The index of the first zero byte of `s`.
pub open spec fn spec_first_zero(s: Seq<u8>) -> Option<int>
    decreases s.len(),
{
    if s.len() == 0 {
        None
    } else if s[0] == 0 {
        Some(0)
    } else {
        match spec_first_zero(s.drop_first()) {
            Some(i) => Some(i + 1),
            None => None,
        }
    }
}

/// The null-terminated string at `offset` of a `.debug_str` section, without
/// its terminator; `None` where `offset` lies past the end or no zero byte
/// follows it.
pub open spec fn spec_debug_str_at(section: Seq<u8>, offset: int) -> Option<Seq<u8>> {
    if offset < 0 || offset > section.len() {
        None
    } else {
        match spec_first_zero(section.skip(offset)) {
            Some(i) => Some(section.skip(offset).take(i)),
            None => None,
        }
    }
}

/// `gimli::DebugStr::get_str` on a little-endian section: it skips `offset`
/// bytes (failing when fewer remain) and reads up to the first zero byte
/// (failing when there is none). The contract states that result; a failure
/// becomes `None`.
#[verifier::external_body]
pub(crate) fn debug_str_get(section: &[u8], offset: usize) -> (r: Option<Vec<u8>>)
    ensures
        match (r, spec_debug_str_at(section@, offset as int)) {
            (Some(v), Some(w)) => v@ == w,
            (None, None) => true,
            _ => false,
        },
{
    match gimli::DebugStr::new(section, LittleEndian).get_str(gimli::DebugStrOffset(offset)) {
        Ok(s) => Some(s.slice().to_vec()),
        Err(_) => None,
    }
}

/// `gimli::EndianSlice::to_string_lossy`, which calls
/// `String::from_utf8_lossy`: valid UTF-8 decodes to its characters, and
/// the result on other bytes has the name [`spec_utf8_lossy`].
#[verifier::external_body]
pub(crate) fn endian_slice_to_string_lossy(bytes: &[u8]) -> (r: String)
    ensures
        r@ == spec_utf8_lossy(bytes@),
        valid_utf8(bytes@) ==> r@ == decode_utf8(bytes@),
{
    EndianSlice::new(bytes, LittleEndian).to_string_lossy().into_owned()
}

/// `gimli::EndianSlice::to_string`, which calls `std::str::from_utf8`: the
/// characters of the bytes where they are valid UTF-8, and an error (gimli's
/// `BadUtf8`) where they are not.
#[verifier::external_body]
pub(crate) fn endian_slice_to_string(bytes: &[u8]) -> (r: Result<String, gimli::Error>)
    ensures
        r is Ok <==> valid_utf8(bytes@),
        r matches Ok(s) ==> s@ == decode_utf8(bytes@),
        r matches Err(e) ==> e == spec_gimli_error(GimliErrorKind::BadUtf8),
{
    match EndianSlice::new(bytes, LittleEndian).to_string() {
        Ok(s) => Ok(s.to_owned()),
        Err(e) => Err(e),
    }
}

/// Whether `v` is one of the numeric forms: an address, a constant or a flag.
pub open spec fn spec_is_numeric_form(v: AttrValue) -> bool {
    ||| v is Addr
    ||| v is Data1
    ||| v is Data2
    ||| v is Data4
    ||| v is Data8
    ||| v is Sdata
    ||| v is Udata
    ||| v is Flag
}

/// The `Debug` text of the `gimli::AttributeValue` that a numeric-form `v`
/// stands for. The contract gives the text a name and says nothing more of
/// it. (The forms are split over two functions only to keep each short.)
#[verifier::external_body]
fn numeric_attr_value_debug(v: &AttrValue) -> (r: String)
    requires
        spec_is_numeric_form(*v),
    ensures
        r@ == spec_attr_value_debug(v@),
{
    let g: GimliValue<EndianSlice<LittleEndian>> = match v {
        AttrValue::Addr(x) => GimliValue::Addr(*x),
        AttrValue::Data1(x) => GimliValue::Data1(*x),
        AttrValue::Data2(x) => GimliValue::Data2(*x),
        AttrValue::Data4(x) => GimliValue::Data4(*x),
        AttrValue::Data8(x) => GimliValue::Data8(*x),
        AttrValue::Sdata(x) => GimliValue::Sdata(*x),
        AttrValue::Udata(x) => GimliValue::Udata(*x),
        AttrValue::Flag(x) => GimliValue::Flag(*x),
        _ => GimliValue::Flag(false),
    };
    format!("{:?}", g)
}

/// The `Debug` text of the `gimli::AttributeValue` that a string or
/// reference-form `v` stands for. The contract gives the text a name and
/// says nothing more of it.
#[verifier::external_body]
fn reference_attr_value_debug(v: &AttrValue) -> (r: String)
    requires
        !spec_is_numeric_form(*v),
    ensures
        r@ == spec_attr_value_debug(v@),
{
    let g: GimliValue<EndianSlice<LittleEndian>> = match v {
        AttrValue::Str(x) => GimliValue::String(EndianSlice::new(x, LittleEndian)),
        AttrValue::DebugStrRef(x) => GimliValue::DebugStrRef(gimli::DebugStrOffset(*x)),
        AttrValue::UnitRef(x) => GimliValue::UnitRef(gimli::UnitOffset(*x)),
        AttrValue::DebugTypesRef(x) => GimliValue::DebugTypesRef(gimli::DebugTypeSignature(*x)),
        _ => GimliValue::Flag(false),
    };
    format!("{:?}", g)
}

/// The `Debug` text of the `gimli::AttributeValue` that `v` stands for.
pub fn attr_value_debug(v: &AttrValue) -> (r: String)
    ensures
        r@ == spec_attr_value_debug(v@),
{
    match v {
        AttrValue::Str(_) | AttrValue::DebugStrRef(_) | AttrValue::UnitRef(_)
        | AttrValue::DebugTypesRef(_) => reference_attr_value_debug(v),
        _ => numeric_attr_value_debug(v),
    }
}

/// The `gimli::Error` variants that the library itself returns or checks for.
#[derive(Debug, Clone, Copy, PartialEq, Eq, Structural)]
pub enum GimliErrorKind {
    /// `gimli::Error::BadUtf8`.
    BadUtf8,
    /// `gimli::Error::NoEntryAtGivenOffset`.
    NoEntryAtGivenOffset,
}

/// The `gimli::Error` value of the variant `kind`.
pub uninterp spec fn spec_gimli_error(kind: GimliErrorKind) -> gimli::Error;

/// The `gimli::Error` of the variant `kind`.
#[verifier::external_body]
pub(crate) fn gimli_error(kind: GimliErrorKind) -> (e: gimli::Error)
    ensures
        e == spec_gimli_error(kind),
{
    match kind {
        GimliErrorKind::BadUtf8 => gimli::Error::BadUtf8,
        GimliErrorKind::NoEntryAtGivenOffset => gimli::Error::NoEntryAtGivenOffset,
    }
}

} // verus!
