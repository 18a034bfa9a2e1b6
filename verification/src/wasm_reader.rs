use gimli::{EndianSlice, LittleEndian};
use vstd::prelude::*;
use wasmparser::{Operator, Payload, SectionReader};

use crate::custom_sections::{DwarfSections, DwarfSectionsView};
use crate::source_maps::OperatorKind;
use crate::wasm_sections::import_section::spec_read_u32;

verus! {

// ---------------------------------------------------------------------------
// wasmparser
// ---------------------------------------------------------------------------

/// `wasmparser::FunctionSectionReader`.
#[verifier::external_type_specification]
#[verifier::external_body]
pub struct ExFunctionSectionReader<'a>(wasmparser::FunctionSectionReader<'a>);

/// `wasmparser::TypeSectionReader`.
#[verifier::external_type_specification]
#[verifier::external_body]
pub struct ExTypeSectionReader<'a>(wasmparser::TypeSectionReader<'a>);

/// `wasmparser::ImportSectionReader`.
#[verifier::external_type_specification]
#[verifier::external_body]
pub struct ExImportSectionReader<'a>(wasmparser::ImportSectionReader<'a>);

/// `wasmparser::ExportSectionReader`.
#[verifier::external_type_specification]
#[verifier::external_body]
pub struct ExExportSectionReader<'a>(wasmparser::ExportSectionReader<'a>);

/// `wasmparser::CodeSectionReader`.
#[verifier::external_type_specification]
#[verifier::external_body]
pub struct ExCodeSectionReader<'a>(wasmparser::CodeSectionReader<'a>);

/// `wasmparser::FunctionBody`.
#[verifier::external_type_specification]
#[verifier::external_body]
pub struct ExFunctionBody<'a>(wasmparser::FunctionBody<'a>);

/// `wasmparser::OperatorsReader`.
#[verifier::external_type_specification]
#[verifier::external_body]
pub struct ExOperatorsReader<'a>(wasmparser::OperatorsReader<'a>);

/// `wasmparser::Operator`.
#[verifier::external_type_specification]
#[verifier::external_body]
pub struct ExOperator<'a>(wasmparser::Operator<'a>);

/// The payloads that `wasmparser::Parser::parse_all` yields for a module.
/// Its iterator type cannot be named, so it is held here boxed.
#[verifier::external_body]
pub struct Payloads<'a> {
    iter: Box<dyn Iterator<Item = wasmparser::Result<Payload<'a>>> + 'a>,
}

/// What debugging tells apart in a payload of a module.
pub enum PayloadView {
    /// A custom section: its name and contents.
    Custom(Seq<char>, Seq<u8>),
    /// A type section, and whether it reads fully: as many entries as its
    /// count says, and then its end.
    TypeSection(bool),
    /// An import section, and whether it reads fully.
    ImportSection(bool),
    /// A function section, whether it reads fully, and its count.
    FunctionSection(bool, u32),
    /// An export section, and whether it reads fully.
    ExportSection(bool),
    /// The start of the code section, with the byte range of its contents in
    /// the module: the body count, then the function bodies.
    CodeSectionStart(usize, usize),
    /// Any other payload.
    Other,
    /// A payload that cannot be parsed; the walk ends with it.
    Malformed,
}

/// The payloads that `wasmparser::Parser::new(0).parse_all` yields for the
/// module `data`, in order, up to the end of the module or up to and
/// including the first payload that cannot be parsed, which stands there as
/// `Malformed`.
pub uninterp spec fn spec_module_payloads(data: Seq<u8>) -> Seq<PayloadView>;

/// The payloads that `p` still yields, in the same terms.
pub uninterp spec fn spec_payloads_left(p: Payloads) -> Seq<PayloadView>;

/// One element for each operator that `r` still reads successfully, giving
/// the offset at which that operator starts, counted from the start of the
/// code section bytes that its function body was read from.
pub uninterp spec fn spec_operator_offsets(r: wasmparser::OperatorsReader) -> Seq<usize>;

/// The kinds of payload that debugging reads.
pub enum WasmPayload<'a> {
    /// A custom section: its name and contents.
    CustomSection(&'a str, &'a [u8]),
    TypeSection(wasmparser::TypeSectionReader<'a>),
    ImportSection(wasmparser::ImportSectionReader<'a>),
    FunctionSection(wasmparser::FunctionSectionReader<'a>),
    ExportSection(wasmparser::ExportSectionReader<'a>),
    /// The start of the code section, with the byte range of its contents in
    /// the module: the body count, then the function bodies.
    CodeSectionStart(usize, usize),
    /// Any other payload.
    Other,
}

impl<'a> View for WasmPayload<'a> {
    type V = PayloadView;

    open spec fn view(&self) -> PayloadView {
        match *self {
            WasmPayload::CustomSection(name, data) => PayloadView::Custom(name@, data@),
            WasmPayload::TypeSection(r) => PayloadView::TypeSection(spec_type_section_reads_fully(r)),
            WasmPayload::ImportSection(r) => PayloadView::ImportSection(
                spec_import_section_reads_fully(r),
            ),
            WasmPayload::FunctionSection(r) => PayloadView::FunctionSection(
                spec_function_section_reads_fully(r),
                spec_function_section_count(r),
            ),
            WasmPayload::ExportSection(r) => PayloadView::ExportSection(
                spec_export_section_reads_fully(r),
            ),
            WasmPayload::CodeSectionStart(start, end) => PayloadView::CodeSectionStart(start, end),
            WasmPayload::Other => PayloadView::Other,
        }
    }
}

/// `wasmparser::Parser::new(0).parse_all` on the whole module `data`.
#[verifier::external_body]
pub(crate) fn module_payloads<'a>(data: &'a [u8]) -> (p: Payloads<'a>)
    ensures
        spec_payloads_left(p) == spec_module_payloads(data@),
{
    Payloads { iter: Box::new(wasmparser::Parser::new(0).parse_all(data)) }
}

/// The next item of the `parse_all` iterator, its payload told apart by
/// kind: `None` once the module has ended, an error where the next payload
/// cannot be parsed, else the next payload.
#[verifier::external_body]
pub(crate) fn next_payload<'a>(p: &mut Payloads<'a>) -> (r: Option<
    Result<WasmPayload<'a>, wasmparser::BinaryReaderError>,
>)
    ensures
        r is None ==> spec_payloads_left(*old(p)).len() == 0,
        r matches Some(Err(_)) ==> spec_payloads_left(*old(p)).len() > 0 && spec_payloads_left(
            *old(p),
        )[0] is Malformed,
        r matches Some(Ok(w)) ==> spec_payloads_left(*old(p)).len() > 0 && spec_payloads_left(
            *old(p),
        )[0] == w@ && spec_payloads_left(*final(p)) == spec_payloads_left(*old(p)).drop_first(),
{
    let payload = match p.iter.next()? {
        Ok(payload) => payload,
        Err(e) => return Some(Err(e)),
    };
    Some(Ok(match payload {
        Payload::CustomSection { name, data, .. } => WasmPayload::CustomSection(name, data),
        Payload::TypeSection(r) => WasmPayload::TypeSection(r),
        Payload::ImportSection(r) => WasmPayload::ImportSection(r),
        Payload::FunctionSection(r) => WasmPayload::FunctionSection(r),
        Payload::ExportSection(r) => WasmPayload::ExportSection(r),
        Payload::CodeSectionStart { range, .. } => WasmPayload::CodeSectionStart(range.start, range.end),
        _ => WasmPayload::Other,
    }))
}

/// The type indices that successive reads of `r` give, up to the first
/// read that fails.
pub uninterp spec fn spec_function_section_left(r: wasmparser::FunctionSectionReader) -> Seq<u32>;

/// The entry count that `r` read at the head of its section.
pub uninterp spec fn spec_function_section_count(r: wasmparser::FunctionSectionReader) -> u32;

/// Whether `r`, once it has read every entry it still can, stands at the
/// end of its section.
pub uninterp spec fn spec_function_section_ends(r: wasmparser::FunctionSectionReader) -> bool;

/// `r` reads exactly as many entries as its count says, and the section
/// ends there.
pub open spec fn spec_function_section_reads_fully(r: wasmparser::FunctionSectionReader) -> bool {
    spec_function_section_left(r).len() == spec_function_section_count(r)
        && spec_function_section_ends(r)
}

/// `wasmparser::FunctionSectionReader::get_count`: the count read at the
/// head of the section.
#[verifier::external_body]
pub(crate) fn function_section_count(r: &wasmparser::FunctionSectionReader) -> (c: u32)
    ensures
        c == spec_function_section_count(*r),
{
    r.get_count()
}

/// `wasmparser::FunctionSectionReader::read`: the next type index, while
/// one can be read.
#[verifier::external_body]
pub(crate) fn function_section_read(r: &mut wasmparser::FunctionSectionReader) -> (res: Result<
    u32,
    wasmparser::BinaryReaderError,
>)
    ensures
        res matches Ok(v) ==> spec_function_section_left(*old(r)).len() > 0 && v
            == spec_function_section_left(*old(r))[0] && spec_function_section_left(*final(r))
            == spec_function_section_left(*old(r)).drop_first() && spec_function_section_ends(
            *final(r),
        ) == spec_function_section_ends(*old(r)),
        res is Err ==> spec_function_section_left(*old(r)).len() == 0,
{
    r.read()
}

/// `SectionReader::ensure_end` of a function section: it succeeds exactly
/// where the reader stands at the end of the section, so never while a read
/// would still succeed.
#[verifier::external_body]
pub(crate) fn function_section_ensure_end(r: &wasmparser::FunctionSectionReader) -> (res: Result<
    (),
    wasmparser::BinaryReaderError,
>)
    ensures
        res is Ok ==> spec_function_section_left(*r).len() == 0,
        spec_function_section_left(*r).len() == 0 ==> (res is Ok <==> spec_function_section_ends(*r)),
{
    r.ensure_end()
}

/// The number of entries that successive reads of `r` give before the
/// first read that fails.
pub uninterp spec fn spec_type_section_left(r: wasmparser::TypeSectionReader) -> nat;

/// The entry count that `r` read at the head of its section.
pub uninterp spec fn spec_type_section_count(r: wasmparser::TypeSectionReader) -> u32;

/// Whether `r`, once it has read every entry it still can, stands at the
/// end of its section.
pub uninterp spec fn spec_type_section_ends(r: wasmparser::TypeSectionReader) -> bool;

/// `r` reads exactly as many entries as its count says, and the section
/// ends there.
pub open spec fn spec_type_section_reads_fully(r: wasmparser::TypeSectionReader) -> bool {
    spec_type_section_left(r) == spec_type_section_count(r) && spec_type_section_ends(r)
}

/// `wasmparser::TypeSectionReader::get_count`: the count read at the head of the section.
#[verifier::external_body]
pub(crate) fn type_section_count(r: &wasmparser::TypeSectionReader) -> (c: u32)
    ensures
        c == spec_type_section_count(*r),
{
    r.get_count()
}

/// `wasmparser::TypeSectionReader::read`; the type read is not kept.
#[verifier::external_body]
pub(crate) fn type_section_read(r: &mut wasmparser::TypeSectionReader) -> (res: Result<
    (),
    wasmparser::BinaryReaderError,
>)
    ensures
        res is Ok ==> spec_type_section_left(*old(r)) > 0 && spec_type_section_left(*final(r))
            == spec_type_section_left(*old(r)) - 1 && spec_type_section_ends(*final(r))
            == spec_type_section_ends(*old(r)),
        res is Err ==> spec_type_section_left(*old(r)) == 0,
{
    r.read().map(|_| ())
}

/// `SectionReader::ensure_end` of a type section: it succeeds exactly
/// where the reader stands at the end of the section, so never while a read
/// would still succeed.
#[verifier::external_body]
pub(crate) fn type_section_ensure_end(r: &wasmparser::TypeSectionReader) -> (res: Result<
    (),
    wasmparser::BinaryReaderError,
>)
    ensures
        res is Ok ==> spec_type_section_left(*r) == 0,
        spec_type_section_left(*r) == 0 ==> (res is Ok <==> spec_type_section_ends(*r)),
{
    r.ensure_end()
}

/// The number of entries that successive reads of `r` give before the
/// first read that fails.
pub uninterp spec fn spec_import_section_left(r: wasmparser::ImportSectionReader) -> nat;

/// The entry count that `r` read at the head of its section.
pub uninterp spec fn spec_import_section_count(r: wasmparser::ImportSectionReader) -> u32;

/// Whether `r`, once it has read every entry it still can, stands at the
/// end of its section.
pub uninterp spec fn spec_import_section_ends(r: wasmparser::ImportSectionReader) -> bool;

/// `r` reads exactly as many entries as its count says, and the section
/// ends there.
pub open spec fn spec_import_section_reads_fully(r: wasmparser::ImportSectionReader) -> bool {
    spec_import_section_left(r) == spec_import_section_count(r) && spec_import_section_ends(r)
}

/// `wasmparser::ImportSectionReader::get_count`: the count read at the head of the section.
#[verifier::external_body]
pub(crate) fn import_section_count(r: &wasmparser::ImportSectionReader) -> (c: u32)
    ensures
        c == spec_import_section_count(*r),
{
    r.get_count()
}

/// `wasmparser::ImportSectionReader::read`; the import read is not kept.
#[verifier::external_body]
pub(crate) fn import_section_read(r: &mut wasmparser::ImportSectionReader) -> (res: Result<
    (),
    wasmparser::BinaryReaderError,
>)
    ensures
        res is Ok ==> spec_import_section_left(*old(r)) > 0 && spec_import_section_left(*final(r))
            == spec_import_section_left(*old(r)) - 1 && spec_import_section_ends(*final(r))
            == spec_import_section_ends(*old(r)),
        res is Err ==> spec_import_section_left(*old(r)) == 0,
{
    r.read().map(|_| ())
}

/// `SectionReader::ensure_end` of an import section: it succeeds exactly
/// where the reader stands at the end of the section, so never while a read
/// would still succeed.
#[verifier::external_body]
pub(crate) fn import_section_ensure_end(r: &wasmparser::ImportSectionReader) -> (res: Result<
    (),
    wasmparser::BinaryReaderError,
>)
    ensures
        res is Ok ==> spec_import_section_left(*r) == 0,
        spec_import_section_left(*r) == 0 ==> (res is Ok <==> spec_import_section_ends(*r)),
{
    r.ensure_end()
}

/// The number of entries that successive reads of `r` give before the
/// first read that fails.
pub uninterp spec fn spec_export_section_left(r: wasmparser::ExportSectionReader) -> nat;

/// The entry count that `r` read at the head of its section.
pub uninterp spec fn spec_export_section_count(r: wasmparser::ExportSectionReader) -> u32;

/// Whether `r`, once it has read every entry it still can, stands at the
/// end of its section.
pub uninterp spec fn spec_export_section_ends(r: wasmparser::ExportSectionReader) -> bool;

/// `r` reads exactly as many entries as its count says, and the section
/// ends there.
pub open spec fn spec_export_section_reads_fully(r: wasmparser::ExportSectionReader) -> bool {
    spec_export_section_left(r) == spec_export_section_count(r) && spec_export_section_ends(r)
}

/// `wasmparser::ExportSectionReader::get_count`: the count read at the head of the section.
#[verifier::external_body]
pub(crate) fn export_section_count(r: &wasmparser::ExportSectionReader) -> (c: u32)
    ensures
        c == spec_export_section_count(*r),
{
    r.get_count()
}

/// `wasmparser::ExportSectionReader::read`; the export read is not kept.
#[verifier::external_body]
pub(crate) fn export_section_read(r: &mut wasmparser::ExportSectionReader) -> (res: Result<
    (),
    wasmparser::BinaryReaderError,
>)
    ensures
        res is Ok ==> spec_export_section_left(*old(r)) > 0 && spec_export_section_left(*final(r))
            == spec_export_section_left(*old(r)) - 1 && spec_export_section_ends(*final(r))
            == spec_export_section_ends(*old(r)),
        res is Err ==> spec_export_section_left(*old(r)) == 0,
{
    r.read().map(|_| ())
}

/// `SectionReader::ensure_end` of an export section: it succeeds exactly
/// where the reader stands at the end of the section, so never while a read
/// would still succeed.
#[verifier::external_body]
pub(crate) fn export_section_ensure_end(r: &wasmparser::ExportSectionReader) -> (res: Result<
    (),
    wasmparser::BinaryReaderError,
>)
    ensures
        res is Ok ==> spec_export_section_left(*r) == 0,
        spec_export_section_left(*r) == 0 ==> (res is Ok <==> spec_export_section_ends(*r)),
{
    r.ensure_end()
}

/// The function-body count that `r` read at the head of its section.
pub uninterp spec fn spec_code_section_count(r: wasmparser::CodeSectionReader) -> u32;

/// Whether `r` has no bytes left to read in its section.
pub uninterp spec fn spec_code_section_at_end(r: wasmparser::CodeSectionReader) -> bool;

/// `wasmparser::CodeSectionReader::new(data, 0)`: it reads the body count,
/// an unsigned LEB128 number of at most five bytes, at the head of `data`,
/// and fails exactly where that number cannot be read; the reader then
/// stands just after the count.
#[verifier::external_body]
pub(crate) fn code_section_new<'a>(data: &'a [u8]) -> (res: Result<
    wasmparser::CodeSectionReader<'a>,
    wasmparser::BinaryReaderError,
>)
    ensures
        res is Ok <==> spec_read_u32(data@, 0) is Ok,
        res matches Ok(r) ==> (spec_read_u32(data@, 0) matches Ok((n, p)) && spec_code_section_count(
            r,
        ) == n && spec_code_section_at_end(r) == (p == data@.len())),
{
    wasmparser::CodeSectionReader::new(data, 0)
}

/// `wasmparser::CodeSectionReader::get_count`: the count read at the head
/// of the section.
#[verifier::external_body]
pub(crate) fn code_section_count(r: &wasmparser::CodeSectionReader) -> (c: u32)
    ensures
        c == spec_code_section_count(*r),
{
    r.get_count()
}

/// `wasmparser::CodeSectionReader::read`: the next function body.
#[verifier::external_body]
pub(crate) fn code_section_read<'a>(r: &mut wasmparser::CodeSectionReader<'a>) -> Result<
    wasmparser::FunctionBody<'a>,
    wasmparser::BinaryReaderError,
> {
    r.read()
}

/// `SectionReader::ensure_end` of a code section: it succeeds exactly where
/// the reader has no bytes left.
#[verifier::external_body]
pub(crate) fn code_section_ensure_end(r: &wasmparser::CodeSectionReader) -> (res: Result<
    (),
    wasmparser::BinaryReaderError,
>)
    ensures
        res is Ok <==> spec_code_section_at_end(*r),
{
    r.ensure_end()
}

/// `wasmparser::FunctionBody::get_operators_reader`.
#[verifier::external_body]
pub(crate) fn body_operators<'a>(b: &wasmparser::FunctionBody<'a>) -> Result<
    wasmparser::OperatorsReader<'a>,
    wasmparser::BinaryReaderError,
> {
    b.get_operators_reader()
}

/// `wasmparser::OperatorsReader::read`: it reads the next operator while
/// there is one and fails once there is none.
#[verifier::external_body]
pub(crate) fn operators_read<'a>(r: &mut wasmparser::OperatorsReader<'a>) -> (res: Result<
    Operator<'a>,
    wasmparser::BinaryReaderError,
>)
    ensures
        res is Ok ==> spec_operator_offsets(*old(r)).len() > 0 && spec_operator_offsets(*final(r))
            == spec_operator_offsets(*old(r)).drop_first(),
        res is Err ==> spec_operator_offsets(*old(r)).len() == 0,
{
    r.read()
}

/// `wasmparser::OperatorsReader::read_with_offset`: as `read`, and also
/// gives the offset at which the operator starts.
#[verifier::external_body]
pub(crate) fn operators_read_with_offset<'a>(r: &mut wasmparser::OperatorsReader<'a>) -> (res:
    Result<(Operator<'a>, usize), wasmparser::BinaryReaderError>)
    ensures
        res matches Ok((_, offset)) ==> spec_operator_offsets(*old(r)).len() > 0 && offset
            == spec_operator_offsets(*old(r))[0] && spec_operator_offsets(*final(r))
            == spec_operator_offsets(*old(r)).drop_first(),
        res is Err ==> spec_operator_offsets(*old(r)).len() == 0,
{
    r.read_with_offset()
}

/// Tells apart the control, call, variable and memory operators that the
/// source map records.
#[verifier::external_body]
pub(crate) fn control_operator_kind(op: &Operator) -> Option<OperatorKind> {
    match op {
        Operator::Call { function_index } => Some(OperatorKind::Call { function_index: *function_index }),
        Operator::LocalGet { local_index } => Some(OperatorKind::LocalGet { local_index: *local_index }),
        Operator::If { .. } => Some(OperatorKind::If),
        Operator::Loop { .. } => Some(OperatorKind::Loop),
        Operator::End => Some(OperatorKind::End),
        Operator::Br { relative_depth } => Some(OperatorKind::Br { relative_depth: *relative_depth }),
        Operator::BrIf { relative_depth } => Some(OperatorKind::BrIf { relative_depth: *relative_depth }),
        Operator::MemorySize { .. } => Some(OperatorKind::MemorySize),
        Operator::MemoryGrow { .. } => Some(OperatorKind::MemoryGrow),
        _ => None,
    }
}

/// Tells apart the numeric operators that the source map records.
#[verifier::external_body]
pub(crate) fn numeric_operator_kind(op: &Operator) -> Option<OperatorKind> {
    match op {
        Operator::I32Add => Some(OperatorKind::I32Add),
        Operator::I64Add => Some(OperatorKind::I64Add),
        Operator::F32Add => Some(OperatorKind::F32Add),
        Operator::F64Add => Some(OperatorKind::F64Add),
        Operator::I32WrapI64 => Some(OperatorKind::I32WrapI64),
        Operator::I64ExtendI32S => Some(OperatorKind::I64ExtendI32S),
        Operator::I64ExtendI32U => Some(OperatorKind::I64ExtendI32U),
        Operator::I32Eq => Some(OperatorKind::I32Eq),
        Operator::I64Eq => Some(OperatorKind::I64Eq),
        Operator::I32Ne => Some(OperatorKind::I32Ne),
        Operator::I64Ne => Some(OperatorKind::I64Ne),
        _ => None,
    }
}

// ---------------------------------------------------------------------------
// gimli
// ---------------------------------------------------------------------------

/// A `gimli::Dwarf` over the little-endian sections of a [`DwarfSections`].
#[verifier::external_body]
pub struct RawDwarf<'a> {
    dwarf: gimli::Dwarf<EndianSlice<'a, LittleEndian>>,
}

/// A `gimli::Dwarf` together with the sections it was built over.
pub struct GimliDwarf<'a> {
    sections: &'a DwarfSections,
    raw: RawDwarf<'a>,
}

impl<'a> GimliDwarf<'a> {
    /// The sections the DWARF was built over.
    pub closed spec fn spec_sections(&self) -> DwarfSectionsView {
        self.sections@
    }
}

/// The iterator of `gimli::Dwarf::units`, over the unit headers of `.debug_info`.
#[verifier::external_body]
pub struct RawUnitHeaders<'a> {
    iter: gimli::DebugInfoUnitHeadersIter<EndianSlice<'a, LittleEndian>>,
}

/// The unit headers of the `.debug_info` section of some sections, together
/// with those sections.
pub struct UnitHeaders<'a> {
    source: &'a DwarfSections,
    raw: RawUnitHeaders<'a>,
}

impl<'a> UnitHeaders<'a> {
    /// The sections whose `.debug_info` is walked.
    pub closed spec fn spec_source(&self) -> DwarfSectionsView {
        self.source@
    }
}

/// A `gimli::UnitHeader`.
#[verifier::external_body]
pub struct RawUnitHeader<'a> {
    header: gimli::UnitHeader<EndianSlice<'a, LittleEndian>>,
}

/// A unit header, with its offset in `.debug_info` and the sections it was
/// read from.
pub struct UnitHeaderHandle<'a> {
    source: &'a DwarfSections,
    offset: usize,
    raw: RawUnitHeader<'a>,
}

impl<'a> UnitHeaderHandle<'a> {
    /// The sections whose `.debug_info` the header was read from.
    pub closed spec fn spec_source(&self) -> DwarfSectionsView {
        self.source@
    }

    /// The offset of the header in `.debug_info`.
    pub closed spec fn spec_offset(&self) -> usize {
        self.offset
    }
}

/// One step of the walk over the unit headers of `.debug_info`.
pub enum UnitHeaderView {
    /// A header that parses, at this offset.
    At(usize),
    /// A header that cannot be parsed; the walk ends with it.
    Malformed,
}

/// The unit headers that `gimli::DebugInfo::units` gives for the
/// `.debug_info` section `debug_info`, in order, up to the end of the
/// section or up to and including the first header that cannot be parsed.
pub uninterp spec fn spec_debug_info_headers(debug_info: Seq<u8>) -> Seq<UnitHeaderView>;

/// The unit headers that `u` still gives, in the same terms.
pub uninterp spec fn spec_unit_headers_left(u: UnitHeaders) -> Seq<UnitHeaderView>;

/// Whether `gimli::Unit::new` succeeds on the `gimli::Dwarf` that
/// [`gimli_dwarf`] builds over `sections` and the unit header at `offset` in
/// their `.debug_info`.
pub uninterp spec fn spec_unit_builds(sections: DwarfSectionsView, offset: usize) -> bool;

/// Builds a `gimli::Dwarf` whose sections are those of `s`; the location and
/// range lists are empty, as in `Dwarf::default`.
#[verifier::external_body]
pub(crate) fn gimli_dwarf<'a>(s: &'a DwarfSections) -> (d: GimliDwarf<'a>)
    ensures
        d.spec_sections() == s@,
{
    let e = |v: &'a Vec<u8>| EndianSlice::new(v.as_slice(), LittleEndian);
    GimliDwarf { sections: s, raw: RawDwarf { dwarf: gimli::Dwarf {
        debug_abbrev: e(&s.debug_abbrev).into(), debug_addr: e(&s.debug_addr).into(),
        debug_aranges: e(&s.debug_aranges).into(), debug_info: e(&s.debug_info).into(),
        debug_line: e(&s.debug_line).into(), debug_line_str: e(&s.debug_line_str).into(),
        debug_str: e(&s.debug_str).into(), debug_str_offsets: e(&s.debug_str_offsets).into(),
        debug_types: e(&s.debug_types).into(), ..Default::default()
    } } }
}

/// `gimli::Dwarf::units`, which walks the unit headers of `.debug_info`
/// from its start: its input is the whole `.debug_info` section of `s`, and
/// an empty section gives no header.
#[verifier::external_body]
pub(crate) fn dwarf_units<'a>(s: &'a DwarfSections) -> (u: UnitHeaders<'a>)
    ensures
        u.spec_source() == s@,
        spec_unit_headers_left(u) == spec_debug_info_headers(s.debug_info@),
        s.debug_info@.len() == 0 ==> spec_unit_headers_left(u).len() == 0,
{
    let iter = gimli::DebugInfo::new(s.debug_info.as_slice(), LittleEndian).units();
    UnitHeaders { source: s, raw: RawUnitHeaders { iter } }
}

/// `gimli::DebugInfoUnitHeadersIter::next`, with the offset of the header
/// it gives: `None` once the walk is over, an error where the next header
/// cannot be parsed, else the next header.
#[verifier::external_body]
pub(crate) fn next_unit_header<'a>(u: &mut UnitHeaders<'a>) -> (r: Result<
    Option<UnitHeaderHandle<'a>>,
    gimli::Error,
>)
    ensures
        final(u).spec_source() == old(u).spec_source(),
        r matches Ok(None) <==> spec_unit_headers_left(*old(u)).len() == 0,
        r is Err ==> spec_unit_headers_left(*old(u)).len() > 0 && spec_unit_headers_left(*old(u))[0] is Malformed,
        r matches Ok(Some(h)) ==> spec_unit_headers_left(*old(u)).len() > 0
            && spec_unit_headers_left(*old(u))[0] == UnitHeaderView::At(h.spec_offset())
            && h.spec_source() == old(u).spec_source() && spec_unit_headers_left(*final(u))
            == spec_unit_headers_left(*old(u)).drop_first(),
{
    let header = match u.raw.iter.next() {
        Ok(Some(header)) => header,
        Ok(None) => return Ok(None),
        Err(e) => return Err(e),
    };
    let offset = match header.offset() {
        gimli::UnitSectionOffset::DebugInfoOffset(o) => o.0,
        gimli::UnitSectionOffset::DebugTypesOffset(o) => o.0,
    };
    Ok(Some(UnitHeaderHandle { source: u.source, offset, raw: RawUnitHeader { header } }))
}

/// `gimli::Unit::new` on a header read from sections with the same contents
/// as those `d` was built over; the unit built is not kept.
#[verifier::external_body]
pub(crate) fn unit_new<'a>(d: &GimliDwarf<'a>, h: UnitHeaderHandle<'a>) -> (res: Result<
    (),
    gimli::Error,
>)
    requires
        h.spec_source() == d.spec_sections(),
    ensures
        res is Ok <==> spec_unit_builds(d.spec_sections(), h.spec_offset()),
{
    gimli::Unit::new(&d.raw.dwarf, h.raw.header).map(|_| ())
}

} // verus!
