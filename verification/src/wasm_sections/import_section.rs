use vstd::prelude::*;
use vstd::utf8::*;
use vstd::string::StringSliceAdditionalSpecFns;

use crate::wasm_sections::{GlobalType, GlobalTypeView, MemoryType};

verus! {

broadcast use vstd::utf8::encode_utf8_decode_utf8;

/// The size bounds of a table or a memory: a minimum that is always present
/// and an optional maximum.
#[derive(Debug, Clone, Copy, PartialEq, Eq, Structural)]
pub struct Limits {
    pub min: u32,
    pub max: Option<u32>,
}

/// The heap type that a table's reference elements point to.
#[derive(Debug, Clone, Copy, PartialEq, Eq, Structural)]
pub enum HeapType {
    /// A function reference.
    Func,
    /// An external reference.
    Extern,
}

/// The element type of a table.
#[derive(Debug, Clone, Copy, PartialEq, Eq, Structural)]
pub enum RefType {
    /// A nullable reference.
    Null,
    /// A reference to the given heap type.
    HeapTypeRef(HeapType),
}

/// The type of an imported table: its limits and its element type.
#[derive(Debug, Clone, Copy, PartialEq, Eq, Structural)]
pub struct TableType {
    pub limits: Limits,
    pub elem_type: RefType,
}

/// What an import brings in.
pub enum ImportDescriptor {
    /// A function, with the index of its type.
    Function(u32),
    Table(TableType),
    Memory(MemoryType),
    Global(GlobalType),
}

/// One entry of the import section.
pub struct ImportEntry {
    /// The module the item is imported from.
    pub module_name: String,
    /// The name of the imported item.
    pub import_name: String,
    pub descriptor: ImportDescriptor,
}

/// The mathematical value of an [`ImportDescriptor`].
pub enum ImportDescriptorView {
    Function(u32),
    Table(TableType),
    Memory(MemoryType),
    Global(GlobalTypeView),
}

/// The mathematical value of an [`ImportEntry`].
pub struct ImportEntryView {
    pub module_name: Seq<char>,
    pub import_name: Seq<char>,
    pub descriptor: ImportDescriptorView,
}

impl View for ImportDescriptor {
    type V = ImportDescriptorView;

    open spec fn view(&self) -> ImportDescriptorView {
        match self {
            ImportDescriptor::Function(i) => ImportDescriptorView::Function(*i),
            ImportDescriptor::Table(t) => ImportDescriptorView::Table(*t),
            ImportDescriptor::Memory(m) => ImportDescriptorView::Memory(*m),
            ImportDescriptor::Global(g) => ImportDescriptorView::Global(g@),
        }
    }
}

impl View for ImportEntry {
    type V = ImportEntryView;

    open spec fn view(&self) -> ImportEntryView {
        ImportEntryView {
            module_name: self.module_name@,
            import_name: self.import_name@,
            descriptor: self.descriptor@,
        }
    }
}

/// Why bytes are not a well-formed import section.
#[derive(Debug, Clone, Copy, PartialEq, Eq, Structural)]
pub enum DecodeError {
    /// The bytes end before the item being read.
    UnexpectedEnd,
    /// A LEB128 number runs past five bytes or does not fit in 32 bits.
    MalformedLeb128,
    /// A name is not valid UTF-8.
    InvalidUtf8,
    /// The limits flag is neither 0 nor 1.
    UnknownLimitsFlag,
    /// A table's element type byte is not a reference type.
    UnknownRefType,
    /// A global's value type byte is not a value type.
    UnknownValueType,
    /// A global's mutability byte is neither 0 nor 1.
    UnknownMutability,
    /// The descriptor byte of an import is not 0, 1, 2 or 3.
    UnknownDescriptor,
}

/// The message that [`parse_import_section`] reports for each error.
pub open spec fn spec_decode_error_message(e: DecodeError) -> &'static str {
    match e {
        DecodeError::UnexpectedEnd => "unexpected end of import section",
        DecodeError::MalformedLeb128 => "malformed LEB128 integer",
        DecodeError::InvalidUtf8 => "name is not valid UTF-8",
        DecodeError::UnknownLimitsFlag => "unknown limits flag",
        DecodeError::UnknownRefType => "unknown reference type",
        DecodeError::UnknownValueType => "unknown value type",
        DecodeError::UnknownMutability => "unknown global mutability",
        DecodeError::UnknownDescriptor => "Unknown import descriptor type",
    }
}

/// The message that [`parse_import_section`] reports for `e`.
pub fn decode_error_message(e: DecodeError) -> (m: &'static str)
    ensures
        m == spec_decode_error_message(e),
{
    match e {
        DecodeError::UnexpectedEnd => "unexpected end of import section",
        DecodeError::MalformedLeb128 => "malformed LEB128 integer",
        DecodeError::InvalidUtf8 => "name is not valid UTF-8",
        DecodeError::UnknownLimitsFlag => "unknown limits flag",
        DecodeError::UnknownRefType => "unknown reference type",
        DecodeError::UnknownValueType => "unknown value type",
        DecodeError::UnknownMutability => "unknown global mutability",
        DecodeError::UnknownDescriptor => "Unknown import descriptor type",
    }
}

// ---------------------------------------------------------------------------
// The grammar, as functions from a byte sequence and a position to the value
// read there and the position after it.
// ---------------------------------------------------------------------------

/// `128` to the power `k`, for the five digit positions of a 32-bit LEB128 number.
pub open spec fn spec_pow128(k: int) -> int {
    if k <= 0 {
        1
    } else if k == 1 {
        128
    } else if k == 2 {
        16384
    } else if k == 3 {
        2097152
    } else {
        268435456
    }
}

/// Reads the rest of an unsigned LEB128 number whose first `k` bytes, starting
/// at `pos`, have the value `acc`.
pub open spec fn spec_leb_u32_from(s: Seq<u8>, pos: int, k: int, acc: int) -> Result<
    (u32, int),
    DecodeError,
>
    decreases 4 - k,
{
    if k < 0 || k > 4 {
        Err(DecodeError::MalformedLeb128)
    } else if pos + k >= s.len() {
        Err(DecodeError::UnexpectedEnd)
    } else {
        let b = s[pos + k];
        if k == 4 {
            if b >= 16 {
                Err(DecodeError::MalformedLeb128)
            } else {
                Ok(((acc + b * spec_pow128(4)) as u32, pos + 5))
            }
        } else if b < 128 {
            Ok(((acc + b * spec_pow128(k)) as u32, pos + k + 1))
        } else {
            spec_leb_u32_from(s, pos, k + 1, acc + (b - 128) * spec_pow128(k))
        }
    }
}

/// An unsigned 32-bit LEB128 number at `pos`: at most five bytes, each
/// carrying seven bits, low bits first, the high bit of a byte set when
/// another byte follows; the fifth byte may carry only four bits.
pub open spec fn spec_read_u32(s: Seq<u8>, pos: int) -> Result<(u32, int), DecodeError> {
    spec_leb_u32_from(s, pos, 0, 0)
}

/// One byte at `pos`.
pub open spec fn spec_read_byte(s: Seq<u8>, pos: int) -> Result<(u8, int), DecodeError> {
    if 0 <= pos < s.len() {
        Ok((s[pos], pos + 1))
    } else {
        Err(DecodeError::UnexpectedEnd)
    }
}

/// A name at `pos`: a LEB128 byte count, then that many bytes of UTF-8.
pub open spec fn spec_read_name(s: Seq<u8>, pos: int) -> Result<(Seq<char>, int), DecodeError> {
    match spec_read_u32(s, pos) {
        Err(e) => Err(e),
        Ok((n, p)) => if p + n > s.len() {
            Err(DecodeError::UnexpectedEnd)
        } else if !valid_utf8(s.subrange(p, p + n)) {
            Err(DecodeError::InvalidUtf8)
        } else {
            Ok((decode_utf8(s.subrange(p, p + n)), p + n))
        },
    }
}

/// Limits at `pos`: flag 0 and a minimum, or flag 1, a minimum and a maximum.
pub open spec fn spec_read_limits(s: Seq<u8>, pos: int) -> Result<(Limits, int), DecodeError> {
    match spec_read_byte(s, pos) {
        Err(e) => Err(e),
        Ok((flag, p)) => if flag == 0 {
            match spec_read_u32(s, p) {
                Err(e) => Err(e),
                Ok((min, q)) => Ok((Limits { min, max: None }, q)),
            }
        } else if flag == 1 {
            match spec_read_u32(s, p) {
                Err(e) => Err(e),
                Ok((min, q)) => match spec_read_u32(s, q) {
                    Err(e) => Err(e),
                    Ok((max, r)) => Ok((Limits { min, max: Some(max) }, r)),
                },
            }
        } else {
            Err(DecodeError::UnknownLimitsFlag)
        },
    }
}

/// A reference type at `pos`: `0x70` for function references, `0x6f` for
/// external references.
pub open spec fn spec_read_ref_type(s: Seq<u8>, pos: int) -> Result<(RefType, int), DecodeError> {
    match spec_read_byte(s, pos) {
        Err(e) => Err(e),
        Ok((b, p)) => if b == 0x70 {
            Ok((RefType::HeapTypeRef(HeapType::Func), p))
        } else if b == 0x6f {
            Ok((RefType::HeapTypeRef(HeapType::Extern), p))
        } else {
            Err(DecodeError::UnknownRefType)
        },
    }
}

/// A table type at `pos`: its element type, then its limits.
pub open spec fn spec_read_table_type(s: Seq<u8>, pos: int) -> Result<(TableType, int), DecodeError> {
    match spec_read_ref_type(s, pos) {
        Err(e) => Err(e),
        Ok((elem_type, p)) => match spec_read_limits(s, p) {
            Err(e) => Err(e),
            Ok((limits, q)) => Ok((TableType { limits, elem_type }, q)),
        },
    }
}

/// A memory type at `pos`: its limits, in pages.
pub open spec fn spec_read_memory_type(s: Seq<u8>, pos: int) -> Result<(MemoryType, int), DecodeError> {
    match spec_read_limits(s, pos) {
        Err(e) => Err(e),
        Ok((l, p)) => Ok((MemoryType { initial: l.min, maximum: l.max }, p)),
    }
}

/// The name of the value type with code `b`, where `b` is one.
pub open spec fn spec_value_type_name(b: u8) -> Option<Seq<char>> {
    if b == 0x7f {
        Some("i32"@)
    } else if b == 0x7e {
        Some("i64"@)
    } else if b == 0x7d {
        Some("f32"@)
    } else if b == 0x7c {
        Some("f64"@)
    } else if b == 0x7b {
        Some("v128"@)
    } else if b == 0x70 {
        Some("funcref"@)
    } else if b == 0x6f {
        Some("externref"@)
    } else {
        None
    }
}

/// A global type at `pos`: a value type byte, then a mutability byte (0 for
/// constant, 1 for variable).
pub open spec fn spec_read_global_type(s: Seq<u8>, pos: int) -> Result<
    (GlobalTypeView, int),
    DecodeError,
> {
    match spec_read_byte(s, pos) {
        Err(e) => Err(e),
        Ok((vt, p)) => match spec_value_type_name(vt) {
            None => Err(DecodeError::UnknownValueType),
            Some(name) => match spec_read_byte(s, p) {
                Err(e) => Err(e),
                Ok((m, q)) => if m == 0 {
                    Ok((GlobalTypeView { value_type: name, mutable: false }, q))
                } else if m == 1 {
                    Ok((GlobalTypeView { value_type: name, mutable: true }, q))
                } else {
                    Err(DecodeError::UnknownMutability)
                },
            },
        },
    }
}

/// An import descriptor at `pos`: a kind byte, then what that kind carries.
pub open spec fn spec_read_descriptor(s: Seq<u8>, pos: int) -> Result<
    (ImportDescriptorView, int),
    DecodeError,
> {
    match spec_read_byte(s, pos) {
        Err(e) => Err(e),
        Ok((kind, p)) => if kind == 0 {
            match spec_read_u32(s, p) {
                Err(e) => Err(e),
                Ok((i, q)) => Ok((ImportDescriptorView::Function(i), q)),
            }
        } else if kind == 1 {
            match spec_read_table_type(s, p) {
                Err(e) => Err(e),
                Ok((t, q)) => Ok((ImportDescriptorView::Table(t), q)),
            }
        } else if kind == 2 {
            match spec_read_memory_type(s, p) {
                Err(e) => Err(e),
                Ok((m, q)) => Ok((ImportDescriptorView::Memory(m), q)),
            }
        } else if kind == 3 {
            match spec_read_global_type(s, p) {
                Err(e) => Err(e),
                Ok((g, q)) => Ok((ImportDescriptorView::Global(g), q)),
            }
        } else {
            Err(DecodeError::UnknownDescriptor)
        },
    }
}

/// One import at `pos`: module name, item name, descriptor.
pub open spec fn spec_read_import(s: Seq<u8>, pos: int) -> Result<(ImportEntryView, int), DecodeError> {
    match spec_read_name(s, pos) {
        Err(e) => Err(e),
        Ok((module_name, p)) => match spec_read_name(s, p) {
            Err(e) => Err(e),
            Ok((import_name, q)) => match spec_read_descriptor(s, q) {
                Err(e) => Err(e),
                Ok((descriptor, r)) => Ok((ImportEntryView { module_name, import_name, descriptor }, r)),
            },
        },
    }
}

/// The first `k` imports read one after another from `pos`.
pub open spec fn spec_read_imports(s: Seq<u8>, pos: int, k: nat) -> Result<
    (Seq<ImportEntryView>, int),
    DecodeError,
>
    decreases k,
{
    if k == 0 {
        Ok((Seq::empty(), pos))
    } else {
        match spec_read_imports(s, pos, (k - 1) as nat) {
            Err(e) => Err(e),
            Ok((entries, p)) => match spec_read_import(s, p) {
                Err(e) => Err(e),
                Ok((entry, q)) => Ok((entries.push(entry), q)),
            },
        }
    }
}

/// An import section: a LEB128 count, then that many imports. Bytes after
/// the last import are not read.
pub open spec fn spec_parse_import_section(s: Seq<u8>) -> Result<Seq<ImportEntryView>, DecodeError> {
    match spec_read_u32(s, 0) {
        Err(e) => Err(e),
        Ok((count, p)) => match spec_read_imports(s, p, count as nat) {
            Err(e) => Err(e),
            Ok((entries, _)) => Ok(entries),
        },
    }
}

/// The views of a sequence of entries.
pub open spec fn entries_view(v: Seq<ImportEntry>) -> Seq<ImportEntryView> {
    v.map_values(|e: ImportEntry| e@)
}


// ---------------------------------------------------------------------------
// The readers.
// ---------------------------------------------------------------------------

/// `std::str::from_utf8`: the bytes as a string slice when they are valid
/// UTF-8, and `None` when they are not. Its documentation states both: the
/// slice holds exactly the given bytes, and an error comes exactly when the
/// bytes are not UTF-8.
#[verifier::external_body]
fn utf8_str(bytes: &[u8]) -> (res: Option<&str>)
    ensures
        res is Some <==> valid_utf8(bytes@),
        res matches Some(s) ==> s.spec_bytes() == bytes@,
{
    match std::str::from_utf8(bytes) {
        Ok(s) => Some(s),
        Err(_) => None,
    }
}

/// Reads an unsigned 32-bit LEB128 number at `pos`; gives it and the position after it.
pub fn read_varuint32(bytes: &[u8], pos: usize) -> (res: Result<(u32, usize), DecodeError>)
    requires
        pos <= bytes@.len(),
    ensures
        match (res, spec_read_u32(bytes@, pos as int)) {
            (Ok((v, p)), Ok((w, q))) => v == w && p == q,
            (Err(e), Err(f)) => e == f,
            _ => false,
        },
        res matches Ok((_, p)) ==> pos < p <= bytes@.len(),
{
    let mut k: usize = 0;
    let mut acc: u64 = 0;
    let mut mult: u64 = 1;
    loop
        invariant
            pos <= bytes@.len(),
            k <= 4,
            mult == spec_pow128(k as int),
            acc < mult,
            spec_leb_u32_from(bytes@, pos as int, k as int, acc as int) == spec_read_u32(
                bytes@,
                pos as int,
            ),
        decreases 4 - k,
    {
        if bytes.len() - pos <= k {
            return Err(DecodeError::UnexpectedEnd);
        }
        let b = bytes[pos + k];
        if k == 4 {
            if b >= 16 {
                return Err(DecodeError::MalformedLeb128);
            }
            assert(acc + b * mult < 0x1_0000_0000) by (nonlinear_arith)
                requires
                    mult == 268435456,
                    acc < mult,
                    b < 16,
            ;
            let v = acc + (b as u64) * mult;
            return Ok((v as u32, pos + 5));
        } else if b < 128 {
            assert(acc + b * mult < 128 * mult) by (nonlinear_arith)
                requires
                    acc < mult,
                    b < 128,
            ;
            let v = acc + (b as u64) * mult;
            return Ok((v as u32, pos + k + 1));
        }
        assert(acc + (b - 128) * mult < 128 * mult) by (nonlinear_arith)
            requires
                acc < mult,
                128 <= b < 256,
        ;
        acc = acc + ((b - 128) as u64) * mult;
        mult = mult * 128;
        k = k + 1;
    }
}

/// Reads one byte at `pos`.
pub fn read_byte(bytes: &[u8], pos: usize) -> (res: Result<(u8, usize), DecodeError>)
    requires
        pos <= bytes@.len(),
    ensures
        match (res, spec_read_byte(bytes@, pos as int)) {
            (Ok((v, p)), Ok((w, q))) => v == w && p == q,
            (Err(e), Err(f)) => e == f,
            _ => false,
        },
        res matches Ok((_, p)) ==> pos < p <= bytes@.len(),
{
    if pos < bytes.len() {
        Ok((bytes[pos], pos + 1))
    } else {
        Err(DecodeError::UnexpectedEnd)
    }
}

/// Reads a name at `pos`: a byte count, then that many bytes of UTF-8.
pub fn read_name(bytes: &[u8], pos: usize) -> (res: Result<(String, usize), DecodeError>)
    requires
        pos <= bytes@.len(),
    ensures
        match (res, spec_read_name(bytes@, pos as int)) {
            (Ok((v, p)), Ok((w, q))) => v@ == w && p == q,
            (Err(e), Err(f)) => e == f,
            _ => false,
        },
        res matches Ok((_, p)) ==> pos < p <= bytes@.len(),
{
    let (n, p) = read_varuint32(bytes, pos)?;
    let n = n as usize;
    if n > bytes.len() - p {
        return Err(DecodeError::UnexpectedEnd);
    }
    let slice = &bytes[p..p + n];
    match utf8_str(slice) {
        Some(s) => {
            let name = s.to_owned();
            proof {
                assert(slice@ == bytes@.subrange(p as int, p + n));
                assert(decode_utf8(s.spec_bytes()) == s@);
            }
            Ok((name, p + n))
        },
        None => Err(DecodeError::InvalidUtf8),
    }
}

/// Reads limits at `pos`.
pub fn read_limits(bytes: &[u8], pos: usize) -> (res: Result<(Limits, usize), DecodeError>)
    requires
        pos <= bytes@.len(),
    ensures
        match (res, spec_read_limits(bytes@, pos as int)) {
            (Ok((v, p)), Ok((w, q))) => v == w && p == q,
            (Err(e), Err(f)) => e == f,
            _ => false,
        },
        res matches Ok((_, p)) ==> pos < p <= bytes@.len(),
{
    let (flag, p) = read_byte(bytes, pos)?;
    if flag == 0 {
        let (min, q) = read_varuint32(bytes, p)?;
        Ok((Limits { min, max: None }, q))
    } else if flag == 1 {
        let (min, q) = read_varuint32(bytes, p)?;
        let (max, r) = read_varuint32(bytes, q)?;
        Ok((Limits { min, max: Some(max) }, r))
    } else {
        Err(DecodeError::UnknownLimitsFlag)
    }
}

/// Reads a reference type at `pos`.
pub fn read_ref_type(bytes: &[u8], pos: usize) -> (res: Result<(RefType, usize), DecodeError>)
    requires
        pos <= bytes@.len(),
    ensures
        match (res, spec_read_ref_type(bytes@, pos as int)) {
            (Ok((v, p)), Ok((w, q))) => v == w && p == q,
            (Err(e), Err(f)) => e == f,
            _ => false,
        },
        res matches Ok((_, p)) ==> pos < p <= bytes@.len(),
{
    let (b, p) = read_byte(bytes, pos)?;
    if b == 0x70 {
        Ok((RefType::HeapTypeRef(HeapType::Func), p))
    } else if b == 0x6f {
        Ok((RefType::HeapTypeRef(HeapType::Extern), p))
    } else {
        Err(DecodeError::UnknownRefType)
    }
}

/// Reads a table type at `pos`.
pub fn read_table_type(bytes: &[u8], pos: usize) -> (res: Result<(TableType, usize), DecodeError>)
    requires
        pos <= bytes@.len(),
    ensures
        match (res, spec_read_table_type(bytes@, pos as int)) {
            (Ok((v, p)), Ok((w, q))) => v == w && p == q,
            (Err(e), Err(f)) => e == f,
            _ => false,
        },
        res matches Ok((_, p)) ==> pos < p <= bytes@.len(),
{
    let (elem_type, p) = read_ref_type(bytes, pos)?;
    let (limits, q) = read_limits(bytes, p)?;
    Ok((TableType { limits, elem_type }, q))
}

/// Reads a memory type at `pos`.
pub fn read_memory_type(bytes: &[u8], pos: usize) -> (res: Result<(MemoryType, usize), DecodeError>)
    requires
        pos <= bytes@.len(),
    ensures
        match (res, spec_read_memory_type(bytes@, pos as int)) {
            (Ok((v, p)), Ok((w, q))) => v == w && p == q,
            (Err(e), Err(f)) => e == f,
            _ => false,
        },
        res matches Ok((_, p)) ==> pos < p <= bytes@.len(),
{
    let (l, p) = read_limits(bytes, pos)?;
    Ok((MemoryType { initial: l.min, maximum: l.max }, p))
}

/// The name of the value type with code `b`, where `b` is one.
pub fn value_type_name(b: u8) -> (res: Option<String>)
    ensures
        match (res, spec_value_type_name(b)) {
            (Some(s), Some(t)) => s@ == t,
            (None, None) => true,
            _ => false,
        },
{
    if b == 0x7f {
        Some("i32".to_owned())
    } else if b == 0x7e {
        Some("i64".to_owned())
    } else if b == 0x7d {
        Some("f32".to_owned())
    } else if b == 0x7c {
        Some("f64".to_owned())
    } else if b == 0x7b {
        Some("v128".to_owned())
    } else if b == 0x70 {
        Some("funcref".to_owned())
    } else if b == 0x6f {
        Some("externref".to_owned())
    } else {
        None
    }
}

/// Reads a global type at `pos`.
pub fn read_global_type(bytes: &[u8], pos: usize) -> (res: Result<(GlobalType, usize), DecodeError>)
    requires
        pos <= bytes@.len(),
    ensures
        match (res, spec_read_global_type(bytes@, pos as int)) {
            (Ok((v, p)), Ok((w, q))) => v@ == w && p == q,
            (Err(e), Err(f)) => e == f,
            _ => false,
        },
        res matches Ok((_, p)) ==> pos < p <= bytes@.len(),
{
    let (vt, p) = read_byte(bytes, pos)?;
    let value_type = match value_type_name(vt) {
        Some(name) => name,
        None => {
            return Err(DecodeError::UnknownValueType);
        },
    };
    let (m, q) = read_byte(bytes, p)?;
    if m == 0 {
        Ok((GlobalType { value_type, mutable: false }, q))
    } else if m == 1 {
        Ok((GlobalType { value_type, mutable: true }, q))
    } else {
        Err(DecodeError::UnknownMutability)
    }
}

/// Reads an import descriptor at `pos`.
pub fn read_descriptor(bytes: &[u8], pos: usize) -> (res: Result<(ImportDescriptor, usize), DecodeError>)
    requires
        pos <= bytes@.len(),
    ensures
        match (res, spec_read_descriptor(bytes@, pos as int)) {
            (Ok((v, p)), Ok((w, q))) => v@ == w && p == q,
            (Err(e), Err(f)) => e == f,
            _ => false,
        },
        res matches Ok((_, p)) ==> pos < p <= bytes@.len(),
{
    let (kind, p) = read_byte(bytes, pos)?;
    if kind == 0 {
        let (i, q) = read_varuint32(bytes, p)?;
        Ok((ImportDescriptor::Function(i), q))
    } else if kind == 1 {
        let (t, q) = read_table_type(bytes, p)?;
        Ok((ImportDescriptor::Table(t), q))
    } else if kind == 2 {
        let (m, q) = read_memory_type(bytes, p)?;
        Ok((ImportDescriptor::Memory(m), q))
    } else if kind == 3 {
        let (g, q) = read_global_type(bytes, p)?;
        Ok((ImportDescriptor::Global(g), q))
    } else {
        Err(DecodeError::UnknownDescriptor)
    }
}

/// Reads one import at `pos`.
pub fn read_import(bytes: &[u8], pos: usize) -> (res: Result<(ImportEntry, usize), DecodeError>)
    requires
        pos <= bytes@.len(),
    ensures
        match (res, spec_read_import(bytes@, pos as int)) {
            (Ok((v, p)), Ok((w, q))) => v@ == w && p == q,
            (Err(e), Err(f)) => e == f,
            _ => false,
        },
        res matches Ok((_, p)) ==> pos < p <= bytes@.len(),
{
    let (module_name, p) = read_name(bytes, pos)?;
    let (import_name, q) = read_name(bytes, p)?;
    let (descriptor, r) = read_descriptor(bytes, q)?;
    Ok((ImportEntry { module_name, import_name, descriptor }, r))
}

/// Once reading the first `k` imports fails, reading more fails with the same error.
pub proof fn lemma_read_imports_error_persists(s: Seq<u8>, pos: int, k: nat, n: nat)
    requires
        k <= n,
        spec_read_imports(s, pos, k) is Err,
    ensures
        spec_read_imports(s, pos, n) == spec_read_imports(s, pos, k),
    decreases n - k,
{
    if k < n {
        lemma_read_imports_error_persists(s, pos, k, (n - 1) as nat);
    }
}

/// Parses the contents of an import section: a count, then that many
/// imports. Bytes after the last import are left unread.
pub fn parse_import_section(bytes: &[u8]) -> (res: Result<Vec<ImportEntry>, &'static str>)
    ensures
        match (res, spec_parse_import_section(bytes@)) {
            (Ok(v), Ok(es)) => entries_view(v@) == es,
            (Err(m), Err(e)) => m == spec_decode_error_message(e),
            _ => false,
        },
{
    let mut imports: Vec<ImportEntry> = Vec::new();
    let (import_count, start) = match read_varuint32(bytes, 0) {
        Ok(r) => r,
        Err(e) => {
            return Err(decode_error_message(e));
        },
    };
    let mut pos = start;
    let mut i: u32 = 0;
    assert(entries_view(imports@) =~= Seq::<ImportEntryView>::empty());
    while i < import_count
        invariant
            start <= pos <= bytes@.len(),
            i <= import_count,
            spec_read_u32(bytes@, 0) == Ok::<(u32, int), DecodeError>((import_count, start as int)),
            spec_read_imports(bytes@, start as int, i as nat) == Ok::<
                (Seq<ImportEntryView>, int),
                DecodeError,
            >((entries_view(imports@), pos as int)),
        decreases import_count - i,
    {
        match read_import(bytes, pos) {
            Ok((entry, next)) => {
                proof {
                    assert(entries_view(imports@.push(entry)) =~= entries_view(imports@).push(
                        entry@,
                    ));
                }
                imports.push(entry);
                pos = next;
            },
            Err(e) => {
                proof {
                    lemma_read_imports_error_persists(
                        bytes@,
                        start as int,
                        (i + 1) as nat,
                        import_count as nat,
                    );
                }
                return Err(decode_error_message(e));
            },
        }
        i = i + 1;
    }
    Ok(imports)
}

// ---------------------------------------------------------------------------
// Bytes after what is read do not change what is read.
// ---------------------------------------------------------------------------

proof fn lemma_leb_prefix(s: Seq<u8>, t: Seq<u8>, pos: int, k: int, acc: int)
    requires
        0 <= pos,
        spec_leb_u32_from(s, pos, k, acc) is Ok,
    ensures
        spec_leb_u32_from(s + t, pos, k, acc) == spec_leb_u32_from(s, pos, k, acc),
    decreases 4 - k,
{
    if 0 <= k <= 4 && pos + k < s.len() {
        let b = s[pos + k];
        assert((s + t)[pos + k] == b);
        if k < 4 && b >= 128 {
            lemma_leb_prefix(s, t, pos, k + 1, acc + (b - 128) * spec_pow128(k));
        }
    }
}

proof fn lemma_read_u32_prefix(s: Seq<u8>, t: Seq<u8>, pos: int)
    requires
        0 <= pos,
        spec_read_u32(s, pos) is Ok,
    ensures
        spec_read_u32(s + t, pos) == spec_read_u32(s, pos),
        spec_read_u32(s, pos)->Ok_0.1 <= s.len(),
{
    lemma_leb_prefix(s, t, pos, 0, 0);
    lemma_leb_end(s, pos, 0, 0);
}

proof fn lemma_leb_end(s: Seq<u8>, pos: int, k: int, acc: int)
    requires
        spec_leb_u32_from(s, pos, k, acc) is Ok,
    ensures
        spec_leb_u32_from(s, pos, k, acc)->Ok_0.1 <= s.len(),
        spec_leb_u32_from(s, pos, k, acc)->Ok_0.1 > pos,
    decreases 4 - k,
{
    if 0 <= k <= 4 && pos + k < s.len() {
        let b = s[pos + k];
        if k < 4 && b >= 128 {
            lemma_leb_end(s, pos, k + 1, acc + (b - 128) * spec_pow128(k));
        }
    }
}

proof fn lemma_read_byte_prefix(s: Seq<u8>, t: Seq<u8>, pos: int)
    requires
        spec_read_byte(s, pos) is Ok,
    ensures
        spec_read_byte(s + t, pos) == spec_read_byte(s, pos),
        spec_read_byte(s, pos)->Ok_0.1 <= s.len(),
        spec_read_byte(s, pos)->Ok_0.1 > pos,
{
}

proof fn lemma_read_name_prefix(s: Seq<u8>, t: Seq<u8>, pos: int)
    requires
        0 <= pos,
        spec_read_name(s, pos) is Ok,
    ensures
        spec_read_name(s + t, pos) == spec_read_name(s, pos),
        pos < spec_read_name(s, pos)->Ok_0.1 <= s.len(),
{
    lemma_read_u32_prefix(s, t, pos);
    lemma_leb_end(s, pos, 0, 0);
    let (n, p) = spec_read_u32(s, pos)->Ok_0;
    assert((s + t).subrange(p, p + n) =~= s.subrange(p, p + n));
}

proof fn lemma_read_limits_prefix(s: Seq<u8>, t: Seq<u8>, pos: int)
    requires
        0 <= pos,
        spec_read_limits(s, pos) is Ok,
    ensures
        spec_read_limits(s + t, pos) == spec_read_limits(s, pos),
        pos < spec_read_limits(s, pos)->Ok_0.1 <= s.len(),
{
    lemma_read_byte_prefix(s, t, pos);
    let p = pos + 1;
    lemma_read_u32_prefix(s, t, p);
    lemma_leb_end(s, p, 0, 0);
    if s[pos] == 1 {
        let q = spec_read_u32(s, p)->Ok_0.1;
        lemma_read_u32_prefix(s, t, q);
        lemma_leb_end(s, q, 0, 0);
    }
}

proof fn lemma_read_descriptor_prefix(s: Seq<u8>, t: Seq<u8>, pos: int)
    requires
        0 <= pos,
        spec_read_descriptor(s, pos) is Ok,
    ensures
        spec_read_descriptor(s + t, pos) == spec_read_descriptor(s, pos),
        pos < spec_read_descriptor(s, pos)->Ok_0.1 <= s.len(),
{
    lemma_read_byte_prefix(s, t, pos);
    let kind = s[pos];
    let p = pos + 1;
    if kind == 0 {
        lemma_read_u32_prefix(s, t, p);
        lemma_leb_end(s, p, 0, 0);
    } else if kind == 1 {
        lemma_read_byte_prefix(s, t, p);
        lemma_read_limits_prefix(s, t, p + 1);
    } else if kind == 2 {
        lemma_read_limits_prefix(s, t, p);
    } else {
        lemma_read_byte_prefix(s, t, p);
        lemma_read_byte_prefix(s, t, p + 1);
    }
}

proof fn lemma_read_import_prefix(s: Seq<u8>, t: Seq<u8>, pos: int)
    requires
        0 <= pos,
        spec_read_import(s, pos) is Ok,
    ensures
        spec_read_import(s + t, pos) == spec_read_import(s, pos),
        pos < spec_read_import(s, pos)->Ok_0.1 <= s.len(),
{
    lemma_read_name_prefix(s, t, pos);
    let p = spec_read_name(s, pos)->Ok_0.1;
    lemma_read_name_prefix(s, t, p);
    let q = spec_read_name(s, p)->Ok_0.1;
    lemma_read_descriptor_prefix(s, t, q);
}

proof fn lemma_read_imports_prefix(s: Seq<u8>, t: Seq<u8>, pos: int, k: nat)
    requires
        0 <= pos,
        spec_read_imports(s, pos, k) is Ok,
    ensures
        spec_read_imports(s + t, pos, k) == spec_read_imports(s, pos, k),
        pos <= spec_read_imports(s, pos, k)->Ok_0.1,
    decreases k,
{
    if k > 0 {
        let prev = spec_read_imports(s, pos, (k - 1) as nat);
        if prev is Err {
            lemma_read_imports_error_persists(s, pos, (k - 1) as nat, k);
        }
        lemma_read_imports_prefix(s, t, pos, (k - 1) as nat);
        let p = prev->Ok_0.1;
        lemma_read_import_prefix(s, t, p);
    }
}

/// A memory type is its limits: a flag byte 0 and a minimum `min` give that
/// minimum and no maximum; a flag byte 1, a minimum `min` and a maximum
/// `max` give both. As an import descriptor it follows the kind byte 2.
pub proof fn law_memory_type_is_its_limits(s: Seq<u8>, pos: int, min: u32, p: int, max: u32, q: int)
    ensures
        0 <= pos < s.len() && s[pos] == 0 && spec_read_u32(s, pos + 1) == Ok::<(u32, int), DecodeError>((min, p))
            ==> spec_read_memory_type(s, pos) == Ok::<(MemoryType, int), DecodeError>(
            (MemoryType { initial: min, maximum: None }, p),
        ),
        0 <= pos < s.len() && s[pos] == 1 && spec_read_u32(s, pos + 1) == Ok::<(u32, int), DecodeError>((min, p))
            && spec_read_u32(s, p) == Ok::<(u32, int), DecodeError>((max, q)) ==> spec_read_memory_type(s, pos)
            == Ok::<(MemoryType, int), DecodeError>((MemoryType { initial: min, maximum: Some(max) }, q)),
        0 <= pos < s.len() && s[pos] == 2 && s[pos + 1] == 1 && spec_read_u32(s, pos + 2) == Ok::<
            (u32, int),
            DecodeError,
        >((min, p)) && spec_read_u32(s, p) == Ok::<(u32, int), DecodeError>((max, q))
            ==> spec_read_descriptor(s, pos) == Ok::<(ImportDescriptorView, int), DecodeError>(
            (ImportDescriptorView::Memory(MemoryType { initial: min, maximum: Some(max) }), q),
        ),
        spec_read_limits(s, pos) is Err ==> spec_read_memory_type(s, pos) is Err,
{
}

/// As an import descriptor, the kind byte 0 is followed by a function's
/// type index, and the kind byte 3 by a global's value type byte and a
/// mutability byte, 1 for mutable and 0 for constant.
pub proof fn law_function_and_global_descriptors(s: Seq<u8>, pos: int, index: u32, q: int)
    ensures
        0 <= pos < s.len() && s[pos] == 0 && spec_read_u32(s, pos + 1) == Ok::<(u32, int), DecodeError>((index, q))
            ==> spec_read_descriptor(s, pos) == Ok::<(ImportDescriptorView, int), DecodeError>(
            (ImportDescriptorView::Function(index), q),
        ),
        0 <= pos && pos + 2 < s.len() && s[pos] == 3 && spec_value_type_name(s[pos + 1]) is Some && (
        s[pos + 2] == 0 || s[pos + 2] == 1) ==> spec_read_descriptor(s, pos) == Ok::<
            (ImportDescriptorView, int),
            DecodeError,
        >(
            (
                ImportDescriptorView::Global(
                    GlobalTypeView {
                        value_type: spec_value_type_name(s[pos + 1])->Some_0,
                        mutable: s[pos + 2] == 1,
                    },
                ),
                pos + 3,
            ),
        ),
{
}

/// A table type is a reference type followed by limits.
pub proof fn law_table_type(s: Seq<u8>, pos: int, t: RefType, p: int, l: Limits, q: int)
    ensures
        spec_read_ref_type(s, pos) == Ok::<(RefType, int), DecodeError>((t, p)) && spec_read_limits(s, p)
            == Ok::<(Limits, int), DecodeError>((l, q)) ==> spec_read_table_type(s, pos) == Ok::<
            (TableType, int),
            DecodeError,
        >((TableType { limits: l, elem_type: t }, q)),
{
}

/// Bytes after a well-formed import section do not change what is read
/// from it: the section is read as a prefix, and what follows is left alone.
pub proof fn law_import_section_ignores_trailing_bytes(s: Seq<u8>, t: Seq<u8>)
    requires
        spec_parse_import_section(s) is Ok,
    ensures
        spec_parse_import_section(s + t) == spec_parse_import_section(s),
{
    lemma_read_u32_prefix(s, t, 0);
    lemma_leb_end(s, 0, 0, 0);
    let (count, p) = spec_read_u32(s, 0)->Ok_0;
    lemma_read_imports_prefix(s, t, p, count as nat);
}

proof fn lemma_read_imports_len(s: Seq<u8>, pos: int, k: nat)
    ensures
        spec_read_imports(s, pos, k) matches Ok((es, _)) ==> es.len() == k,
    decreases k,
{
    if k > 0 {
        lemma_read_imports_len(s, pos, (k - 1) as nat);
    }
}

/// An import is a module name, an item name and a descriptor, read one
/// after the other.
pub proof fn law_import_entry(
    s: Seq<u8>,
    pos: int,
    module_name: Seq<char>,
    p: int,
    import_name: Seq<char>,
    q: int,
    descriptor: ImportDescriptorView,
    r: int,
)
    ensures
        spec_read_name(s, pos) == Ok::<(Seq<char>, int), DecodeError>((module_name, p)) && spec_read_name(s, p)
            == Ok::<(Seq<char>, int), DecodeError>((import_name, q)) && spec_read_descriptor(s, q) == Ok::<
            (ImportDescriptorView, int),
            DecodeError,
        >((descriptor, r)) ==> spec_read_import(s, pos) == Ok::<(ImportEntryView, int), DecodeError>(
            (ImportEntryView { module_name, import_name, descriptor }, r),
        ),
{
}

/// An import section that reads has exactly as many entries as the count
/// at its head; a count of 0 gives no entry, and a count of 1 gives the one
/// import that follows the count.
pub proof fn law_import_section_count(s: Seq<u8>, p: int, entry: ImportEntryView, q: int)
    ensures
        spec_parse_import_section(s) matches Ok(es) ==> (spec_read_u32(s, 0) matches Ok((count, _))
            && es.len() == count),
        spec_read_u32(s, 0) == Ok::<(u32, int), DecodeError>((0u32, p)) ==> spec_parse_import_section(s)
            == Ok::<Seq<ImportEntryView>, DecodeError>(Seq::empty()),
        spec_read_u32(s, 0) == Ok::<(u32, int), DecodeError>((1u32, p)) && spec_read_import(s, p) == Ok::<
            (ImportEntryView, int),
            DecodeError,
        >((entry, q)) ==> spec_parse_import_section(s) == Ok::<Seq<ImportEntryView>, DecodeError>(
            seq![entry],
        ),
{
    if let Ok((count, p0)) = spec_read_u32(s, 0) {
        lemma_read_imports_len(s, p0, count as nat);
        assert(spec_read_imports(s, p0, 0) == Ok::<(Seq<ImportEntryView>, int), DecodeError>((Seq::empty(), p0)));
        assert(Seq::<ImportEntryView>::empty().push(entry) =~= seq![entry]);
    }
}

/// An unsigned LEB128 number: a byte below 128 is the number itself; a
/// byte `b0` of 128 or more followed by a byte `b1` below 128 is
/// `b0 - 128 + 128 * b1`; bytes that end before a byte below 128 give an
/// error.
pub proof fn law_leb128_u32(s: Seq<u8>, pos: int)
    ensures
        0 <= pos < s.len() && s[pos] < 128 ==> spec_read_u32(s, pos) == Ok::<(u32, int), DecodeError>(
            (s[pos] as u32, pos + 1),
        ),
        0 <= pos && pos + 1 < s.len() && s[pos] >= 128 && s[pos + 1] < 128 ==> spec_read_u32(s, pos)
            == Ok::<(u32, int), DecodeError>((((s[pos] - 128) + 128 * s[pos + 1]) as u32, pos + 2)),
        0 <= pos && pos >= s.len() ==> spec_read_u32(s, pos) is Err,
        0 <= pos && pos + 1 == s.len() && s[pos] >= 128 ==> spec_read_u32(s, pos) is Err,
{
    reveal_with_fuel(spec_leb_u32_from, 3);
}

} // verus!
