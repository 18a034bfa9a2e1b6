use vstd::prelude::*;
use vstd::utf8::valid_utf8;

use crate::debug_data::{
    functions_view, variables_view, DebugInfoStorage, Function, FunctionView, Variable,
    VariableView,
};
use crate::die_types::models::die::{
    AttrValue, Attribute, DebugInfoEntry, DW_AT_HIGH_PC, DW_AT_LOCATION, DW_AT_LOW_PC, DW_AT_NAME,
    DW_AT_TYPE, DW_TAG_SUBPROGRAM, DW_TAG_VARIABLE,
};
use crate::dwarf_reader::{endian_slice_to_string, spec_gimli_error, GimliErrorKind};
use crate::error::DebuggerError;
use crate::custom_sections::{
    parse_custom_section, spec_parse_custom_section, DwarfSections, DwarfSectionsView,
};
use crate::source_maps::{OperatorKind, SourceMap};
use crate::text::str_eq;
use crate::wasm_sections::import_section::spec_read_u32;
use crate::wasm_reader::{
    body_operators, code_section_count, code_section_ensure_end, code_section_new,
    code_section_read, control_operator_kind, dwarf_units, export_section_count,
    export_section_ensure_end, export_section_read, function_section_count,
    function_section_ensure_end, function_section_read, gimli_dwarf, import_section_count,
    import_section_ensure_end, import_section_read, module_payloads, next_payload,
    next_unit_header, numeric_operator_kind, operators_read, operators_read_with_offset,
    spec_code_section_at_end, spec_debug_info_headers, spec_export_section_count,
    spec_export_section_ends, spec_export_section_left, spec_export_section_reads_fully,
    spec_function_section_count, spec_function_section_ends, spec_function_section_left,
    spec_function_section_reads_fully, spec_import_section_count, spec_import_section_ends,
    spec_import_section_left, spec_import_section_reads_fully, spec_module_payloads,
    spec_operator_offsets, spec_payloads_left, spec_type_section_count, spec_type_section_ends,
    spec_type_section_left, spec_type_section_reads_fully, spec_unit_builds,
    spec_unit_headers_left, type_section_count, type_section_ensure_end, type_section_read,
    unit_new, PayloadView, UnitHeaderView, WasmPayload,
};

verus! {

/// Whether `name` is one of the DWARF section names that the debugger knows.
pub open spec fn spec_is_dwarf_section(name: Seq<char>) -> bool {
    ||| name == ".debug_info"@
    ||| name == ".debug_line"@
    ||| name == ".debug_abbrev"@
    ||| name == ".debug_str"@
    ||| name == ".debug_ranges"@
    ||| name == ".debug_pubtypes"@
    ||| name == ".debug_pubnames"@
}

/// Whether `name` is one of the DWARF section names that the debugger knows:
/// `.debug_info`, `.debug_line`, `.debug_abbrev`, `.debug_str`,
/// `.debug_ranges`, `.debug_pubtypes`, `.debug_pubnames`.
pub fn is_dwarf_section(name: &str) -> (r: bool)
    ensures
        r == spec_is_dwarf_section(name@),
{
    str_eq(name, ".debug_info") || str_eq(name, ".debug_line") || str_eq(name, ".debug_abbrev")
        || str_eq(name, ".debug_str") || str_eq(name, ".debug_ranges") || str_eq(
        name,
        ".debug_pubtypes",
    ) || str_eq(name, ".debug_pubnames")
}

/// The address of the last of the first `k` attributes that is named `name`
/// and holds an address.
pub open spec fn spec_last_addr(attrs: Seq<Attribute>, name: u16, k: int) -> Option<u64>
    decreases k,
{
    if k <= 0 {
        None
    } else if attrs[k - 1].name == name && attrs[k - 1].value is Addr {
        Some(attrs[k - 1].value->Addr_0)
    } else {
        spec_last_addr(attrs, name, k - 1)
    }
}

/// The address of the last attribute of `e` named `name` that holds an address.
pub open spec fn spec_entry_last_addr(e: DebugInfoEntry, name: u16) -> Option<u64> {
    spec_last_addr(e.attrs@, name, e.attrs@.len() as int)
}

/// `o`'s value, or `d` where there is none.
pub open spec fn spec_unwrap_or(o: Option<u64>, d: u64) -> u64 {
    match o {
        Some(v) => v,
        None => d,
    }
}

/// The function that a subprogram entry describes: no name, its address the
/// last `DW_AT_low_pc` address, its size the last `DW_AT_high_pc` address (0
/// where there is none), no parameters and no local variables.
pub open spec fn spec_parse_function(e: DebugInfoEntry) -> FunctionView {
    FunctionView {
        name: Seq::empty(),
        address: spec_unwrap_or(spec_entry_last_addr(e, DW_AT_LOW_PC), 0),
        size: spec_unwrap_or(spec_entry_last_addr(e, DW_AT_HIGH_PC), 0),
        parameters: Seq::empty(),
        local_variables: Seq::empty(),
    }
}

/// Reads the function that a subprogram entry describes.
pub fn parse_function(entry: &DebugInfoEntry) -> (res: Result<Function, DebuggerError>)
    ensures
        res matches Ok(f) && f@ == spec_parse_function(*entry),
{
    let mut address: Option<u64> = None;
    let mut size: Option<u64> = None;
    let mut i: usize = 0;
    while i < entry.attrs.len()
        invariant
            i <= entry.attrs@.len(),
            address == spec_last_addr(entry.attrs@, DW_AT_LOW_PC, i as int),
            size == spec_last_addr(entry.attrs@, DW_AT_HIGH_PC, i as int),
        decreases entry.attrs@.len() - i,
    {
        let attr = &entry.attrs[i];
        if attr.name == DW_AT_LOW_PC {
            if let AttrValue::Addr(value) = attr.value {
                address = Some(value);
            }
        } else if attr.name == DW_AT_HIGH_PC {
            if let AttrValue::Addr(value) = attr.value {
                size = Some(value);
            }
        }
        i = i + 1;
    }
    let f = Function {
        name: String::new(),
        address: match address {
            Some(a) => a,
            None => 0,
        },
        size: match size {
            Some(s) => s,
            None => 0,
        },
        parameters: Vec::new(),
        local_variables: Vec::new(),
    };
    assert(f@.parameters =~= Seq::<VariableView>::empty());
    assert(f@.local_variables =~= Seq::<VariableView>::empty());
    Ok(f)
}

/// Among the first `k` attributes, the last one named `name` holding an
/// address is the one at `i` when no later one before `k` is.
proof fn lemma_last_addr_at(attrs: Seq<Attribute>, name: u16, k: int, i: int)
    requires
        0 <= i < k <= attrs.len(),
        attrs[i].name == name,
        attrs[i].value is Addr,
        forall|j: int| i < j < k ==> !(#[trigger] attrs[j].name == name && attrs[j].value is Addr),
    ensures
        spec_last_addr(attrs, name, k) == Some(attrs[i].value->Addr_0),
    decreases k,
{
    if k - 1 > i {
        lemma_last_addr_at(attrs, name, k - 1, i);
    }
}

/// Among the first `k` attributes none named `name` holds an address.
proof fn lemma_last_addr_none(attrs: Seq<Attribute>, name: u16, k: int)
    requires
        k <= attrs.len(),
        forall|j: int| 0 <= j < k ==> !(#[trigger] attrs[j].name == name && attrs[j].value is Addr),
    ensures
        spec_last_addr(attrs, name, k) is None,
    decreases k,
{
    if k > 0 {
        lemma_last_addr_none(attrs, name, k - 1);
    }
}

/// Where the attribute at `i` is the last one named `name` that holds an
/// address, that address is the entry's last address for `name`; where no
/// attribute named `name` holds an address, there is none.
pub proof fn law_entry_last_addr(e: DebugInfoEntry, name: u16, i: int)
    ensures
        0 <= i < e.attrs@.len() && e.attrs@[i].name == name && e.attrs@[i].value is Addr && (forall|
            j: int,
        | i < j < e.attrs@.len() ==> !(#[trigger] e.attrs@[j].name == name && e.attrs@[j].value is Addr))
            ==> spec_entry_last_addr(e, name) == Some(e.attrs@[i].value->Addr_0),
        (forall|j: int|
            0 <= j < e.attrs@.len() ==> !(#[trigger] e.attrs@[j].name == name && e.attrs@[j].value is Addr))
            ==> spec_entry_last_addr(e, name) is None,
{
    if 0 <= i < e.attrs@.len() && e.attrs@[i].name == name && e.attrs@[i].value is Addr && (forall|
        j: int,
    | i < j < e.attrs@.len() ==> !(#[trigger] e.attrs@[j].name == name && e.attrs@[j].value is Addr)) {
        lemma_last_addr_at(e.attrs@, name, e.attrs@.len() as int, i);
    }
    if forall|j: int|
        0 <= j < e.attrs@.len() ==> !(#[trigger] e.attrs@[j].name == name && e.attrs@[j].value is Addr) {
        lemma_last_addr_none(e.attrs@, name, e.attrs@.len() as int);
    }
}

/// The function read from a subprogram entry has as its address the
/// address of its last `DW_AT_low_pc` attribute that holds one, and as its
/// size that of its last `DW_AT_high_pc` attribute that holds one (0 where
/// there is none); it has no name, parameters or local variables.
pub proof fn law_function_address_and_size(e: DebugInfoEntry, low: int, high: int)
    ensures
        0 <= low < e.attrs@.len() && e.attrs@[low].name == DW_AT_LOW_PC && e.attrs@[low].value is Addr
            && (forall|j: int|
            low < j < e.attrs@.len() ==> !(#[trigger] e.attrs@[j].name == DW_AT_LOW_PC
                && e.attrs@[j].value is Addr)) ==> spec_parse_function(e).address
            == e.attrs@[low].value->Addr_0,
        0 <= high < e.attrs@.len() && e.attrs@[high].name == DW_AT_HIGH_PC && e.attrs@[high].value is Addr
            && (forall|j: int|
            high < j < e.attrs@.len() ==> !(#[trigger] e.attrs@[j].name == DW_AT_HIGH_PC
                && e.attrs@[j].value is Addr)) ==> spec_parse_function(e).size
            == e.attrs@[high].value->Addr_0,
        (forall|j: int|
            0 <= j < e.attrs@.len() ==> !(#[trigger] e.attrs@[j].name == DW_AT_LOW_PC
                && e.attrs@[j].value is Addr)) ==> spec_parse_function(e).address == 0,
        (forall|j: int|
            0 <= j < e.attrs@.len() ==> !(#[trigger] e.attrs@[j].name == DW_AT_HIGH_PC
                && e.attrs@[j].value is Addr)) ==> spec_parse_function(e).size == 0,
        spec_parse_function(e).name.len() == 0,
        spec_parse_function(e).parameters.len() == 0,
        spec_parse_function(e).local_variables.len() == 0,
{
    law_entry_last_addr(e, DW_AT_LOW_PC, low);
    law_entry_last_addr(e, DW_AT_HIGH_PC, high);
}

/// The global variable read from a variable entry has as its address that
/// of its last `DW_AT_location` attribute holding one, or none.
pub proof fn law_variable_address(e: DebugInfoEntry, i: int)
    ensures
        0 <= i < e.attrs@.len() && e.attrs@[i].name == DW_AT_LOCATION && e.attrs@[i].value is Addr
            && (forall|j: int|
            i < j < e.attrs@.len() ==> !(#[trigger] e.attrs@[j].name == DW_AT_LOCATION
                && e.attrs@[j].value is Addr)) ==> spec_parse_variable(e).address == Some(
            e.attrs@[i].value->Addr_0,
        ),
        (forall|j: int|
            0 <= j < e.attrs@.len() ==> !(#[trigger] e.attrs@[j].name == DW_AT_LOCATION
                && e.attrs@[j].value is Addr)) ==> spec_parse_variable(e).address is None,
{
    law_entry_last_addr(e, DW_AT_LOCATION, i);
}

/// A `DW_AT_name` attribute holding an inline string that is not UTF-8.
pub open spec fn spec_is_bad_name(a: Attribute) -> bool {
    a.name == DW_AT_NAME && a.value is Str && !valid_utf8(a.value->Str_0@)
}

/// A `DW_AT_type` attribute holding a `.debug_types` signature.
pub open spec fn spec_is_types_ref(a: Attribute) -> bool {
    a.name == DW_AT_TYPE && a.value is DebugTypesRef
}

/// Some attribute of `e` is a name that is not UTF-8.
pub open spec fn spec_has_bad_name(e: DebugInfoEntry) -> bool {
    exists|i: int| 0 <= i < e.attrs@.len() && #[trigger] spec_is_bad_name(e.attrs@[i])
}

/// The variable that a variable entry describes: no name, the type
/// `TypePlaceholder` where a `DW_AT_type` attribute holds a `.debug_types`
/// signature (else the empty type), and the last `DW_AT_location` address.
pub open spec fn spec_parse_variable(e: DebugInfoEntry) -> VariableView {
    VariableView {
        name: Seq::empty(),
        var_type: if exists|i: int| 0 <= i < e.attrs@.len() && #[trigger] spec_is_types_ref(e.attrs@[i]) {
            "TypePlaceholder"@
        } else {
            Seq::empty()
        },
        address: spec_entry_last_addr(e, DW_AT_LOCATION),
    }
}

/// Reads the variable that a variable entry describes. It fails, with a
/// DWARF error, exactly when a name attribute holds an inline string that is
/// not UTF-8.
pub fn parse_variable(entry: &DebugInfoEntry) -> (res: Result<Variable, DebuggerError>)
    ensures
        res is Err <==> spec_has_bad_name(*entry),
        res matches Err(e) ==> e == DebuggerError::Gimli(spec_gimli_error(GimliErrorKind::BadUtf8)),
        res matches Ok(v) ==> v@ == spec_parse_variable(*entry),
{
    let mut var_type: Option<String> = None;
    let mut address: Option<u64> = None;
    let mut i: usize = 0;
    while i < entry.attrs.len()
        invariant
            i <= entry.attrs@.len(),
            forall|j: int| 0 <= j < i ==> !#[trigger] spec_is_bad_name(entry.attrs@[j]),
            var_type is Some <==> exists|j: int| 0 <= j < i && #[trigger] spec_is_types_ref(entry.attrs@[j]),
            var_type matches Some(t) ==> t@ == "TypePlaceholder"@,
            address == spec_last_addr(entry.attrs@, DW_AT_LOCATION, i as int),
        decreases entry.attrs@.len() - i,
    {
        let attr = &entry.attrs[i];
        if attr.name == DW_AT_NAME {
            if let AttrValue::Str(value) = &attr.value {
                match endian_slice_to_string(value.as_slice()) {
                    Ok(_name) => {},
                    Err(e) => {
                        assert(spec_is_bad_name(entry.attrs@[i as int]));
                        return Err(DebuggerError::Gimli(e));
                    },
                }
            }
        } else if attr.name == DW_AT_TYPE {
            if let AttrValue::DebugTypesRef(_value) = attr.value {
                var_type = Some("TypePlaceholder".to_owned());
            }
        } else if attr.name == DW_AT_LOCATION {
            if let AttrValue::Addr(value) = attr.value {
                address = Some(value);
            }
        }
        proof {
            assert(spec_is_types_ref(entry.attrs@[i as int]) ==> exists|j: int|
                0 <= j < i + 1 && #[trigger] spec_is_types_ref(entry.attrs@[j]));
        }
        i = i + 1;
    }
    let var_type = match var_type {
        Some(t) => t,
        None => String::new(),
    };
    Ok(Variable { name: String::new(), var_type, address })
}

/// Records what an entry describes: a subprogram entry adds a function, a
/// variable entry adds a global variable, other entries add nothing. Where
/// the variable cannot be read, nothing is added and the error is returned.
pub fn parse_entry(data: &[u8], entry: &DebugInfoEntry, debug_info_storage: &mut DebugInfoStorage) -> (res: Result<(), DebuggerError>)
    ensures
        res is Err <==> entry.tag == DW_TAG_VARIABLE && spec_has_bad_name(*entry),
        res is Ok && entry.tag == DW_TAG_SUBPROGRAM ==> final(debug_info_storage)@.functions == old(
            debug_info_storage,
        )@.functions.push(spec_parse_function(*entry)) && final(debug_info_storage)@.global_variables
            == old(debug_info_storage)@.global_variables,
        res is Ok && entry.tag == DW_TAG_VARIABLE ==> final(debug_info_storage)@.global_variables
            == old(debug_info_storage)@.global_variables.push(spec_parse_variable(*entry))
            && final(debug_info_storage)@.functions == old(debug_info_storage)@.functions,
        res is Err || (entry.tag != DW_TAG_SUBPROGRAM && entry.tag != DW_TAG_VARIABLE)
            ==> final(debug_info_storage)@ == old(debug_info_storage)@,
{
    if entry.tag == DW_TAG_SUBPROGRAM {
        let function = parse_function(entry)?;
        let ghost before = debug_info_storage.functions@;
        debug_info_storage.functions.push(function);
        assert(functions_view(debug_info_storage.functions@) =~= functions_view(before).push(
            spec_parse_function(*entry),
        ));
    } else if entry.tag == DW_TAG_VARIABLE {
        let variable = parse_variable(entry)?;
        let ghost before = debug_info_storage.global_variables@;
        debug_info_storage.global_variables.push(variable);
        assert(variables_view(debug_info_storage.global_variables@) =~= variables_view(before).push(
            spec_parse_variable(*entry),
        ));
    }
    Ok(())
}

/// The kind of an operator, as far as the source map tells kinds apart.
fn operator_kind(op: &wasmparser::Operator) -> OperatorKind {
    match control_operator_kind(op) {
        Some(k) => k,
        None => match numeric_operator_kind(op) {
            Some(k) => k,
            None => OperatorKind::Other,
        },
    }
}

/// Every unit header of the `.debug_info` section of `s` parses, and gimli
/// builds each of their units.
pub open spec fn spec_units_build(s: DwarfSectionsView) -> bool {
    forall|i: int|
        0 <= i < spec_debug_info_headers(s.debug_info).len() ==> (
        #[trigger] spec_debug_info_headers(s.debug_info)[i] matches UnitHeaderView::At(offset)
            && spec_unit_builds(s, offset))
}

/// Walks the unit headers of the DWARF sections and builds each unit.
/// Stops at the first error. It succeeds exactly where every header parses
/// and every unit builds; with an empty `.debug_info` there is no unit.
fn check_dwarf_units(dwarf: &DwarfSections) -> (res: Result<(), DebuggerError>)
    ensures
        res matches Err(e) ==> e is Gimli,
        res is Ok <==> spec_units_build(dwarf@),
        dwarf.debug_info@.len() == 0 ==> res is Ok,
{
    let ghost headers = spec_debug_info_headers(dwarf.debug_info@);
    let gimli = gimli_dwarf(dwarf);
    let mut iter = dwarf_units(dwarf);
    let ghost mut k: int = 0;
    loop
        invariant
            headers == spec_debug_info_headers(dwarf.debug_info@),
            dwarf.debug_info@.len() == 0 ==> headers.len() == 0,
            gimli.spec_sections() == dwarf@,
            iter.spec_source() == dwarf@,
            0 <= k <= headers.len(),
            spec_unit_headers_left(iter) == headers.skip(k),
            forall|j: int| 0 <= j < k ==> (#[trigger] headers[j] matches UnitHeaderView::At(offset)
                && spec_unit_builds(dwarf@, offset)),
        decreases spec_unit_headers_left(iter).len(),
    {
        match next_unit_header(&mut iter) {
            Ok(Some(header)) => {
                let ghost offset = header.spec_offset();
                assert(headers[k] == UnitHeaderView::At(offset));
                if let Err(e) = unit_new(&gimli, header) {
                    return Err(DebuggerError::Gimli(e));
                }
                proof {
                    assert(headers.skip(k).drop_first() =~= headers.skip(k + 1));
                    k = k + 1;
                }
            },
            Ok(None) => {
                return Ok(());
            },
            Err(e) => {
                assert(headers[k] is Malformed);
                return Err(DebuggerError::Gimli(e));
            },
        }
    }
}

/// Records the operators of one function body in a fresh source map. Two
/// operators are read per step: the first is recorded, the second gives
/// only its offset. Reading stops at the first failure, which is returned;
/// at the end of the body reading always fails, so an error always comes.
fn map_function_body(operators: &mut wasmparser::OperatorsReader) -> (res: Result<(), DebuggerError>)
    ensures
        res matches Err(e) && e is WasmParse,
{
    let mut source_map = SourceMap::new();
    loop
        decreases spec_operator_offsets(*operators).len(),
    {
        let op = match operators_read(operators) {
            Ok(op) => op,
            Err(e) => {
                return Err(DebuggerError::WasmParse(e));
            },
        };
        let op_offset = match operators_read_with_offset(operators) {
            Ok((_, offset)) => offset,
            Err(e) => {
                return Err(DebuggerError::WasmParse(e));
            },
        };
        source_map.record_operator(op_offset, &operator_kind(&op));
    }
}

/// The function-body count at the head of the code section that lies in
/// `wasm[start..end]`, where that range lies within `wasm` and the count
/// can be read there.
pub open spec fn spec_code_section_body_count(wasm: Seq<u8>, start: int, end: int) -> Option<u32> {
    if 0 <= start <= end <= wasm.len() {
        match spec_read_u32(wasm.subrange(start, end), 0) {
            Ok((n, _)) => Some(n),
            Err(_) => None,
        }
    } else {
        None
    }
}

/// The code section that lies in `wasm[start..end]` lies within `wasm`,
/// its body count is 0, and nothing follows the count.
pub open spec fn spec_code_section_reads_empty(wasm: Seq<u8>, start: int, end: int) -> bool {
    &&& 0 <= start <= end <= wasm.len()
    &&& spec_read_u32(wasm.subrange(start, end), 0) matches Ok((n, p))
    &&& n == 0
    &&& p == end - start
}

/// Reads the code section whose function bodies lie in `wasm_contents[start..end]`.
/// A range outside the module is refused; a count that cannot be read is a
/// parse error. Each function body is matched with its type index and its
/// operators are recorded, and recording always ends in a parse error, so
/// the reading succeeds only for a section with no function body.
fn parse_code_section(wasm_contents: &[u8], start: usize, end: usize, function_type_indices: &Vec<u32>) -> (res: Result<(), DebuggerError>)
    ensures
        (res matches Err(e) && e is RangeOutOfBounds) <==> !(start <= end <= wasm_contents@.len()),
        start <= end <= wasm_contents@.len() && spec_code_section_body_count(
            wasm_contents@,
            start as int,
            end as int,
        ) is None ==> (res matches Err(e) && e is WasmParse),
        res is Ok ==> spec_code_section_body_count(wasm_contents@, start as int, end as int) == Some(
            0u32,
        ),
        spec_code_section_body_count(wasm_contents@, start as int, end as int) matches Some(n) && n
            > 0 && function_type_indices@.len() > 0 ==> (res matches Err(e) && e is WasmParse),
        res matches Err(e) && e is MissingFunctionType ==> function_type_indices@.len() == 0 && (
        spec_code_section_body_count(wasm_contents@, start as int, end as int) matches Some(n) && n
            > 0),
        res matches Err(e) ==> e is WasmParse || e is RangeOutOfBounds || e is MissingFunctionType,
        res is Ok <==> spec_code_section_reads_empty(wasm_contents@, start as int, end as int),
{
    if !(start <= end && end <= wasm_contents.len()) {
        return Err(DebuggerError::RangeOutOfBounds);
    }
    let section = &wasm_contents[start..end];
    assert(section@ == wasm_contents@.subrange(start as int, end as int));
    let mut code_section = match code_section_new(section) {
        Ok(r) => r,
        Err(e) => {
            return Err(DebuggerError::WasmParse(e));
        },
    };
    let count = code_section_count(&code_section);
    let ghost at_end = spec_code_section_at_end(code_section);
    assert(count == 0 ==> (at_end <==> spec_code_section_reads_empty(
        wasm_contents@,
        start as int,
        end as int,
    )));
    let mut index: u32 = 0;
    while index < count
        invariant
            index == 0,
            start <= end <= wasm_contents@.len(),
            spec_code_section_body_count(wasm_contents@, start as int, end as int) == Some(count),
            spec_code_section_at_end(code_section) == at_end,
            count == 0 ==> (at_end <==> spec_code_section_reads_empty(
                wasm_contents@,
                start as int,
                end as int,
            )),
        decreases count - index,
    {
        let body = match code_section_read(&mut code_section) {
            Ok(b) => b,
            Err(e) => {
                return Err(DebuggerError::WasmParse(e));
            },
        };
        if index as usize >= function_type_indices.len() {
            return Err(DebuggerError::MissingFunctionType);
        }
        let _func_type_index = function_type_indices[index as usize];
        let mut operators = match body_operators(&body) {
            Ok(r) => r,
            Err(e) => {
                return Err(DebuggerError::WasmParse(e));
            },
        };
        map_function_body(&mut operators)?;
        index = index + 1;
    }
    match code_section_ensure_end(&code_section) {
        Ok(()) => Ok(()),
        Err(e) => Err(DebuggerError::WasmParse(e)),
    }
}

/// Reads the type indices of a function section onto `function_type_indices`:
/// as many as the count at the head of the section says, then the section
/// must end. It succeeds only where exactly that many indices can be read,
/// and then appends all of them; where it fails, it has appended the indices
/// read before the failure.
fn read_function_section(reader: &mut wasmparser::FunctionSectionReader, function_type_indices: &mut Vec<u32>) -> (res: Result<(), DebuggerError>)
    ensures
        res matches Err(e) ==> e is WasmParse,
        res is Ok <==> spec_function_section_reads_fully(*old(reader)),
        res is Ok ==> spec_function_section_left(*old(reader)).len() == spec_function_section_count(
            *old(reader),
        ) && final(function_type_indices)@ == old(function_type_indices)@
            + spec_function_section_left(*old(reader)),
        old(function_type_indices)@.len() <= final(function_type_indices)@.len()
            <= old(function_type_indices)@.len() + spec_function_section_left(*old(reader)).len(),
        final(function_type_indices)@ == old(function_type_indices)@ + spec_function_section_left(
            *old(reader),
        ).take(final(function_type_indices)@.len() - old(function_type_indices)@.len()),
{
    let ghost left0 = spec_function_section_left(*reader);
    let ghost before = function_type_indices@;
    let count = function_section_count(reader);
    let mut i: u32 = 0;
    while i < count
        invariant
            i <= count,
            i <= left0.len(),
            left0 == spec_function_section_left(*old(reader)),
            count == spec_function_section_count(*old(reader)),
            spec_function_section_ends(*reader) == spec_function_section_ends(*old(reader)),
            before == old(function_type_indices)@,
            spec_function_section_left(*reader) == left0.skip(i as int),
            function_type_indices@ == before + left0.take(i as int),
        decreases count - i,
    {
        match function_section_read(reader) {
            Ok(func_type_index) => {
                proof {
                    assert(left0.skip(i as int).drop_first() =~= left0.skip(i + 1));
                    assert(left0.take(i as int).push(left0[i as int]) =~= left0.take(i + 1));
                    assert((before + left0.take(i as int)).push(func_type_index) =~= before
                        + left0.take(i as int).push(func_type_index));
                }
                function_type_indices.push(func_type_index);
            },
            Err(e) => {
                assert(before + left0.take(i as int) =~= before + left0.take(
                    function_type_indices@.len() - before.len(),
                ));
                return Err(DebuggerError::WasmParse(e));
            },
        }
        i = i + 1;
    }
    match function_section_ensure_end(reader) {
        Ok(()) => {
            assert(left0.take(count as int) =~= left0);
            Ok(())
        },
        Err(e) => Err(DebuggerError::WasmParse(e)),
    }
}

/// Reads every entry of a type section, keeping none: as many as the count
/// at the head of the section says, then the section must end. It succeeds
/// only where exactly that many entries can be read.
fn read_type_section(reader: &mut wasmparser::TypeSectionReader) -> (res: Result<(), DebuggerError>)
    ensures
        res matches Err(e) ==> e is WasmParse,
        res is Ok <==> spec_type_section_reads_fully(*old(reader)),
        res is Ok ==> spec_type_section_left(*old(reader)) == spec_type_section_count(*old(reader)),
{
    let ghost left0 = spec_type_section_left(*reader);
    let count = type_section_count(reader);
    let mut i: u32 = 0;
    while i < count
        invariant
            i <= count,
            i <= left0,
            spec_type_section_left(*reader) == left0 - i,
            left0 == spec_type_section_left(*old(reader)),
            count == spec_type_section_count(*old(reader)),
            spec_type_section_ends(*reader) == spec_type_section_ends(*old(reader)),
        decreases count - i,
    {
        if let Err(e) = type_section_read(reader) {
            return Err(DebuggerError::WasmParse(e));
        }
        i = i + 1;
    }
    match type_section_ensure_end(reader) {
        Ok(()) => Ok(()),
        Err(e) => Err(DebuggerError::WasmParse(e)),
    }
}

/// Reads every entry of an import section, keeping none: as many as the
/// count at the head of the section says, then the section must end. It
/// succeeds only where exactly that many entries can be read.
fn read_import_section(reader: &mut wasmparser::ImportSectionReader) -> (res: Result<(), DebuggerError>)
    ensures
        res matches Err(e) ==> e is WasmParse,
        res is Ok <==> spec_import_section_reads_fully(*old(reader)),
        res is Ok ==> spec_import_section_left(*old(reader)) == spec_import_section_count(
            *old(reader),
        ),
{
    let ghost left0 = spec_import_section_left(*reader);
    let count = import_section_count(reader);
    let mut i: u32 = 0;
    while i < count
        invariant
            i <= count,
            i <= left0,
            spec_import_section_left(*reader) == left0 - i,
            left0 == spec_import_section_left(*old(reader)),
            count == spec_import_section_count(*old(reader)),
            spec_import_section_ends(*reader) == spec_import_section_ends(*old(reader)),
        decreases count - i,
    {
        if let Err(e) = import_section_read(reader) {
            return Err(DebuggerError::WasmParse(e));
        }
        i = i + 1;
    }
    match import_section_ensure_end(reader) {
        Ok(()) => Ok(()),
        Err(e) => Err(DebuggerError::WasmParse(e)),
    }
}

/// Reads every entry of an export section, keeping none: as many as the
/// count at the head of the section says, then the section must end. It
/// succeeds only where exactly that many entries can be read.
fn read_export_section(reader: &mut wasmparser::ExportSectionReader) -> (res: Result<(), DebuggerError>)
    ensures
        res matches Err(e) ==> e is WasmParse,
        res is Ok <==> spec_export_section_reads_fully(*old(reader)),
        res is Ok ==> spec_export_section_left(*old(reader)) == spec_export_section_count(
            *old(reader),
        ),
{
    let ghost left0 = spec_export_section_left(*reader);
    let count = export_section_count(reader);
    let mut i: u32 = 0;
    while i < count
        invariant
            i <= count,
            i <= left0,
            spec_export_section_left(*reader) == left0 - i,
            left0 == spec_export_section_left(*old(reader)),
            count == spec_export_section_count(*old(reader)),
            spec_export_section_ends(*reader) == spec_export_section_ends(*old(reader)),
        decreases count - i,
    {
        if let Err(e) = export_section_read(reader) {
            return Err(DebuggerError::WasmParse(e));
        }
        i = i + 1;
    }
    match export_section_ensure_end(reader) {
        Ok(()) => Ok(()),
        Err(e) => Err(DebuggerError::WasmParse(e)),
    }
}

/// The name and contents of the last custom section among `payloads`.
pub open spec fn spec_last_custom(payloads: Seq<PayloadView>) -> Option<(Seq<char>, Seq<u8>)>
    decreases payloads.len(),
{
    if payloads.len() == 0 {
        None
    } else {
        match payloads.last() {
            PayloadView::Custom(name, data) => Some((name, data)),
            _ => spec_last_custom(payloads.drop_last()),
        }
    }
}

/// Some payload among `payloads` cannot be parsed.
pub open spec fn spec_has_malformed(payloads: Seq<PayloadView>) -> bool {
    exists|i: int| 0 <= i < payloads.len() && #[trigger] payloads[i] is Malformed
}

/// The DWARF sections that the last custom section among `payloads` gives,
/// where there is a custom section.
pub open spec fn spec_module_dwarf(payloads: Seq<PayloadView>) -> Option<DwarfSectionsView> {
    match spec_last_custom(payloads) {
        Some((name, data)) => Some(spec_parse_custom_section(name, data)),
        None => None,
    }
}

/// The view of what `find_dwarf` found.
pub open spec fn spec_found_dwarf(d: Option<DwarfSections>) -> Option<DwarfSectionsView> {
    match d {
        Some(s) => Some(s@),
        None => None,
    }
}

/// Whether the payload `p` reads without error in the second walk over a
/// module `wasm` whose DWARF sections are `dwarf`: a section reads fully,
/// a code section lies in range, holds no function body and ends after its
/// count, and at a `.debug_info` or `.debug_abbrev` custom section every
/// DWARF unit builds.
pub open spec fn spec_payload_reads(wasm: Seq<u8>, dwarf: DwarfSectionsView, p: PayloadView) -> bool {
    match p {
        PayloadView::Custom(name, _) => (name == ".debug_info"@ || name == ".debug_abbrev"@)
            ==> spec_units_build(dwarf),
        PayloadView::TypeSection(reads_fully) => reads_fully,
        PayloadView::ImportSection(reads_fully) => reads_fully,
        PayloadView::FunctionSection(reads_fully, _) => reads_fully,
        PayloadView::ExportSection(reads_fully) => reads_fully,
        PayloadView::CodeSectionStart(start, end) => spec_code_section_reads_empty(
            wasm,
            start as int,
            end as int,
        ),
        PayloadView::Other => true,
        PayloadView::Malformed => false,
    }
}

/// No function section among the first `k` payloads has a type index.
pub open spec fn spec_no_type_indices_before(payloads: Seq<PayloadView>, k: int) -> bool {
    forall|j: int|
        0 <= j < k ==> (#[trigger] payloads[j] matches PayloadView::FunctionSection(_, count)
            ==> count == 0)
}

/// Whether `e` is an error that the payload `p` can give in the second walk
/// over the module `wasm`, `no_indices` telling whether no type index was
/// read before it: a DWARF unit gives a gimli error; a section that does not
/// read fully, or a code section whose count cannot be read or that does
/// not end, a parse error; a code section out of range `RangeOutOfBounds`;
/// a code section with a body a parse error, or `MissingFunctionType` where
/// no type index was read.
pub open spec fn spec_payload_error(wasm: Seq<u8>, p: PayloadView, no_indices: bool, e: DebuggerError) -> bool {
    match p {
        PayloadView::Custom(_, _) => e is Gimli,
        PayloadView::CodeSectionStart(start, end) => if !(start <= end <= wasm.len()) {
            e is RangeOutOfBounds
        } else if no_indices && (spec_code_section_body_count(wasm, start as int, end as int)
            matches Some(n) && n > 0) {
            e is WasmParse || e is MissingFunctionType
        } else {
            e is WasmParse
        },
        PayloadView::Other => false,
        _ => e is WasmParse,
    }
}

/// `e` is the error of the first payload that does not read in the second
/// walk over the module `wasm`.
pub open spec fn spec_first_failure(wasm: Seq<u8>, payloads: Seq<PayloadView>, e: DebuggerError) -> bool {
    match spec_module_dwarf(payloads) {
        None => false,
        Some(dwarf) => exists|k: int|
            0 <= k < payloads.len() && (forall|j: int|
                0 <= j < k ==> spec_payload_reads(wasm, dwarf, #[trigger] payloads[j]))
                && !spec_payload_reads(wasm, dwarf, payloads[k]) && spec_payload_error(
                wasm,
                payloads[k],
                spec_no_type_indices_before(payloads, k),
                e,
            ),
    }
}

/// Whether the module `wasm`, whose payloads are `payloads`, reads without
/// error: every payload parses, and where there is a custom section, every
/// payload reads in the second walk.
pub open spec fn spec_module_reads(wasm: Seq<u8>, payloads: Seq<PayloadView>) -> bool {
    match spec_module_dwarf(payloads) {
        None => !spec_has_malformed(payloads),
        Some(dwarf) => forall|i: int|
            0 <= i < payloads.len() ==> spec_payload_reads(wasm, dwarf, #[trigger] payloads[i]),
    }
}

/// The DWARF sections of the last custom section of the module, or `None`
/// where the module has no custom section. The walk over the payloads fails,
/// with a parse error, exactly where some payload cannot be parsed.
pub fn find_dwarf(wasm_contents: &[u8]) -> (res: Result<Option<DwarfSections>, DebuggerError>)
    ensures
        res is Err <==> spec_has_malformed(spec_module_payloads(wasm_contents@)),
        res matches Err(e) ==> e is WasmParse,
        res matches Ok(d) ==> spec_found_dwarf(d) == spec_module_dwarf(
            spec_module_payloads(wasm_contents@),
        ),
{
    let ghost all = spec_module_payloads(wasm_contents@);
    let mut payloads = module_payloads(wasm_contents);
    let mut dwarf: Option<DwarfSections> = None;
    let ghost mut k: int = 0;
    loop
        invariant
            all == spec_module_payloads(wasm_contents@),
            0 <= k <= all.len(),
            spec_payloads_left(payloads) == all.skip(k),
            !spec_has_malformed(all.take(k)),
            spec_found_dwarf(dwarf) == spec_module_dwarf(all.take(k)),
        decreases spec_payloads_left(payloads).len(),
    {
        let ghost taken = all.take(k);
        match next_payload(&mut payloads) {
            None => {
                assert(all.take(k) =~= all);
                return Ok(dwarf);
            },
            Some(Err(e)) => {
                assert(all[k] is Malformed);
                return Err(DebuggerError::WasmParse(e));
            },
            Some(Ok(payload)) => {
                proof {
                    assert(all.take(k + 1).drop_last() =~= taken);
                    assert(all.take(k + 1).last() == payload@);
                    assert(all.skip(k).drop_first() =~= all.skip(k + 1));
                }
                if let WasmPayload::CustomSection(name, data) = payload {
                    dwarf = parse_custom_section(name, data);
                }
                proof {
                    assert forall|i: int| 0 <= i < k + 1 implies !(#[trigger] all.take(k + 1)[i] is Malformed) by {
                        if i < k {
                            assert(all.take(k + 1)[i] == taken[i]);
                        }
                    }
                    k = k + 1;
                }
            },
        }
    }
}

/// Reads a module in two walks over its payloads. The first finds the DWARF
/// sections of the last custom section; where there is one, the second walk
/// reads the DWARF units (at a `.debug_info` or `.debug_abbrev` custom
/// section), the function section's type indices, the operators of each
/// function body, and the entries of the type, import and export sections.
/// The first error stops the reading and is returned. It succeeds exactly
/// where every payload parses and, where there is DWARF, every section reads
/// fully, every code section is in range, holds no function body and ends,
/// and every DWARF unit builds.
pub fn parse_wasm2(wasm_contents: &[u8]) -> (res: Result<(), DebuggerError>)
    ensures
        res is Ok <==> spec_module_reads(wasm_contents@, spec_module_payloads(wasm_contents@)),
        spec_has_malformed(spec_module_payloads(wasm_contents@)) ==> (res matches Err(e)
            && e is WasmParse),
        res matches Err(e) ==> spec_has_malformed(spec_module_payloads(wasm_contents@))
            || spec_first_failure(wasm_contents@, spec_module_payloads(wasm_contents@), e),
        res matches Err(e) ==> e is WasmParse || e is Gimli || e is RangeOutOfBounds
            || e is MissingFunctionType,
{
    let ghost all = spec_module_payloads(wasm_contents@);
    let dwarf = match find_dwarf(wasm_contents) {
        Err(e) => {
            assert(spec_has_malformed(all));
            let ghost i = choose|i: int| 0 <= i < all.len() && #[trigger] all[i] is Malformed;
            assert(!spec_payload_reads(wasm_contents@, spec_module_dwarf(all)->0, all[i]));
            return Err(e);
        },
        Ok(None) => {
            return Ok(());
        },
        Ok(Some(d)) => d,
    };
    let ghost dv = dwarf@;
    let mut function_type_indices: Vec<u32> = Vec::new();
    let mut payloads = module_payloads(wasm_contents);
    let ghost mut k: int = 0;
    loop
        invariant
            all == spec_module_payloads(wasm_contents@),
            !spec_has_malformed(all),
            spec_module_dwarf(all) == Some(dv),
            dwarf@ == dv,
            0 <= k <= all.len(),
            spec_payloads_left(payloads) == all.skip(k),
            forall|j: int| 0 <= j < k ==> spec_payload_reads(wasm_contents@, dv, #[trigger] all[j]),
            function_type_indices@.len() == 0 <==> spec_no_type_indices_before(all, k),
        decreases spec_payloads_left(payloads).len(),
    {
        let payload = match next_payload(&mut payloads) {
            None => {
                assert(k == all.len());
                return Ok(());
            },
            Some(Err(e)) => {
                assert(all[k] is Malformed);
                return Err(DebuggerError::WasmParse(e));
            },
            Some(Ok(payload)) => payload,
        };
        assert(all[k] == payload@);
        let ghost no_indices = spec_no_type_indices_before(all, k);
        let step = match payload {
            WasmPayload::CustomSection(name, _data) => {
                if str_eq(name, ".debug_info") || str_eq(name, ".debug_abbrev") {
                    check_dwarf_units(&dwarf)
                } else {
                    Ok(())
                }
            },
            WasmPayload::FunctionSection(mut reader) => read_function_section(
                &mut reader,
                &mut function_type_indices,
            ),
            WasmPayload::CodeSectionStart(start, end) => parse_code_section(
                wasm_contents,
                start,
                end,
                &function_type_indices,
            ),
            WasmPayload::TypeSection(mut reader) => read_type_section(&mut reader),
            WasmPayload::ImportSection(mut reader) => read_import_section(&mut reader),
            WasmPayload::ExportSection(mut reader) => read_export_section(&mut reader),
            WasmPayload::Other => Ok(()),
        };
        if let Err(e) = step {
            assert(!spec_payload_reads(wasm_contents@, dv, all[k]));
            assert(spec_payload_error(wasm_contents@, all[k], no_indices, e));
            assert(spec_first_failure(wasm_contents@, all, e));
            return Err(e);
        }
        proof {
            if no_indices && (all[k] matches PayloadView::FunctionSection(_, c) ==> c == 0) {
                assert forall|j: int| 0 <= j < k + 1 implies (#[trigger] all[j] matches PayloadView::FunctionSection(
                    _,
                    c,
                ) ==> c == 0) by {}
            } else if !no_indices {
                let j = choose|j: int| 0 <= j < k && !(#[trigger] all[j] matches PayloadView::FunctionSection(
                    _,
                    c,
                ) ==> c == 0);
                assert(!(all[j] matches PayloadView::FunctionSection(_, c) ==> c == 0));
            }
        }
        proof {
            assert(all.skip(k).drop_first() =~= all.skip(k + 1));
            k = k + 1;
        }
    }
}

/// Replaces the `.debug_abbrev` section of `dwarf` with `data`.
pub fn parse_abbrev_info_section(data: &[u8], dwarf: &mut DwarfSections) -> (res: Result<(), DebuggerError>)
    ensures
        res is Ok,
        final(dwarf)@ == (crate::custom_sections::DwarfSectionsView { debug_abbrev: data@, ..old(dwarf)@ }),
{
    dwarf.debug_abbrev = vstd::slice::slice_to_vec(data);
    Ok(())
}

/// The global variable read from a variable entry has no name; its type
/// is `TypePlaceholder` where some `DW_AT_type` attribute holds a
/// `.debug_types` signature, and empty where none does.
pub proof fn law_variable_type(e: DebugInfoEntry, i: int)
    ensures
        spec_parse_variable(e).name.len() == 0,
        0 <= i < e.attrs@.len() && e.attrs@[i].name == DW_AT_TYPE && e.attrs@[i].value is DebugTypesRef
            ==> spec_parse_variable(e).var_type == "TypePlaceholder"@,
        (forall|j: int|
            0 <= j < e.attrs@.len() ==> !(#[trigger] e.attrs@[j].name == DW_AT_TYPE
                && e.attrs@[j].value is DebugTypesRef)) ==> spec_parse_variable(e).var_type.len() == 0,
{
    if 0 <= i < e.attrs@.len() && e.attrs@[i].name == DW_AT_TYPE && e.attrs@[i].value is DebugTypesRef {
        assert(spec_is_types_ref(e.attrs@[i]));
    }
}

} // verus!
