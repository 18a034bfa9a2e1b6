use vstd::prelude::*;

verus! {

/// `DW_TAG_class_type`.
pub const DW_TAG_CLASS_TYPE: u16 = 0x02;
/// `DW_TAG_enumeration_type`.
pub const DW_TAG_ENUMERATION_TYPE: u16 = 0x04;
/// `DW_TAG_member`.
pub const DW_TAG_MEMBER: u16 = 0x0d;
/// `DW_TAG_structure_type`.
pub const DW_TAG_STRUCTURE_TYPE: u16 = 0x13;
/// `DW_TAG_typedef`.
pub const DW_TAG_TYPEDEF: u16 = 0x16;
/// `DW_TAG_enumerator`.
pub const DW_TAG_ENUMERATOR: u16 = 0x28;
/// `DW_TAG_subprogram`.
pub const DW_TAG_SUBPROGRAM: u16 = 0x2e;
/// `DW_TAG_variable`.
pub const DW_TAG_VARIABLE: u16 = 0x34;
/// `DW_TAG_namespace`.
pub const DW_TAG_NAMESPACE: u16 = 0x39;

/// `DW_AT_location`.
pub const DW_AT_LOCATION: u16 = 0x02;
/// `DW_AT_name`.
pub const DW_AT_NAME: u16 = 0x03;
/// `DW_AT_byte_size`.
pub const DW_AT_BYTE_SIZE: u16 = 0x0b;
/// `DW_AT_visibility`.
pub const DW_AT_VISIBILITY: u16 = 0x17;
/// `DW_AT_low_pc`.
pub const DW_AT_LOW_PC: u16 = 0x11;
/// `DW_AT_high_pc`.
pub const DW_AT_HIGH_PC: u16 = 0x12;
/// `DW_AT_const_value`.
pub const DW_AT_CONST_VALUE: u16 = 0x1c;
/// `DW_AT_data_member_location`.
pub const DW_AT_DATA_MEMBER_LOCATION: u16 = 0x38;
/// `DW_AT_external`.
pub const DW_AT_EXTERNAL: u16 = 0x3f;
/// `DW_AT_type`.
pub const DW_AT_TYPE: u16 = 0x49;
/// `DW_AT_alignment`.
pub const DW_AT_ALIGNMENT: u16 = 0x88;

/// The value of a DWARF attribute, in the forms that debugging reads.
pub enum AttrValue {
    /// An address in the described program.
    Addr(u64),
    Data1(u8),
    Data2(u16),
    Data4(u32),
    Data8(u64),
    Sdata(i64),
    Udata(u64),
    Flag(bool),
    /// An inline string: its bytes, without terminator.
    Str(Vec<u8>),
    /// An offset into `.debug_str`.
    DebugStrRef(usize),
    /// An offset of an entry within the same unit.
    UnitRef(usize),
    /// The signature of a type in `.debug_types`.
    DebugTypesRef(u64),
}

/// The mathematical value of an [`AttrValue`].
pub enum AttrValueView {
    Addr(u64),
    Data1(u8),
    Data2(u16),
    Data4(u32),
    Data8(u64),
    Sdata(i64),
    Udata(u64),
    Flag(bool),
    Str(Seq<u8>),
    DebugStrRef(usize),
    UnitRef(usize),
    DebugTypesRef(u64),
}

impl View for AttrValue {
    type V = AttrValueView;

    open spec fn view(&self) -> AttrValueView {
        match self {
            AttrValue::Addr(x) => AttrValueView::Addr(*x),
            AttrValue::Data1(x) => AttrValueView::Data1(*x),
            AttrValue::Data2(x) => AttrValueView::Data2(*x),
            AttrValue::Data4(x) => AttrValueView::Data4(*x),
            AttrValue::Data8(x) => AttrValueView::Data8(*x),
            AttrValue::Sdata(x) => AttrValueView::Sdata(*x),
            AttrValue::Udata(x) => AttrValueView::Udata(*x),
            AttrValue::Flag(x) => AttrValueView::Flag(*x),
            AttrValue::Str(x) => AttrValueView::Str(x@),
            AttrValue::DebugStrRef(x) => AttrValueView::DebugStrRef(*x),
            AttrValue::UnitRef(x) => AttrValueView::UnitRef(*x),
            AttrValue::DebugTypesRef(x) => AttrValueView::DebugTypesRef(*x),
        }
    }
}

/// The value as an unsigned number: the data forms and non-negative signed
/// data; nothing for the other forms.
pub open spec fn spec_udata_value(v: AttrValue) -> Option<u64> {
    match v {
        AttrValue::Data1(x) => Some(x as u64),
        AttrValue::Data2(x) => Some(x as u64),
        AttrValue::Data4(x) => Some(x as u64),
        AttrValue::Data8(x) => Some(x),
        AttrValue::Udata(x) => Some(x),
        AttrValue::Sdata(x) => if x < 0 {
            None
        } else {
            Some(x as u64)
        },
        _ => None,
    }
}

impl AttrValue {
    /// The value as an unsigned number, where it is one.
    pub fn udata_value(&self) -> (r: Option<u64>)
        ensures
            r == spec_udata_value(*self),
    {
        match self {
            AttrValue::Data1(x) => Some(*x as u64),
            AttrValue::Data2(x) => Some(*x as u64),
            AttrValue::Data4(x) => Some(*x as u64),
            AttrValue::Data8(x) => Some(*x),
            AttrValue::Udata(x) => Some(*x),
            AttrValue::Sdata(x) => if *x < 0 {
                None
            } else {
                Some(*x as u64)
            },
            _ => None,
        }
    }
}

/// An attribute of a debugging information entry: its `DW_AT_*` name and its value.
pub struct Attribute {
    pub name: u16,
    pub value: AttrValue,
}

/// A debugging information entry: its offset in its unit, its `DW_TAG_*`
/// tag, its attributes in order and its children in order.
pub struct DebugInfoEntry {
    pub offset: usize,
    pub tag: u16,
    pub attrs: Vec<Attribute>,
    pub children: Vec<DebugInfoEntry>,
}

/// The entries of a compilation unit, each with its offset.
pub struct Unit {
    pub entries: Vec<DebugInfoEntry>,
}

/// The first attribute named `name` among `attrs[i..]`.
pub open spec fn spec_first_attr_from(attrs: Seq<Attribute>, name: u16, i: int) -> Option<Attribute>
    decreases attrs.len() - i,
{
    if i < 0 || i >= attrs.len() {
        None
    } else if attrs[i].name == name {
        Some(attrs[i])
    } else {
        spec_first_attr_from(attrs, name, i + 1)
    }
}

/// The first attribute of `e` named `name`.
pub open spec fn spec_attr(e: DebugInfoEntry, name: u16) -> Option<Attribute> {
    spec_first_attr_from(e.attrs@, name, 0)
}

/// The value of the first attribute of `e` named `name`.
pub open spec fn spec_attr_value(e: DebugInfoEntry, name: u16) -> Option<AttrValue> {
    match spec_attr(e, name) {
        Some(a) => Some(a.value),
        None => None,
    }
}

/// The first of `entries[i..]` at offset `offset`.
pub open spec fn spec_entry_from(entries: Seq<DebugInfoEntry>, offset: usize, i: int) -> Option<
    DebugInfoEntry,
>
    decreases entries.len() - i,
{
    if i < 0 || i >= entries.len() {
        None
    } else if entries[i].offset == offset {
        Some(entries[i])
    } else {
        spec_entry_from(entries, offset, i + 1)
    }
}

impl DebugInfoEntry {
    /// The first attribute named `name`.
    pub fn attr(&self, name: u16) -> (r: Option<&Attribute>)
        ensures
            match r {
                Some(a) => spec_attr(*self, name) == Some(*a),
                None => spec_attr(*self, name) is None,
            },
    {
        let mut i: usize = 0;
        while i < self.attrs.len()
            invariant
                i <= self.attrs@.len(),
                spec_first_attr_from(self.attrs@, name, i as int) == spec_attr(*self, name),
            decreases self.attrs@.len() - i,
        {
            if self.attrs[i].name == name {
                return Some(&self.attrs[i]);
            }
            i = i + 1;
        }
        None
    }

    /// The value of the first attribute named `name`.
    pub fn attr_value(&self, name: u16) -> (r: Option<&AttrValue>)
        ensures
            match r {
                Some(v) => spec_attr_value(*self, name) == Some(*v),
                None => spec_attr_value(*self, name) is None,
            },
    {
        match self.attr(name) {
            Some(a) => Some(&a.value),
            None => None,
        }
    }
}

impl Unit {
    /// The entry at `offset`, if the unit has one.
    pub fn entry(&self, offset: usize) -> (r: Option<&DebugInfoEntry>)
        ensures
            match r {
                Some(e) => spec_entry_from(self.entries@, offset, 0) == Some(*e),
                None => spec_entry_from(self.entries@, offset, 0) is None,
            },
    {
        let mut i: usize = 0;
        while i < self.entries.len()
            invariant
                i <= self.entries@.len(),
                spec_entry_from(self.entries@, offset, i as int) == spec_entry_from(
                    self.entries@,
                    offset,
                    0,
                ),
            decreases self.entries@.len() - i,
        {
            if self.entries[i].offset == offset {
                return Some(&self.entries[i]);
            }
            i = i + 1;
        }
        None
    }
}

/// From index `k` on, the first attribute named `name` is the one at `i`
/// when none between `k` and `i` has that name.
proof fn lemma_first_attr_from_at(attrs: Seq<Attribute>, name: u16, k: int, i: int)
    requires
        0 <= k <= i < attrs.len(),
        attrs[i].name == name,
        forall|j: int| k <= j < i ==> #[trigger] attrs[j].name != name,
    ensures
        spec_first_attr_from(attrs, name, k) == Some(attrs[i]),
    decreases i - k,
{
    if k < i {
        lemma_first_attr_from_at(attrs, name, k + 1, i);
    }
}

/// From index `k` on, no attribute is found where none has the name.
proof fn lemma_first_attr_from_none(attrs: Seq<Attribute>, name: u16, k: int)
    requires
        0 <= k,
        forall|j: int| k <= j < attrs.len() ==> #[trigger] attrs[j].name != name,
    ensures
        spec_first_attr_from(attrs, name, k) is None,
    decreases attrs.len() - k,
{
    if k < attrs.len() {
        lemma_first_attr_from_none(attrs, name, k + 1);
    }
}

/// The attribute of an entry looked up by name is its first attribute with
/// that name, and there is none where no attribute has the name.
pub proof fn law_attr_is_first_with_name(e: DebugInfoEntry, name: u16, i: int)
    ensures
        0 <= i < e.attrs@.len() && e.attrs@[i].name == name && (forall|j: int|
            0 <= j < i ==> #[trigger] e.attrs@[j].name != name) ==> spec_attr(e, name) == Some(
            e.attrs@[i],
        ) && spec_attr_value(e, name) == Some(e.attrs@[i].value),
        (forall|j: int| 0 <= j < e.attrs@.len() ==> #[trigger] e.attrs@[j].name != name) ==> spec_attr(
            e,
            name,
        ) is None && spec_attr_value(e, name) is None,
{
    if 0 <= i < e.attrs@.len() && e.attrs@[i].name == name && (forall|j: int|
        0 <= j < i ==> #[trigger] e.attrs@[j].name != name) {
        lemma_first_attr_from_at(e.attrs@, name, 0, i);
    }
    if forall|j: int| 0 <= j < e.attrs@.len() ==> #[trigger] e.attrs@[j].name != name {
        lemma_first_attr_from_none(e.attrs@, name, 0);
    }
}

} // verus!
