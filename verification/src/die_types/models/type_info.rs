use vstd::prelude::*;

use crate::debug_data::{Function, FunctionView};
use crate::die_types::models::member_variable_info::{MemberVariableInfo, MemberVariableInfoView};

verus! {

/// A class or struct: its name, size, alignment and data members.
pub struct ClassOrStructInfo {
    pub name: String,
    pub size: Option<u64>,
    pub alignment: Option<u64>,
    pub members: Vec<MemberVariableInfo>,
}

/// A named constant and the `Debug` text of its value.
pub struct ConstantInfo {
    pub name: String,
    pub value: String,
}

/// An enumeration: its name and the names of its enumerators.
pub struct EnumInfo {
    pub name: String,
    pub variants: Vec<String>,
}

/// A type alias: its name and the name of the type it stands for.
pub struct TypedefInfo {
    pub name: String,
    pub aliased_type: String,
}

/// A member of a namespace.
pub enum Symbol {
    ClassOrStruct(ClassOrStructInfo),
    Function(Function),
    Enum(EnumInfo),
    Typedef(TypedefInfo),
}

/// A namespace: its name and its members.
pub struct NamespaceInfo {
    pub name: String,
    pub members: Vec<Symbol>,
}

/// The mathematical value of a [`ClassOrStructInfo`].
pub struct ClassOrStructInfoView {
    pub name: Seq<char>,
    pub size: Option<u64>,
    pub alignment: Option<u64>,
    pub members: Seq<MemberVariableInfoView>,
}

/// The mathematical value of a [`ConstantInfo`].
pub struct ConstantInfoView {
    pub name: Seq<char>,
    pub value: Seq<char>,
}

/// The mathematical value of an [`EnumInfo`].
pub struct EnumInfoView {
    pub name: Seq<char>,
    pub variants: Seq<Seq<char>>,
}

/// The mathematical value of a [`TypedefInfo`].
pub struct TypedefInfoView {
    pub name: Seq<char>,
    pub aliased_type: Seq<char>,
}

/// The mathematical value of a [`Symbol`].
pub enum SymbolView {
    ClassOrStruct(ClassOrStructInfoView),
    Function(FunctionView),
    Enum(EnumInfoView),
    Typedef(TypedefInfoView),
}

/// The mathematical value of a [`NamespaceInfo`].
pub struct NamespaceInfoView {
    pub name: Seq<char>,
    pub members: Seq<SymbolView>,
}

/// The views of a sequence of members.
pub open spec fn members_view(v: Seq<MemberVariableInfo>) -> Seq<MemberVariableInfoView> {
    v.map_values(|m: MemberVariableInfo| m@)
}

/// The characters of each string.
pub open spec fn strings_view(v: Seq<String>) -> Seq<Seq<char>> {
    v.map_values(|s: String| s@)
}

/// The views of a sequence of symbols.
pub open spec fn symbols_view(v: Seq<Symbol>) -> Seq<SymbolView> {
    v.map_values(|s: Symbol| s@)
}

impl View for ClassOrStructInfo {
    type V = ClassOrStructInfoView;

    open spec fn view(&self) -> ClassOrStructInfoView {
        ClassOrStructInfoView {
            name: self.name@,
            size: self.size,
            alignment: self.alignment,
            members: members_view(self.members@),
        }
    }
}

impl View for ConstantInfo {
    type V = ConstantInfoView;

    open spec fn view(&self) -> ConstantInfoView {
        ConstantInfoView { name: self.name@, value: self.value@ }
    }
}

impl View for EnumInfo {
    type V = EnumInfoView;

    open spec fn view(&self) -> EnumInfoView {
        EnumInfoView { name: self.name@, variants: strings_view(self.variants@) }
    }
}

impl View for TypedefInfo {
    type V = TypedefInfoView;

    open spec fn view(&self) -> TypedefInfoView {
        TypedefInfoView { name: self.name@, aliased_type: self.aliased_type@ }
    }
}

impl View for Symbol {
    type V = SymbolView;

    open spec fn view(&self) -> SymbolView {
        match self {
            Symbol::ClassOrStruct(c) => SymbolView::ClassOrStruct(c@),
            Symbol::Function(f) => SymbolView::Function(f@),
            Symbol::Enum(e) => SymbolView::Enum(e@),
            Symbol::Typedef(t) => SymbolView::Typedef(t@),
        }
    }
}

impl View for NamespaceInfo {
    type V = NamespaceInfoView;

    open spec fn view(&self) -> NamespaceInfoView {
        NamespaceInfoView { name: self.name@, members: symbols_view(self.members@) }
    }
}

} // verus!
