use vstd::prelude::*;

use crate::text::opt_string_view;

verus! {

/// A data member of a class or struct.
pub struct MemberVariableInfo {
    pub name: String,
    /// The `Debug` text of the member's type attribute.
    pub var_type: Option<String>,
    /// The offset within the class or struct.
    pub offset: Option<u64>,
    /// The size of the member.
    pub size: Option<u64>,
    /// The `Debug` text of the member's visibility attribute.
    pub visibility: Option<String>,
    pub is_static: bool,
}

/// The mathematical value of a [`MemberVariableInfo`].
pub struct MemberVariableInfoView {
    pub name: Seq<char>,
    pub var_type: Option<Seq<char>>,
    pub offset: Option<u64>,
    pub size: Option<u64>,
    pub visibility: Option<Seq<char>>,
    pub is_static: bool,
}

impl View for MemberVariableInfo {
    type V = MemberVariableInfoView;

    open spec fn view(&self) -> MemberVariableInfoView {
        MemberVariableInfoView {
            name: self.name@,
            var_type: opt_string_view(self.var_type),
            offset: self.offset,
            size: self.size,
            visibility: opt_string_view(self.visibility),
            is_static: self.is_static,
        }
    }
}

} // verus!
