use vstd::prelude::*;

verus! {

/// A function described by the debugging information.
pub struct Function {
    pub name: String,
    pub address: u64,
    pub size: u64,
    pub parameters: Vec<Variable>,
    pub local_variables: Vec<Variable>,
}

/// A variable described by the debugging information.
pub struct Variable {
    pub name: String,
    pub var_type: String,
    pub address: Option<u64>,
}

/// The functions and global variables collected from the debugging information.
pub struct DebugInfoStorage {
    pub functions: Vec<Function>,
    pub global_variables: Vec<Variable>,
}

/// The mathematical value of a [`Variable`].
pub struct VariableView {
    pub name: Seq<char>,
    pub var_type: Seq<char>,
    pub address: Option<u64>,
}

/// The mathematical value of a [`Function`].
pub struct FunctionView {
    pub name: Seq<char>,
    pub address: u64,
    pub size: u64,
    pub parameters: Seq<VariableView>,
    pub local_variables: Seq<VariableView>,
}

/// The mathematical value of a [`DebugInfoStorage`].
pub struct DebugInfoStorageView {
    pub functions: Seq<FunctionView>,
    pub global_variables: Seq<VariableView>,
}

/// The views of a sequence of variables.
pub open spec fn variables_view(v: Seq<Variable>) -> Seq<VariableView> {
    v.map_values(|x: Variable| x@)
}

/// The views of a sequence of functions.
pub open spec fn functions_view(v: Seq<Function>) -> Seq<FunctionView> {
    v.map_values(|f: Function| f@)
}

impl View for Variable {
    type V = VariableView;

    open spec fn view(&self) -> VariableView {
        VariableView { name: self.name@, var_type: self.var_type@, address: self.address }
    }
}

impl View for Function {
    type V = FunctionView;

    open spec fn view(&self) -> FunctionView {
        FunctionView {
            name: self.name@,
            address: self.address,
            size: self.size,
            parameters: variables_view(self.parameters@),
            local_variables: variables_view(self.local_variables@),
        }
    }
}

impl View for DebugInfoStorage {
    type V = DebugInfoStorageView;

    open spec fn view(&self) -> DebugInfoStorageView {
        DebugInfoStorageView {
            functions: functions_view(self.functions@),
            global_variables: variables_view(self.global_variables@),
        }
    }
}

} // verus!
