use std::collections::HashMap;
use vstd::prelude::*;

use crate::wasm_sections::{FunctionImportInfo, GlobalImportInfo, MemoryImportInfo, TableImportInfo};

verus! {

broadcast use vstd::std_specs::hash::group_hash_axioms;

/// What the debugger knows of the module being debugged: the source file
/// and line of each function address, and the items the module imports.
pub struct SharedState {
    function_addresses: HashMap<u64, (String, u32)>,
    function_imports: Vec<FunctionImportInfo>,
    global_imports: Vec<GlobalImportInfo>,
    memory_imports: Vec<MemoryImportInfo>,
    table_imports: Vec<TableImportInfo>,
}

impl SharedState {
    /// The source file and line recorded for each function address.
    pub closed spec fn function_address_map(&self) -> Map<u64, (String, u32)> {
        self.function_addresses@
    }

    /// The function, global, memory and table imports that are recorded.
    pub closed spec fn imports(&self) -> (
        Seq<FunctionImportInfo>,
        Seq<GlobalImportInfo>,
        Seq<MemoryImportInfo>,
        Seq<TableImportInfo>,
    ) {
        (
            self.function_imports@,
            self.global_imports@,
            self.memory_imports@,
            self.table_imports@,
        )
    }

    /// A state with no function addresses and no imports.
    pub fn new() -> (s: Self)
        ensures
            s.function_address_map() == Map::<u64, (String, u32)>::empty(),
            s.imports() == (
                Seq::<FunctionImportInfo>::empty(),
                Seq::<GlobalImportInfo>::empty(),
                Seq::<MemoryImportInfo>::empty(),
                Seq::<TableImportInfo>::empty(),
            ),
    {
        let s = SharedState {
            function_addresses: HashMap::new(),
            function_imports: vec![],
            global_imports: vec![],
            memory_imports: vec![],
            table_imports: vec![],
        };
        assert(s.imports().0 =~= Seq::<FunctionImportInfo>::empty());
        assert(s.imports().1 =~= Seq::<GlobalImportInfo>::empty());
        assert(s.imports().2 =~= Seq::<MemoryImportInfo>::empty());
        assert(s.imports().3 =~= Seq::<TableImportInfo>::empty());
        s
    }

    /// Records that the function at `address` comes from `file` at `line`,
    /// replacing what was recorded for that address before.
    pub fn add_function_address(&mut self, address: u64, file: String, line: u32)
        ensures
            final(self).function_address_map() == old(self).function_address_map().insert(
                address,
                (file, line),
            ),
            final(self).imports() == old(self).imports(),
    {
        self.function_addresses.insert(address, (file, line));
    }

    /// The source file and line recorded for `address`, if any.
    pub fn get_function_address(&self, address: u64) -> (r: Option<&(String, u32)>)
        ensures
            match r {
                Some(v) => self.function_address_map().contains_key(address) && *v
                    == self.function_address_map()[address],
                None => !self.function_address_map().contains_key(address),
            },
    {
        self.function_addresses.get(&address)
    }
}

/// After `add_function_address(address, file, line)` turns `before` into
/// `after`, reading `address` gives back `(file, line)`, and every other
/// address reads as it did before.
pub proof fn law_read_after_write(
    before: SharedState,
    after: SharedState,
    address: u64,
    file: String,
    line: u32,
    other: u64,
)
    requires
        after.function_address_map() == before.function_address_map().insert(address, (file, line)),
    ensures
        after.function_address_map().contains_key(address),
        after.function_address_map()[address] == (file, line),
        other != address ==> (after.function_address_map().contains_key(other)
            <==> before.function_address_map().contains_key(other)),
        other != address && before.function_address_map().contains_key(other)
            ==> after.function_address_map()[other] == before.function_address_map()[other],
{
}

/// What the last of `writes` made for `address` records: its file and
/// line, or nothing where no write was made for `address`.
pub open spec fn spec_last_address_write(writes: Seq<(u64, String, u32)>, address: u64) -> Option<
    (String, u32),
>
    decreases writes.len(),
{
    if writes.len() == 0 {
        None
    } else if writes.last().0 == address {
        Some((writes.last().1, writes.last().2))
    } else {
        spec_last_address_write(writes.drop_last(), address)
    }
}

/// Starting from `SharedState::new()`, after any sequence of
/// `add_function_address` calls, reading an address gives what the last
/// call for that address recorded, or nothing where no call named it.
/// `states[0]` is the new state and `states[i + 1]` the state after the
/// call `writes[i]`.
pub proof fn law_read_after_writes(
    states: Seq<SharedState>,
    writes: Seq<(u64, String, u32)>,
    address: u64,
)
    requires
        states.len() == writes.len() + 1,
        states[0].function_address_map() == Map::<u64, (String, u32)>::empty(),
        forall|i: int|
            1 <= i < states.len() ==> #[trigger] states[i].function_address_map() == states[i
                - 1].function_address_map().insert(writes[i - 1].0, (writes[i - 1].1, writes[i
                - 1].2)),
    ensures
        match spec_last_address_write(writes, address) {
            Some(v) => states.last().function_address_map().contains_key(address)
                && states.last().function_address_map()[address] == v,
            None => !states.last().function_address_map().contains_key(address),
        },
    decreases writes.len(),
{
    if writes.len() > 0 {
        let n = writes.len() as int;
        assert(states.drop_last()[0] == states[0]);
        assert forall|i: int| 1 <= i < states.drop_last().len() implies #[trigger] states.drop_last()[i].function_address_map()
            == states.drop_last()[i - 1].function_address_map().insert(
            writes.drop_last()[i - 1].0,
            (writes.drop_last()[i - 1].1, writes.drop_last()[i - 1].2),
        ) by {
            assert(states[i].function_address_map() == states[i - 1].function_address_map().insert(
                writes[i - 1].0,
                (writes[i - 1].1, writes[i - 1].2),
            ));
        }
        law_read_after_writes(states.drop_last(), writes.drop_last(), address);
        assert(states[n].function_address_map() == states[n - 1].function_address_map().insert(
            writes[n - 1].0,
            (writes[n - 1].1, writes[n - 1].2),
        ));
    }
}

} // verus!
