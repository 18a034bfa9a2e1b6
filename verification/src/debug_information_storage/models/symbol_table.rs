use vstd::prelude::*;
use crate::text::str_eq;

verus! {

/// No name occurs twice in `t`.
pub open spec fn names_distinct<I>(t: Seq<(String, I)>) -> bool {
    forall|i: int, j: int|
        0 <= i < t.len() && 0 <= j < t.len() && i != j ==> #[trigger] t[i].0@ != #[trigger] t[j].0@
}

/// The information that the pairs of `t` record for each name.
pub open spec fn table_map<I>(t: Seq<(String, I)>) -> Map<Seq<char>, I> {
    Map::new(
        |name: Seq<char>| exists|i: int| 0 <= i < t.len() && #[trigger] t[i].0@ == name,
        |name: Seq<char>| t[choose|i: int| 0 <= i < t.len() && #[trigger] t[i].0@ == name].1,
    )
}

proof fn lemma_table_map_at<I>(t: Seq<(String, I)>, i: int)
    requires
        names_distinct(t),
        0 <= i < t.len(),
    ensures
        table_map(t).contains_key(t[i].0@),
        table_map(t)[t[i].0@] == t[i].1,
{
    let name = t[i].0@;
    assert(table_map(t).dom().contains(name));
    let j = choose|j: int| 0 <= j < t.len() && #[trigger] t[j].0@ == name;
    assert(j == i);
}

proof fn lemma_table_map_absent<I>(t: Seq<(String, I)>, name: Seq<char>)
    requires
        forall|j: int| 0 <= j < t.len() ==> #[trigger] t[j].0@ != name,
    ensures
        !table_map(t).contains_key(name),
{
}

proof fn lemma_table_map_update<I>(t: Seq<(String, I)>, u: Seq<(String, I)>, name: Seq<char>, info: I)
    requires
        names_distinct(t),
        names_distinct(u),
        u.len() >= t.len(),
        exists|k: int| 0 <= k < u.len() && #[trigger] u[k].0@ == name && u[k].1 == info,
        forall|k: int| 0 <= k < t.len() && t[k].0@ != name ==> #[trigger] u[k] == t[k],
        forall|k: int| 0 <= k < t.len() && t[k].0@ == name ==> #[trigger] u[k].0@ == name,
        forall|k: int| t.len() <= k < u.len() ==> #[trigger] u[k].0@ == name,
    ensures
        table_map(u) == table_map(t).insert(name, info),
{
    let k = choose|k: int| 0 <= k < u.len() && #[trigger] u[k].0@ == name && u[k].1 == info;
    lemma_table_map_at(u, k);
    assert forall|n: Seq<char>| #[trigger] table_map(u).dom().contains(n) == table_map(t).insert(name, info).dom().contains(n) by {
        if n != name {
            if table_map(u).dom().contains(n) {
                let j = choose|j: int| 0 <= j < u.len() && #[trigger] u[j].0@ == n;
                if t[j].0@ != name {
                    assert(u[j] == t[j]);
                }
                assert(t[j].0@ == n);
            }
            if table_map(t).dom().contains(n) {
                let j = choose|j: int| 0 <= j < t.len() && #[trigger] t[j].0@ == n;
                assert(u[j].0@ == n);
            }
        }
    }
    assert forall|n: Seq<char>| #[trigger] table_map(u).dom().contains(n) && n != name implies table_map(u)[n] == table_map(t)[n] by {
        let j = choose|j: int| 0 <= j < u.len() && #[trigger] u[j].0@ == n;
        if t[j].0@ != name {
            assert(u[j] == t[j]);
        }
        assert(u[j] == t[j]);
        lemma_table_map_at(u, j);
        lemma_table_map_at(t, j);
    }
    assert(table_map(u) =~= table_map(t).insert(name, info));
}

/// A table from symbol names to what is known of each symbol.
pub struct SymbolTable<SymbolInfo> {
    table: Vec<(String, SymbolInfo)>,
}

impl<SymbolInfo> SymbolTable<SymbolInfo> {
    #[verifier::type_invariant]
    closed spec fn wf(self) -> bool {
        names_distinct(self.table@)
    }

    /// The information recorded for each name.
    pub closed spec fn symbols(self) -> Map<Seq<char>, SymbolInfo> {
        table_map(self.table@)
    }

    /// An empty table.
    pub fn new() -> (t: Self)
        ensures
            t.symbols() == Map::<Seq<char>, SymbolInfo>::empty(),
    {
        let t = SymbolTable { table: Vec::new() };
        assert(t.symbols() =~= Map::<Seq<char>, SymbolInfo>::empty());
        t
    }

    /// Records `info` for `name`, replacing what was recorded for it before.
    pub fn insert(&mut self, name: String, info: SymbolInfo)
        ensures
            final(self).symbols() == old(self).symbols().insert(name@, info),
    {
        proof {
            use_type_invariant(&*self);
        }
        let ghost old_table = self.table@;
        let ghost key = name@;
        let mut table: Vec<(String, SymbolInfo)> = Vec::new();
        std::mem::swap(&mut table, &mut self.table);
        let mut i: usize = 0;
        while i < table.len()
            invariant
                table@ == old_table,
                old(self).symbols() == table_map(old_table),
                names_distinct(old_table),
                i <= table@.len(),
                key == name@,
                forall|j: int| 0 <= j < i ==> #[trigger] old_table[j].0@ != key,
            decreases table@.len() - i,
        {
            if table[i].0 == name {
                table.set(i, (name, info));
                proof {
                    let u = table@;
                    assert(u[i as int].0@ == key);
                    assert(old_table[i as int].0@ == key);
                    assert forall|a: int, b: int|
                        0 <= a < u.len() && 0 <= b < u.len() && a != b implies #[trigger] u[a].0@
                            != #[trigger] u[b].0@ by {
                        assert(old_table[a].0@ == u[a].0@);
                        assert(old_table[b].0@ == u[b].0@);
                    }
                    assert(u[i as int].1 == info);
                    lemma_table_map_update(old_table, u, key, info);
                    assert(table_map(u) == table_map(old_table).insert(key, info));
                }
                self.table = table;
                return;
            }
            i = i + 1;
        }
        table.push((name, info));
        proof {
            let u = table@;
            assert(u[old_table.len() as int].0@ == key);
            assert forall|a: int, b: int|
                0 <= a < u.len() && 0 <= b < u.len() && a != b implies #[trigger] u[a].0@
                    != #[trigger] u[b].0@ by {
                if a < old_table.len() {
                    assert(old_table[a].0@ == u[a].0@);
                }
                if b < old_table.len() {
                    assert(old_table[b].0@ == u[b].0@);
                }
            }
            lemma_table_map_update(old_table, u, key, info);
        }
        self.table = table;
    }

    /// The information recorded for `name`, if any.
    pub fn get(&self, name: &str) -> (r: Option<&SymbolInfo>)
        ensures
            match r {
                Some(info) => self.symbols().contains_key(name@) && *info == self.symbols()[name@],
                None => !self.symbols().contains_key(name@),
            },
    {
        proof {
            use_type_invariant(self);
        }
        let mut i: usize = 0;
        while i < self.table.len()
            invariant
                names_distinct(self.table@),
                i <= self.table@.len(),
                forall|j: int| 0 <= j < i ==> #[trigger] self.table@[j].0@ != name@,
            decreases self.table@.len() - i,
        {
            if str_eq(self.table[i].0.as_str(), name) {
                proof {
                    lemma_table_map_at(self.table@, i as int);
                }
                return Some(&self.table[i].1);
            }
            i = i + 1;
        }
        proof {
            lemma_table_map_absent(self.table@, name@);
        }
        None
    }
}

/// After `insert(name, info)` turns `before` into `after`, reading `name`
/// gives back `info`, and every other name reads as it did before.
pub proof fn law_symbol_read_after_write<SymbolInfo>(
    before: SymbolTable<SymbolInfo>,
    after: SymbolTable<SymbolInfo>,
    name: Seq<char>,
    info: SymbolInfo,
    other: Seq<char>,
)
    requires
        after.symbols() == before.symbols().insert(name, info),
    ensures
        after.symbols().contains_key(name),
        after.symbols()[name] == info,
        other != name ==> (after.symbols().contains_key(other) <==> before.symbols().contains_key(
            other,
        )),
        other != name && before.symbols().contains_key(other) ==> after.symbols()[other]
            == before.symbols()[other],
{
}

/// What the last of `writes` made for `name` records, or nothing where no
/// write was made for `name`.
pub open spec fn spec_last_symbol_write<SymbolInfo>(writes: Seq<(Seq<char>, SymbolInfo)>, name: Seq<char>) -> Option<SymbolInfo>
    decreases writes.len(),
{
    if writes.len() == 0 {
        None
    } else if writes.last().0 == name {
        Some(writes.last().1)
    } else {
        spec_last_symbol_write(writes.drop_last(), name)
    }
}

/// Starting from `SymbolTable::new()`, after any sequence of `insert`
/// calls, reading a name gives what the last insert for that name recorded,
/// or nothing where no insert named it. `tables[0]` is the new table and
/// `tables[i + 1]` the table after the insert `writes[i]`.
pub proof fn law_symbol_read_after_writes<SymbolInfo>(
    tables: Seq<SymbolTable<SymbolInfo>>,
    writes: Seq<(Seq<char>, SymbolInfo)>,
    name: Seq<char>,
)
    requires
        tables.len() == writes.len() + 1,
        tables[0].symbols() == Map::<Seq<char>, SymbolInfo>::empty(),
        forall|i: int|
            1 <= i < tables.len() ==> #[trigger] tables[i].symbols() == tables[i - 1].symbols().insert(
                writes[i - 1].0,
                writes[i - 1].1,
            ),
    ensures
        match spec_last_symbol_write(writes, name) {
            Some(v) => tables.last().symbols().contains_key(name) && tables.last().symbols()[name]
                == v,
            None => !tables.last().symbols().contains_key(name),
        },
    decreases writes.len(),
{
    if writes.len() > 0 {
        let n = writes.len() as int;
        assert(tables.drop_last()[0] == tables[0]);
        assert forall|i: int| 1 <= i < tables.drop_last().len() implies #[trigger] tables.drop_last()[i].symbols()
            == tables.drop_last()[i - 1].symbols().insert(
            writes.drop_last()[i - 1].0,
            writes.drop_last()[i - 1].1,
        ) by {
            assert(tables[i].symbols() == tables[i - 1].symbols().insert(
                writes[i - 1].0,
                writes[i - 1].1,
            ));
        }
        law_symbol_read_after_writes(tables.drop_last(), writes.drop_last(), name);
        assert(tables[n].symbols() == tables[n - 1].symbols().insert(
            writes[n - 1].0,
            writes[n - 1].1,
        ));
    }
}

} // verus!
