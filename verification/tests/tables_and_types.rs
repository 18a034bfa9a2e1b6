use wasm_debugger::debug_information_storage::models::symbol_table::SymbolTable;
use wasm_debugger::state_management::SharedState;
use wasm_debugger::wasm_types::heap_type::{AbstractHeapType, Context, HeapType};

#[test]
fn abstract_heap_types_follow_the_hierarchy() {
    let ctx = Context { types: vec![] };
    let func = HeapType::Abstract(AbstractHeapType::Func);
    let any = HeapType::Abstract(AbstractHeapType::Any);
    let eq = HeapType::Abstract(AbstractHeapType::Eq);
    assert!(func.matches(&func, &ctx));
    assert!(!func.matches(&any, &ctx));
    assert!(eq.matches(&any, &ctx));
    assert!(!any.matches(&eq, &ctx));
    let i31 = HeapType::Abstract(AbstractHeapType::I31);
    assert!(i31.matches(&eq, &ctx));
    assert!(!eq.matches(&i31, &ctx));
    assert!(!i31.matches(&any, &ctx));
}

#[test]
fn concrete_heap_types_use_the_hierarchy() {
    let ctx = Context {
        types: vec![HeapType::Abstract(AbstractHeapType::I31), HeapType::Concrete(0)],
    };
    let eq = HeapType::Abstract(AbstractHeapType::Eq);
    assert!(HeapType::Concrete(1).matches(&eq, &ctx));
    assert!(!eq.matches(&HeapType::Concrete(1), &ctx));
}

#[test]
fn concrete_heap_types_resolve_through_context() {
    let ctx = Context {
        types: vec![
            HeapType::Abstract(AbstractHeapType::Struct),
            HeapType::Concrete(0),
            HeapType::Abstract(AbstractHeapType::Array),
        ],
    };
    let c0 = HeapType::Concrete(0);
    let c1 = HeapType::Concrete(1);
    let c2 = HeapType::Concrete(2);
    let st = HeapType::Abstract(AbstractHeapType::Struct);
    assert!(c0.matches(&st, &ctx));
    assert!(st.matches(&c1, &ctx));
    assert!(c1.matches(&c0, &ctx));
    assert!(c0.matches(&c1, &ctx));
    assert!(!c2.matches(&c0, &ctx));
    assert!(c2.matches(&c2, &ctx));
    assert_eq!(*ctx.type_at(1), HeapType::Concrete(0));
}

#[test]
fn symbol_table_insert_and_get() {
    let mut table: SymbolTable<u32> = SymbolTable::new();
    assert_eq!(table.get("main"), None);
    table.insert("main".to_string(), 1);
    table.insert("helper".to_string(), 2);
    assert_eq!(table.get("main"), Some(&1));
    assert_eq!(table.get("helper"), Some(&2));
    assert_eq!(table.get("mai"), None);
    table.insert("main".to_string(), 7);
    assert_eq!(table.get("main"), Some(&7));
    assert_eq!(table.get("helper"), Some(&2));
    table.insert("ünïcødé".to_string(), 9);
    assert_eq!(table.get("ünïcødé"), Some(&9));
}

#[test]
fn shared_state_function_addresses() {
    let mut state = SharedState::new();
    assert_eq!(state.get_function_address(0x10), None);
    state.add_function_address(0x10, "main.c".to_string(), 3);
    state.add_function_address(0x20, "util.c".to_string(), 40);
    assert_eq!(state.get_function_address(0x10), Some(&("main.c".to_string(), 3)));
    state.add_function_address(0x10, "main.c".to_string(), 5);
    assert_eq!(state.get_function_address(0x10), Some(&("main.c".to_string(), 5)));
    assert_eq!(state.get_function_address(0x20), Some(&("util.c".to_string(), 40)));
    assert_eq!(state.get_function_address(0x30), None);
}
