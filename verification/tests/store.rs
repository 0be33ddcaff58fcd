use wasmi_store::func::FuncRef;
use wasmi_store::index::Index;
use wasmi_store::limits::ResizableLimits;
use wasmi_store::store::Store;
use wasmi_store::table::{Table, TableError, TableIdx};

fn limits(initial: usize, maximum: Option<usize>) -> ResizableLimits {
    ResizableLimits::new(initial, maximum)
}

#[test]
fn store_owns_identity_and_user_state() {
    let store = Store::new(1, 42u32);
    assert_eq!(store.id(), 1);
    assert_eq!(*store.user_state(), 42);
    assert_eq!(store.table_count(), 0);
}

#[test]
fn alloc_table_mints_resolvable_handle() {
    let mut store = Store::new(7, ());
    let table = Table::new(&mut store, limits(2, Some(4)));
    assert!(store.has_table(table));
    assert_eq!(store.table_count(), 1);
    assert_eq!(table.len(&store), 2);
    assert_eq!(store.resolve_table(table).len(), 2);
}

#[test]
fn handle_copy_aliases_one_entity() {
    let mut store = Store::new(3, ());
    let mut table = Table::new(&mut store, limits(3, Some(8)));
    let alias = table;
    let func = FuncRef::new(11);
    assert_eq!(table.set(&mut store, 1, Some(func)), Ok(()));
    assert_eq!(alias.get(&store, 1), Ok(Some(func)));
}

#[test]
fn two_tables_are_independent() {
    let mut store = Store::new(5, ());
    let mut first = Table::new(&mut store, limits(1, Some(4)));
    let second = Table::new(&mut store, limits(2, Some(4)));
    assert_eq!(first.grow(&mut store, 1), Ok(()));
    assert_eq!(first.len(&store), 2);
    assert_eq!(second.len(&store), 2);
    assert_eq!(second.get(&store, 0), Ok(None));
}

#[test]
fn cross_store_handle_is_detected() {
    let mut owner = Store::new(1, ());
    let mut other = Store::new(2, ());
    let table = Table::new(&mut owner, limits(1, Some(2)));
    // the other store holds a table at the same position, so only the
    // store identity tells the handles apart
    let _ = Table::new(&mut other, limits(1, Some(2)));
    assert!(owner.has_table(table));
    assert!(!other.has_table(table));
}

#[test]
fn grow_through_handle_respects_maximum() {
    let mut store = Store::new(9, ());
    let mut table = Table::new(&mut store, limits(2, Some(4)));
    assert_eq!(table.grow(&mut store, 1), Ok(()));
    assert_eq!(table.len(&store), 3);
    assert_eq!(
        table.grow(&mut store, 2),
        Err(TableError::GrowOutOfBounds { maximum: 4, current: 3, grow_by: 2 })
    );
    assert_eq!(table.len(&store), 3);
}

#[test]
fn handle_get_out_of_bounds_error() {
    let mut store = Store::new(4, ());
    let table = Table::new(&mut store, limits(3, Some(4)));
    assert_eq!(
        table.get(&store, 5),
        Err(TableError::AccessOutOfBounds { current: 3, offset: 5 })
    );
}

#[test]
fn handle_limits_reach_the_entity() {
    let mut store = Store::new(6, ());
    let table = Table::new(&mut store, limits(1, Some(3)));
    assert_eq!(table.limits(&store).initial(), 1);
    assert_eq!(table.limits(&store).maximum(), Some(3));
}

#[test]
fn table_idx_round_trips_through_usize() {
    let idx = TableIdx::from_usize(5);
    assert_eq!(idx.into_usize(), 5);
    assert_eq!(idx, TableIdx(5));
}
