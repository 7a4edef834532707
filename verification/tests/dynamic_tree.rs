use boxddd::{
    checked_count, checked_proxy_capacity, DynamicTreeFilter, DynamicTreeHit, Error, ProxyRecord,
    ProxyTable,
};

#[test]
fn created_proxy_is_live_with_nonzero_generation() {
    let mut table = ProxyTable::new();
    let id = table.record_created_proxy(0, 0b10, 42).unwrap();
    assert_eq!(id.index(), 0);
    assert_eq!(id.into_raw(), 0);
    assert_eq!(id.generation(), 1);
    assert!(table.contains_proxy(id));
    assert_eq!(
        table.proxy_entry(id),
        Ok(ProxyRecord { generation: 1, category_bits: 0b10, user_data: 42 })
    );
    assert_eq!(table.proxy_index(id), Ok(0));
    assert!(table.has_proxies());
}

#[test]
fn negative_native_index_is_refused() {
    let mut table = ProxyTable::new();
    assert_eq!(table.record_created_proxy(-1, 1, 1), Err(Error::InvalidArgument));
    assert!(!table.has_proxies());
}

#[test]
fn stale_handle_is_rejected_after_index_reuse() {
    let mut table = ProxyTable::new();
    let first = table.record_created_proxy(3, u64::MAX, 7).unwrap();
    assert_eq!(table.destroy_proxy(first), Ok(3));
    assert!(!table.contains_proxy(first));
    let second = table.record_created_proxy(3, u64::MAX, 8).unwrap();
    assert_eq!(second.index(), first.index());
    assert_eq!(second.generation(), 2);
    assert!(!table.contains_proxy(first));
    assert!(table.contains_proxy(second));
    assert_eq!(table.proxy_entry(first), Err(Error::InvalidArgument));
    assert_eq!(table.destroy_proxy(first), Err(Error::InvalidArgument));
    assert_ne!(first, second);
}

#[test]
fn generations_are_tracked_per_index() {
    let mut table = ProxyTable::new();
    let a = table.record_created_proxy(0, 1, 1).unwrap();
    let b = table.record_created_proxy(1, 1, 2).unwrap();
    assert_eq!((a.generation(), b.generation()), (1, 1));
    table.destroy_proxy(a).unwrap();
    let c = table.record_created_proxy(0, 1, 3).unwrap();
    assert_eq!(c.generation(), 2);
    assert!(table.contains_proxy(b));
}

#[test]
fn category_bits_are_replaced() {
    let mut table = ProxyTable::new();
    let id = table.record_created_proxy(5, 1, 9).unwrap();
    assert_eq!(table.set_category_bits(id, 0xf0), Ok(5));
    assert_eq!(table.proxy_entry(id).unwrap().category_bits, 0xf0);
    assert_eq!(table.proxy_entry(id).unwrap().user_data, 9);
    table.destroy_proxy(id).unwrap();
    assert_eq!(table.set_category_bits(id, 1), Err(Error::InvalidArgument));
}

#[test]
fn enlarged_nodes_block_validation_until_rebuild() {
    let mut table = ProxyTable::new();
    let id = table.record_created_proxy(0, 1, 1).unwrap();
    let _other = table.record_created_proxy(1, 1, 1).unwrap();
    assert_eq!(table.validate_no_enlarged(), Ok(()));
    table.record_enlarged();
    assert_eq!(table.validate_no_enlarged(), Err(Error::InvalidArgument));
    table.destroy_proxy(id).unwrap();
    assert_eq!(table.validate_no_enlarged(), Err(Error::InvalidArgument));
    table.record_rebuilt();
    assert_eq!(table.validate_no_enlarged(), Ok(()));
}

#[test]
fn emptying_the_table_keeps_enlarged_nodes_until_rebuild() {
    let mut table = ProxyTable::new();
    let id = table.record_created_proxy(0, 1, 1).unwrap();
    table.record_enlarged();
    table.destroy_proxy(id).unwrap();
    assert!(!table.has_proxies());
    assert_eq!(table.validate_no_enlarged(), Err(Error::InvalidArgument));
    table.record_rebuilt();
    assert_eq!(table.validate_no_enlarged(), Ok(()));
}

#[test]
fn traversal_ids_carry_live_generation_or_zero() {
    let mut table = ProxyTable::new();
    let id = table.record_created_proxy(2, 1, 1).unwrap();
    assert_eq!(table.proxy_id_for_index(2), id);
    let unknown = table.proxy_id_for_index(9);
    assert_eq!((unknown.index(), unknown.generation()), (9, 0));
    assert!(!table.contains_proxy(unknown));
    let hit = DynamicTreeHit { proxy_id: id, user_data: 1 };
    assert_eq!(hit.proxy_id.generation(), 1);
}

#[test]
fn capacity_hint_is_bounded_by_half_of_i32_max() {
    assert_eq!(checked_proxy_capacity(0), Ok(0));
    assert_eq!(checked_proxy_capacity(1_073_741_823), Ok(1_073_741_823));
    assert_eq!(checked_proxy_capacity(1_073_741_824), Err(Error::InvalidArgument));
    assert_eq!(checked_proxy_capacity(usize::MAX), Err(Error::InvalidArgument));
}

#[test]
fn native_counts_must_be_non_negative() {
    assert_eq!(checked_count(17), Ok(17));
    assert_eq!(checked_count(0), Ok(0));
    assert_eq!(checked_count(-1), Err(Error::InvalidArgument));
}

#[test]
fn filters() {
    let all = DynamicTreeFilter::default();
    assert_eq!(all.mask_bits, u64::MAX);
    assert!(!all.require_all_bits);
    let f = DynamicTreeFilter::new(0b101).require_all_bits(true);
    assert_eq!(f, DynamicTreeFilter { mask_bits: 0b101, require_all_bits: true });
}

#[test]
fn handle_stays_accepted_until_its_proxy_is_destroyed() {
    let mut table = ProxyTable::new();
    let id = table.record_created_proxy(3, 1, 7).unwrap();
    let other = table.record_created_proxy(4, 2, 8).unwrap();
    table.set_category_bits(other, 6).unwrap();
    table.record_enlarged();
    table.record_rebuilt();
    assert!(table.contains_proxy(id));
    assert_eq!(table.destroy_proxy(other), Ok(4));
    assert!(table.contains_proxy(id));
    assert_eq!(table.proxy_entry(id), Ok(ProxyRecord { generation: 1, category_bits: 1, user_data: 7 }));
    assert_eq!(table.destroy_proxy(id), Ok(3));
    assert!(!table.contains_proxy(id));
    assert_eq!(table.destroy_proxy(id), Err(Error::InvalidArgument));
    let reused = table.record_created_proxy(3, 1, 7).unwrap();
    assert!(!table.contains_proxy(id));
    assert!(table.contains_proxy(reused));
    assert_eq!(reused.generation(), 2);
}
