use trident::common::XflowKey;

#[test]
fn key_packs_address_and_index() {
    assert_eq!(XflowKey::new(0, 0).hash_key(), 0);
    assert_eq!(XflowKey::new(0, 7).hash_key(), 7);
    assert_eq!(XflowKey::new(1, 0).hash_key(), 1 << 32);
    assert_eq!(XflowKey::new(0x0a00_0001, 3).hash_key(), 0x0a00_0001_0000_0003);
    assert_eq!(XflowKey::new(u32::MAX, u32::MAX).hash_key(), u64::MAX);
}

#[test]
fn keys_are_ordered_by_address_then_index() {
    assert!(XflowKey::new(1, 9) < XflowKey::new(2, 0));
    assert!(XflowKey::new(1, 1) < XflowKey::new(1, 2));
    assert_eq!(XflowKey::new(5, 6), XflowKey::new(5, 6));
}

#[test]
fn packed_keys_differ_where_keys_differ() {
    assert_ne!(XflowKey::new(1, 0).hash_key(), XflowKey::new(0, 1).hash_key());
    assert_ne!(XflowKey::new(1, 2).hash_key(), XflowKey::new(2, 1).hash_key());
}
