use trident::utils::hasher::jenkins64;

#[test]
fn assert_jenkins64() {
    assert_eq!(
        jenkins64(1281291242888) ^ jenkins64(122345676892),
        17281198411619148719
    );
}

#[test]
fn jenkins64_of_small_words() {
    assert_eq!(jenkins64(0), 8633297058295171728);
    assert_eq!(jenkins64(1), 6614235796240398542);
    assert_eq!(jenkins64(2), 13228483051453548148);
}

#[test]
fn jenkins64_of_large_words() {
    assert_eq!(jenkins64(u64::MAX), 2272383144869939092);
    assert_eq!(jenkins64(1 << 63), 4316648529147585864);
    assert_eq!(jenkins64(1281291242888), 16667102504829092755);
    assert_eq!(jenkins64(122345676892), 621029495910309948);
}

#[test]
fn jenkins64_is_the_chain_of_wrapping_products() {
    fn fold(x: u64, by: u32) -> u64 {
        x ^ (x >> by)
    }
    for &x in &[0u64, 1, 7, 255, 1 << 21, 1 << 43, 0xdead_beef_cafe_f00d, u64::MAX - 1] {
        let a = fold(x.wrapping_mul(0x1f_ffff).wrapping_sub(1), 24);
        let b = fold(a.wrapping_mul(265), 14);
        let c = fold(b.wrapping_mul(21), 28);
        assert_eq!(jenkins64(x), c.wrapping_mul(0x8000_0001));
    }
}

#[test]
fn jenkins64_tells_neighbours_apart() {
    let mut seen = std::collections::HashSet::new();
    for x in 0..4096u64 {
        assert!(seen.insert(jenkins64(x)));
    }
}
