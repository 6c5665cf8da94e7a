use lmdb_handles::keys::{entry_cmp_as, Cmp, OrdKey};

#[test]
fn u32_keys_parse_from_four_bytes() {
    assert_eq!(<u32 as OrdKey>::from_bytes(&[1, 2, 3, 4]), Some(0x04030201));
    assert_eq!(<u32 as OrdKey>::from_bytes(&[]), None);
    assert_eq!(<u32 as OrdKey>::from_bytes(&[1, 2, 3]), None);
    assert_eq!(<u32 as OrdKey>::from_bytes(&[1, 2, 3, 4, 5]), None);
}

#[test]
fn comparator_orders_as_the_key_type() {
    let one = [1, 0, 0, 0];
    let two = [2, 0, 0, 0];
    assert_eq!(entry_cmp_as::<u32>(&one, &two), Cmp::Less);
    assert_eq!(entry_cmp_as::<u32>(&two, &one), Cmp::Greater);
    assert_eq!(entry_cmp_as::<u32>(&two, &two), Cmp::Equal);
}

#[test]
fn comparator_is_not_byte_lexicographic() {
    // 256 stored little-endian reads [0, 1, 0, 0]; byte-wise it would sort
    // before [255, 0, 0, 0], but as an integer it is the greater key.
    let v256 = [0, 1, 0, 0];
    let v255 = [255, 0, 0, 0];
    assert_eq!(entry_cmp_as::<u32>(&v256, &v255), Cmp::Greater);
    assert_eq!(entry_cmp_as::<u32>(&v255, &v256), Cmp::Less);
}

#[test]
fn unparseable_keys_compare_equal_to_everything() {
    let short = [1, 2];
    let other = [9, 9, 9];
    let ok = [1, 0, 0, 0];
    assert_eq!(entry_cmp_as::<u32>(&short, &other), Cmp::Equal);
    assert_eq!(entry_cmp_as::<u32>(&short, &ok), Cmp::Equal);
    assert_eq!(entry_cmp_as::<u32>(&ok, &short), Cmp::Equal);
}

#[test]
fn cmp_keys_three_way() {
    assert_eq!(1u32.cmp_keys(&2), Cmp::Less);
    assert_eq!(2u32.cmp_keys(&2), Cmp::Equal);
    assert_eq!(3u32.cmp_keys(&2), Cmp::Greater);
}
