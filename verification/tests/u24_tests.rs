use std::collections::hash_map::DefaultHasher;
use std::collections::HashMap;
use std::hash::Hash;
use std::hash::Hasher;
use ::u24::RangeViolation;
use ::u24::u24;

fn hash_of(v: &u24) -> u64 {
    let mut h = DefaultHasher::new();
    v.hash(&mut h);
    h.finish()
}

#[test]
fn println() {
    let num: u24 = 114514_u32.into();
    let num_24 = u24::from_le_bytes([0x52, 0xBF, 0x01]);
    assert!(num == num_24);
}

#[test]
fn serialize_ok() {
    let num: u24 = 114514_u32.into();
    let serialized = serde_json::to_string(&num.to_le_bytes()).unwrap();
    let bytes: [u8; 3] = serde_json::from_str(&serialized).unwrap();
    let deserialized: u24 = u24::from_le_bytes(bytes);
    assert!(num == deserialized);
}

#[test]
fn round_trip_u32() {
    for x in [0u32, 1, 255, 256, 114514, 16777214, 16777215] {
        let v: u24 = x.into();
        assert_eq!(v.to_u32(), x);
        assert_eq!(u32::from(v), x);
    }
}

#[test]
fn round_trip_u64() {
    for x in [0u64, 1, 255, 256, 114514, 16777214, 16777215] {
        let v: u24 = x.into();
        assert_eq!(v.to_u64(), x);
        assert_eq!(u64::from(v), x);
    }
}

#[test]
fn round_trip_usize() {
    for x in [0usize, 1, 255, 256, 114514, 16777214, 16777215] {
        let v: u24 = x.into();
        assert_eq!(v.to_usize(), x);
        assert_eq!(usize::from(v), x);
    }
}

#[test]
fn byte_layout_exact() {
    let v: u24 = 114514_u32.into();
    assert_eq!(v.to_le_bytes(), [0x52, 0xBF, 0x01]);
    assert_eq!(u24::from_le_bytes([0x52, 0xBF, 0x01]).to_u32(), 114514);
}

#[test]
fn boundary_values() {
    assert_eq!(u24::min_value().to_u32(), 0);
    assert_eq!(u24::min_value().to_u64(), 0);
    assert_eq!(u24::min_value().to_usize(), 0);
    assert_eq!(u24::max_value().to_u32(), 16777215);
    assert_eq!(u24::max_value().to_u64(), 16777215);
    assert_eq!(u24::max_value().to_usize(), 16777215);
    assert!(u24::from(0u32) == u24::min_value());
    assert!(u24::from(16777215u32) == u24::max_value());
    assert_eq!(u24::min_value().to_le_bytes(), [0x00, 0x00, 0x00]);
    assert_eq!(u24::max_value().to_le_bytes(), [0xFF, 0xFF, 0xFF]);
}

#[test]
fn checked_narrowing_rejects_out_of_range() {
    assert!(u24::try_from_u32(16777216) == Err(RangeViolation));
    assert!(u24::try_from_u64(16777216) == Err(RangeViolation));
    assert!(u24::try_from_usize(16777216) == Err(RangeViolation));
    assert!(u24::try_from_u32(u32::MAX) == Err(RangeViolation));
    assert!(u24::try_from_u64(u64::MAX) == Err(RangeViolation));
    assert_eq!(u24::try_from_u32(16777215).ok().unwrap().to_u32(), 16777215);
    assert_eq!(u24::try_from_u64(114514).ok().unwrap().to_u64(), 114514);
    assert_eq!(u24::try_from_usize(0).ok().unwrap().to_usize(), 0);
}

#[test]
fn truncating_narrowing_keeps_low_bytes() {
    assert_eq!(u24::truncating_from_u32(16777216).to_u32(), 0);
    assert_eq!(u24::truncating_from_u32(16777216 + 114514).to_u32(), 114514);
    assert_eq!(u24::truncating_from_u64(u64::MAX).to_u32(), 16777215);
    assert_eq!(u24::truncating_from_usize(16777217).to_u32(), 1);
}

#[test]
fn equality_follows_bytes() {
    let a = u24::from_le_bytes([0x52, 0xBF, 0x01]);
    let b: u24 = 114514_u32.into();
    let c: u24 = 114515_u32.into();
    assert!(a == b);
    assert!(a != c);
    assert!(u24::min_value() != u24::max_value());
}

#[test]
fn equal_values_hash_alike() {
    let a = u24::from_le_bytes([0x52, 0xBF, 0x01]);
    let b: u24 = 114514_u32.into();
    assert!(a == b);
    assert_eq!(hash_of(&a), hash_of(&b));
}

#[test]
fn usable_as_hash_map_key() {
    let mut table: HashMap<u24, &str> = HashMap::new();
    table.insert(114514_u32.into(), "mid");
    table.insert(u24::min_value(), "min");
    table.insert(u24::max_value(), "max");
    assert_eq!(table.get(&u24::from(114514_u32)), Some(&"mid"));
    assert_eq!(table.get(&u24::min_value()), Some(&"min"));
    assert_eq!(table.get(&u24::max_value()), Some(&"max"));
    assert_eq!(table.get(&u24::from(7u32)), None);
}

#[test]
fn decimal_rendering() {
    let v: u24 = 114514_u32.into();
    assert_eq!(v.to_decimal_string(), "114514");
    assert_eq!(u24::min_value().to_decimal_string(), "0");
    assert_eq!(u24::max_value().to_decimal_string(), "16777215");
    assert_eq!(u24::from(10u32).to_decimal_string(), "10");
}

#[test]
fn serialize_boundaries_round_trip() {
    for x in [0u32, 114514, 16777215] {
        let v: u24 = x.into();
        let serialized = serde_json::to_string(&v.to_le_bytes()).unwrap();
        let bytes: [u8; 3] = serde_json::from_str(&serialized).unwrap();
        assert!(u24::from_le_bytes(bytes) == v);
    }
}
