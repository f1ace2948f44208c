use storage_dal::codec::{decode, encode, reading, successor};
use storage_dal::path::{
    build_key, record_path, scan_prefix, sequence_path, SEQUENCE_TREE_NAME, STRUCTURED_TREE_NAME,
};
use storage_dal::StorageData;

struct Test;

impl StorageData for Test {
    fn name() -> String {
        "Test".to_string()
    }
}

struct Test1;

impl StorageData for Test1 {
    fn name() -> String {
        "Test1".to_string()
    }
}

#[test]
fn tree_names_are_fixed() {
    assert_eq!(STRUCTURED_TREE_NAME, "STRUCTURED");
    assert_eq!(SEQUENCE_TREE_NAME, "SEQUENCE");
}

#[test]
fn record_path_joins_tree_type_and_key() {
    assert_eq!(record_path("Test", "0"), "STRUCTURED/Test/0");
    assert_eq!(record_path("Test", ""), "STRUCTURED/Test/");
    assert_eq!(record_path("", "k"), "STRUCTURED//k");
    assert_eq!(record_path("Test", "a/b"), "STRUCTURED/Test/a/b");
}

#[test]
fn sequence_path_joins_tree_and_name() {
    assert_eq!(sequence_path("test"), "SEQUENCE/test");
    assert_eq!(sequence_path(""), "SEQUENCE/");
}

#[test]
fn scan_prefix_ends_with_separator() {
    assert_eq!(scan_prefix("Test"), "STRUCTURED/Test/");
}

#[test]
fn build_key_uses_the_type_name() {
    assert_eq!(build_key::<Test>("test"), "STRUCTURED/Test/test");
    assert_eq!(build_key::<Test1>("test"), "STRUCTURED/Test1/test");
}

#[test]
fn paths_are_stable_across_calls() {
    assert_eq!(record_path("Test", "7"), record_path("Test", "7"));
    assert_eq!(sequence_path("x"), sequence_path("x"));
}

#[test]
fn record_lies_under_own_prefix_only() {
    let path = record_path("Test", "0");
    assert!(path.starts_with(&scan_prefix("Test")));
    assert!(!path.starts_with(&scan_prefix("Test1")));
    let other = record_path("Test1", "0");
    assert!(other.starts_with(&scan_prefix("Test1")));
    assert!(!other.starts_with(&scan_prefix("Test")));
}

#[test]
fn type_name_with_separator_breaks_isolation() {
    let path = record_path("A/B", "x");
    assert!(path.starts_with(&scan_prefix("A")));
}

#[test]
fn records_and_counters_never_share_a_path() {
    assert_ne!(record_path("", ""), sequence_path(""));
    assert_ne!(record_path("Test", "test"), sequence_path("test"));
    assert!(!record_path("Test", "test").starts_with("SEQUENCE/"));
    assert!(!sequence_path("test").starts_with("STRUCTURED/"));
}

#[test]
fn encode_is_big_endian() {
    assert_eq!(encode(0), vec![0, 0, 0, 0]);
    assert_eq!(encode(1), vec![0, 0, 0, 1]);
    assert_eq!(encode(256), vec![0, 0, 1, 0]);
    assert_eq!(encode(0x0102_0304), vec![1, 2, 3, 4]);
    assert_eq!(encode(u32::MAX), vec![255, 255, 255, 255]);
    assert_eq!(encode(0xDEAD_BEEF), 0xDEAD_BEEFu32.to_be_bytes().to_vec());
}

#[test]
fn decode_reads_exactly_four_bytes() {
    assert_eq!(decode(&[0, 0, 0, 1]), Some(1));
    assert_eq!(decode(&[1, 2, 3, 4]), Some(0x0102_0304));
    assert_eq!(decode(&[255, 255, 255, 255]), Some(u32::MAX));
    assert_eq!(decode(&[]), None);
    assert_eq!(decode(&[1, 2, 3]), None);
    assert_eq!(decode(&[1, 2, 3, 4, 5]), None);
}

#[test]
fn decode_inverts_encode() {
    for value in [0u32, 1, 255, 256, 65_535, 65_536, 16_777_215, 16_777_216, u32::MAX - 1, u32::MAX]
    {
        assert_eq!(decode(&encode(value)), Some(value));
        assert_eq!(value, u32::from_be_bytes(encode(value).try_into().unwrap()));
    }
}

#[test]
fn layout_sorts_like_the_numbers() {
    let values = [0u32, 1, 2, 255, 256, 257, 65_535, 65_536, 1 << 24, u32::MAX];
    for a in values {
        for b in values {
            assert_eq!(a < b, encode(a) < encode(b));
        }
    }
}

#[test]
fn reading_takes_absent_and_malformed_as_zero() {
    assert_eq!(reading(None), 0);
    assert_eq!(reading(Some(&vec![])), 0);
    assert_eq!(reading(Some(&vec![1, 2, 3])), 0);
    assert_eq!(reading(Some(&vec![0, 0, 0, 0, 1])), 0);
    assert_eq!(reading(Some(&vec![0, 0, 0, 7])), 7);
}

#[test]
fn successor_stops_at_the_top() {
    assert_eq!(successor(0), Some(1));
    assert_eq!(successor(41), Some(42));
    assert_eq!(successor(u32::MAX - 1), Some(u32::MAX));
    assert_eq!(successor(u32::MAX), None);
}
