use state_reconstruct::genesis_load::{decode_code, hex_quantity, is_overridden, AccountAlloc};
use state_reconstruct::text::has_underscore;

fn number(n: u128) -> [u8; 32] {
    let mut out = [0u8; 32];
    out[16..].copy_from_slice(&n.to_be_bytes());
    out
}

#[test]
fn hex_quantity_reads_with_and_without_marker() {
    assert_eq!(hex_quantity("0x1c9c380"), Some(number(30_000_000)));
    assert_eq!(hex_quantity("1c9c380"), Some(number(30_000_000)));
    assert_eq!(hex_quantity("0xFF"), Some(number(255)));
    assert_eq!(hex_quantity("0x0"), Some(number(0)));
}

#[test]
fn hex_quantity_takes_one_marker_and_no_more() {
    assert_eq!(hex_quantity("0x10"), Some(number(16)));
    assert_eq!(hex_quantity("0x0x10"), None);
    assert_eq!(hex_quantity("0x"), Some(number(0)));
    assert_eq!(hex_quantity(""), Some(number(0)));
}

#[test]
fn hex_quantity_refuses_underscores() {
    assert_eq!(hex_quantity("0xff_ff"), None);
    assert_eq!(hex_quantity("_"), None);
    assert_eq!(hex_quantity("0x_"), None);
    assert_eq!(hex_quantity("ff_"), None);
}

#[test]
fn hex_quantity_refuses_other_characters() {
    assert_eq!(hex_quantity("0xg"), None);
    assert_eq!(hex_quantity("12 "), None);
    assert_eq!(hex_quantity("0X10"), None);
    assert_eq!(hex_quantity("-1"), None);
    assert_eq!(hex_quantity("0x1é"), None);
}

#[test]
fn hex_quantity_holds_256_bits_and_no_more() {
    let top = "0xffffffffffffffffffffffffffffffffffffffffffffffffffffffffffffffff";
    assert_eq!(hex_quantity(top), Some([0xff; 32]));
    let padded = "0x000ffffffffffffffffffffffffffffffffffffffffffffffffffffffffffffffff";
    assert_eq!(hex_quantity(padded), Some([0xff; 32]));
    let over = "0x10000000000000000000000000000000000000000000000000000000000000000";
    assert_eq!(hex_quantity(over), None);
}

#[test]
fn code_is_read_with_or_without_marker() {
    assert_eq!(decode_code("0x6001"), vec![0x60, 0x01]);
    assert_eq!(decode_code("6001"), vec![0x60, 0x01]);
    assert_eq!(decode_code("0xABcd"), vec![0xab, 0xcd]);
    assert_eq!(decode_code("0x"), Vec::<u8>::new());
    assert_eq!(decode_code(""), Vec::<u8>::new());
}

#[test]
fn malformed_code_is_empty() {
    assert_eq!(decode_code("0x600"), Vec::<u8>::new());
    assert_eq!(decode_code("0xzz"), Vec::<u8>::new());
    assert_eq!(decode_code("0x0x6001"), Vec::<u8>::new());
    assert_eq!(decode_code("60 01"), Vec::<u8>::new());
    assert_eq!(decode_code("é"), Vec::<u8>::new());
}

#[test]
fn underscores_are_found_wherever_they_stand() {
    assert!(has_underscore("_"));
    assert!(has_underscore("1_000"));
    assert!(has_underscore("é_"));
    assert!(has_underscore("abc_"));
    assert!(!has_underscore(""));
    assert!(!has_underscore("1000"));
    assert!(!has_underscore("é-"));
}

#[test]
fn an_entry_is_overridden_by_a_later_one_for_its_address() {
    let entries = vec![
        ([1u8; 20], AccountAlloc::default()),
        ([2u8; 20], AccountAlloc::default()),
        ([1u8; 20], AccountAlloc::default()),
        ([3u8; 20], AccountAlloc::default()),
    ];
    assert!(is_overridden(&entries, 0));
    assert!(!is_overridden(&entries, 1));
    assert!(!is_overridden(&entries, 2));
    assert!(!is_overridden(&entries, 3));
}
