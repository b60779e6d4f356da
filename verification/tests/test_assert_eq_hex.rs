use osom_tools::{check_eq_hex, check_neq_hex, AsDisplayAsHex, DisplayAsHex};

#[test]
fn test_assert_eq_hex() {
    let a: [u8; 4] = [0x01, 0x02, 0x03, 0x04];
    let b: [u8; 4] = [0x01, 0x02, 0x03, 0x04];

    let left = a.as_display_as_hex();
    let right = b.as_display_as_hex();
    assert!(check_eq_hex(left.as_slice(), right.as_slice()).is_ok());
}

#[test]
#[should_panic]
fn test_not_assert_eq_hex() {
    let a: [u8; 4] = [0x01, 0x02, 0x03, 0x04];
    let b: [u8; 1] = [0x05];

    let left = a.as_display_as_hex();
    let right = b.as_display_as_hex();
    if let Err(message) = check_eq_hex(left.as_slice(), right.as_slice()) {
        panic!("{}", message);
    }
}

#[test]
fn test_assert_neq_hex() {
    let a: [u8; 4] = [0x01, 0x02, 0x03, 0x04];
    let b: [u8; 1] = [0x05];

    let left = a.as_display_as_hex();
    let right = b.as_display_as_hex();
    assert!(check_neq_hex(left.as_slice(), right.as_slice()).is_ok());
}

#[test]
#[should_panic]
fn test_not_assert_neq_hex() {
    let a: [u8; 4] = [0x01, 0x02, 0x03, 0x04];
    let b: [u8; 4] = [0x01, 0x02, 0x03, 0x04];

    let left = a.as_display_as_hex();
    let right = b.as_display_as_hex();
    if let Err(message) = check_neq_hex(left.as_slice(), right.as_slice()) {
        panic!("{}", message);
    }
}

#[test]
fn test_to_hex_string_exact() {
    let bytes: [u8; 4] = [0x00, 0x1a, 0xb2, 0xff];
    let wrapped = DisplayAsHex::new(&bytes);
    assert_eq!(wrapped.to_hex_string(), "[0x00, 0x1a, 0xb2, 0xff]");
    assert_eq!(wrapped.as_slice(), &bytes);

    let empty: [u8; 0] = [];
    assert_eq!(DisplayAsHex::new(&empty).to_hex_string(), "[]");

    let single: [u8; 1] = [0x07];
    assert_eq!(DisplayAsHex::new(&single).to_hex_string(), "[0x07]");
}

#[test]
fn test_eq_hex_failure_message() {
    let a: [u8; 2] = [0x01, 0x23];
    let b: [u8; 1] = [0xcd];
    let message = check_eq_hex(&a, &b).unwrap_err();
    assert_eq!(
        message,
        "assertion `left == right` failed\n  left: [0x01, 0x23]\n right: [0xcd]"
    );

    let message = check_neq_hex(&b, &b).unwrap_err();
    assert_eq!(
        message,
        "assertion `left != right` failed\n  value: [0xcd]"
    );
}

#[test]
fn test_as_display_as_hex_forms() {
    let array: [u8; 2] = [0xde, 0xad];
    let slice: &[u8] = &array;
    let vector: Vec<u8> = vec![0xde, 0xad];

    assert_eq!(array.as_display_as_hex().as_slice(), slice);
    assert_eq!(slice.as_display_as_hex().as_slice(), slice);
    assert_eq!((&array).as_display_as_hex().as_slice(), slice);
    assert_eq!(vector.as_display_as_hex().as_slice(), slice);
    assert_eq!((&vector).as_display_as_hex().as_slice(), slice);
    assert_eq!(vector[..].as_display_as_hex().as_slice(), slice);
}

#[test]
fn test_call() {
    let result = osom_tools::hidden::call(|| 25i64);
    assert_eq!(result, 25);
}
