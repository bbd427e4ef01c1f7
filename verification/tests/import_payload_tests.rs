use stocker_core::import_payload::base64_decode;

#[test]
fn decodes_standard_base64_with_padding_stop() {
    assert_eq!(base64_decode("SGVsbG8=").unwrap(), b"Hello".to_vec());
    assert_eq!(base64_decode("////").unwrap(), vec![255u8, 255, 255]);
    assert_eq!(base64_decode("++++").unwrap(), vec![251u8, 239, 190]);
    assert_eq!(base64_decode("AAAA").unwrap(), vec![0u8, 0, 0]);
    assert_eq!(base64_decode("c3ltYm9sLHF0eQpUQ1MsMTA=").unwrap(), b"symbol,qty\nTCS,10".to_vec());
}

#[test]
fn skips_ascii_whitespace() {
    assert_eq!(base64_decode(" 9/+z\n").unwrap(), vec![247u8, 255, 179]);
    assert_eq!(base64_decode("SGVs\r\nbG8=").unwrap(), b"Hello".to_vec());
    assert_eq!(base64_decode("//\t//").unwrap(), base64_decode("////").unwrap());
}

#[test]
fn stops_at_first_padding_byte() {
    assert_eq!(base64_decode("=AAA").unwrap(), Vec::<u8>::new());
    assert_eq!(base64_decode("").unwrap(), Vec::<u8>::new());
    assert_eq!(base64_decode("////=!!").unwrap(), vec![255u8, 255, 255]);
}

#[test]
fn refuses_bytes_outside_the_alphabet() {
    assert_eq!(base64_decode("ab!c").unwrap_err(), "invalid base64");
    assert_eq!(base64_decode("é").unwrap_err(), "invalid base64");
    assert_eq!(base64_decode("ab_c").unwrap_err(), "invalid base64");
}
