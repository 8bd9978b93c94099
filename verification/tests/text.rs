use ton_client::text::str_hex_to_utf8;

#[test]
fn hex_digits_give_the_text() {
    assert_eq!(str_hex_to_utf8("68656c6c6f"), Some("hello".to_owned()));
    assert_eq!(str_hex_to_utf8("4F4B"), Some("OK".to_owned()));
    assert_eq!(str_hex_to_utf8("4f4b"), Some("OK".to_owned()));
    assert_eq!(str_hex_to_utf8("c3a9"), Some("\u{e9}".to_owned()));
    assert_eq!(str_hex_to_utf8(""), Some(String::new()));
}

#[test]
fn no_text_from_other_digits() {
    assert_eq!(str_hex_to_utf8("686"), None);
    assert_eq!(str_hex_to_utf8("6g"), None);
    assert_eq!(str_hex_to_utf8("0x41"), None);
    assert_eq!(str_hex_to_utf8("\u{e9}"), None);
}

#[test]
fn no_text_from_bytes_that_are_not_utf8() {
    assert_eq!(str_hex_to_utf8("ff"), None);
    assert_eq!(str_hex_to_utf8("c3"), None);
}
