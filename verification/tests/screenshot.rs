use recoilly::screenshot::{data_url, jpeg_data_url};

#[test]
fn the_image_is_encoded_in_standard_base64() {
    assert_eq!(
        jpeg_data_url(b"hello").as_deref(),
        Some("data:image/jpeg;base64,aGVsbG8=")
    );
}

#[test]
fn the_standard_alphabet_and_padding_are_used() {
    assert_eq!(
        jpeg_data_url(&[0xfb, 0xff, 0xfe, 0x3e]).as_deref(),
        Some("data:image/jpeg;base64,+//+Pg==")
    );
    assert_eq!(jpeg_data_url(b"abc").as_deref(), Some("data:image/jpeg;base64,YWJj"));
}

#[test]
fn an_empty_image_gives_the_bare_prefix() {
    assert_eq!(jpeg_data_url(&[]).as_deref(), Some("data:image/jpeg;base64,"));
}

#[test]
fn the_start_of_a_jpeg_file() {
    assert_eq!(
        jpeg_data_url(&[0xff, 0xd8, 0xff, 0xe0, 0x00, 0x10]).as_deref(),
        Some("data:image/jpeg;base64,/9j/4AAQ")
    );
}

#[test]
fn the_prefix_is_put_before_the_text() {
    assert_eq!(data_url("QUJD"), "data:image/jpeg;base64,QUJD");
    assert_eq!(data_url(""), "data:image/jpeg;base64,");
}
