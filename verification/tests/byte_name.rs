use bytes::Bytes;
use rpxy_backend::utils::byte_name::BytesName;

#[test]
fn bytes_name_str_works() {
    let s = "OK_string";
    let bn = s.to_byte_name();
    let bn_lc = s.to_ascii_lowercase_byte_name();

    assert_eq!(Bytes::from(s.as_bytes()), bn);
    assert_eq!(Bytes::from("ok_string"), bn_lc);
}

#[test]
fn bytes_name_string_works() {
    let s = String::from("Host-Name.Example");
    assert_eq!(s.clone().to_byte_name(), Bytes::from("Host-Name.Example"));
    assert_eq!(s.to_ascii_lowercase_byte_name(), Bytes::from("host-name.example"));
}

#[test]
fn only_ascii_capitals_are_lowered() {
    assert_eq!("AZ az @[ `{ 09".to_ascii_lowercase_byte_name(), Bytes::from("az az @[ `{ 09"));
    assert_eq!("\u{c9}t\u{e9} \u{212a}".to_ascii_lowercase_byte_name(), Bytes::from("\u{c9}t\u{e9} \u{212a}"));
    assert_eq!("".to_ascii_lowercase_byte_name(), Bytes::new());
    assert_eq!("".to_byte_name(), Bytes::new());
}

#[test]
fn lowercase_agrees_with_std() {
    let text = "The Quick BROWN fox \u{d6}L";
    assert_eq!(
        text.to_ascii_lowercase_byte_name(),
        Bytes::from(text.as_bytes().to_ascii_lowercase())
    );
}
