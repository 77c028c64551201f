use pgdatum::{Bytea, Text};

#[test]
fn test() {
    let txt = "Hello";
    println!("{:?}", txt.as_bytes().len());
    assert_eq!(Bytea::from(txt.as_bytes()).as_ref().len(), 5);
}

#[test]
fn bytea_copies_its_data() {
    let b = Bytea::from(&[0u8, 0, 0, 1, 1]);
    assert_eq!(b.as_ref(), &[0u8, 0, 0, 1, 1]);
}

#[test]
fn palloc_then_fill() {
    let mut b = Bytea::palloc(5);
    assert_eq!(b.as_ref(), &[0u8; 5]);
    b.as_mut().copy_from_slice(&[0u8, 0u8, 0u8, 1u8, 1u8]);
    assert_eq!(b.as_ref(), &[0u8, 0, 0, 1, 1]);
}

#[test]
fn bytea_as_text() {
    let b = Bytea::from("héllo".as_bytes());
    assert_eq!(b.as_str(), Some("héllo"));
    let bad = Bytea::from(&[0x68u8, 0xff]);
    assert_eq!(bad.as_str(), None);
}

#[test]
fn bytea_text_changed_in_place() {
    let mut b = Bytea::from(b"hello");
    b.as_str_mut().unwrap().make_ascii_uppercase();
    assert_eq!(b.as_ref(), b"HELLO");
    let mut bad = Bytea::from(&[0xc3u8]);
    assert!(bad.as_str_mut().is_none());
}

#[test]
fn bytea_into_text() {
    let t = Bytea::from(b"abc").try_into().unwrap();
    assert_eq!(t.as_ref(), "abc");
    assert!(Bytea::from(&[0xffu8]).try_into().is_err());
}

#[test]
fn text_from_str() {
    let t = Text::from("Hello");
    assert_eq!(t.as_ref(), "Hello");
    assert_eq!(t.to_string(), "Hello");
    assert_eq!(Text::from("").as_ref(), "");
}
