use common::text::contains_nul;
use common::text::find_nul;
use common::text::CText;

#[test]
fn plain_text_converts() {
    let text = CText::new(String::from("GPU0")).unwrap();
    assert_eq!(text.as_bytes(), b"GPU0");
}

#[test]
fn empty_text_converts() {
    let text = CText::new(String::new()).unwrap();
    assert!(text.as_bytes().is_empty());
    assert_eq!(text.into_bytes_with_nul(), vec![0u8]);
}

#[test]
fn text_keeps_its_bytes_beyond_ascii() {
    let text = CText::new(String::from("Grüße")).unwrap();
    assert_eq!(text.as_bytes(), "Grüße".as_bytes());
    assert_eq!(text.as_bytes().len(), 7);
}

#[test]
fn zero_byte_inside_is_refused() {
    let error = CText::new(String::from("GPU\0zero")).unwrap_err();
    assert_eq!(error.nul_position(), 3);
}

#[test]
fn zero_byte_at_the_start_is_refused() {
    let error = CText::new(String::from("\0")).unwrap_err();
    assert_eq!(error.nul_position(), 0);
}

#[test]
fn zero_byte_at_the_end_is_refused() {
    let error = CText::new(String::from("/dev/dri/renderD128\0")).unwrap_err();
    assert_eq!(error.nul_position(), 19);
}

#[test]
fn first_of_several_zero_bytes_is_reported() {
    let error = CText::new(String::from("ä\0b\0")).unwrap_err();
    assert_eq!(error.nul_position(), 2);
}

#[test]
fn bytes_with_nul_end_in_the_only_zero() {
    let bytes = CText::new(String::from("card0")).unwrap().into_bytes_with_nul();
    assert_eq!(bytes, b"card0\0".to_vec());
    assert_eq!(find_nul(&bytes), Some(5));
}

#[test]
fn find_nul_finds_the_first() {
    assert_eq!(find_nul(&[1, 2, 0, 4, 0]), Some(2));
    assert_eq!(find_nul(&[0]), Some(0));
}

#[test]
fn find_nul_finds_none() {
    assert_eq!(find_nul(&[]), None);
    assert_eq!(find_nul(&[1, 2, 3, 255]), None);
}

#[test]
fn contains_nul_agrees_with_conversion() {
    for text in ["", "a", "a\0", "\0a", "renderD128", "x\0y\0z", "日本語"] {
        assert_eq!(contains_nul(text), CText::new(String::from(text)).is_err());
    }
    assert!(contains_nul("a\0b"));
    assert!(!contains_nul("ab"));
}

#[test]
fn copy_of_a_text_has_the_same_bytes() {
    let text = CText::new(String::from("renderD128")).unwrap();
    let copy = text.clone();
    assert_eq!(copy, text);
    assert_eq!(text.into_bytes_with_nul(), b"renderD128\0".to_vec());
    assert_eq!(copy.as_bytes(), b"renderD128");
}
