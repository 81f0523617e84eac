use actix_contrib_rest::result::AppError;
use actix_contrib_rest::stream::read_body;

#[test]
fn read_body_of_utf8_bytes() {
    assert_eq!(read_body(b"{\"ok\":true}".to_vec()).unwrap(), "{\"ok\":true}");
    assert_eq!(read_body(Vec::new()).unwrap(), "");
}

#[test]
fn read_body_decodes_text_beyond_ascii() {
    assert_eq!(read_body(vec![0x63, 0x61, 0x66, 0xC3, 0xA9]).unwrap(), "café");
    assert_eq!(read_body("日本語 €".as_bytes().to_vec()).unwrap(), "日本語 €");
}

#[test]
fn read_body_of_other_bytes_is_unexpected() {
    match read_body(vec![0x66, 0x6F, 0xFF]) {
        Err(AppError::Unexpected(cause)) => {
            assert!(cause.downcast_ref::<std::string::FromUtf8Error>().is_some())
        }
        other => panic!("unexpected {:?}", other),
    }
    let truncated = read_body(vec![0xE2, 0x82]);
    assert!(matches!(truncated, Err(AppError::Unexpected(_))));
    assert_eq!(read_body(vec![0xC0, 0x80]).unwrap_err().status_code(), 500);
}
