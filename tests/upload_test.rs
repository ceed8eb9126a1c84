use base64::Engine;
use imgbb::classifier::classify_upload;
use imgbb::client::DEFAULT_USER_AGENT;
use imgbb::encoding::{decimal, encode};
use imgbb::request::IMGBB_API_URL;
use imgbb::{ImgBB, Uploader};
use imgbb::{Data, Error, ErrorResponse, Response};

const PNG: [u8; 68] = [
    0x89, 0x50, 0x4E, 0x47, 0x0D, 0x0A, 0x1A, 0x0A, 0x00, 0x00, 0x00, 0x0D, 0x49, 0x48, 0x44,
    0x52, 0x00, 0x00, 0x00, 0x01, 0x00, 0x00, 0x00, 0x01, 0x08, 0x04, 0x00, 0x00, 0x00, 0xB5,
    0x1C, 0x0C, 0x02, 0x00, 0x00, 0x00, 0x0B, 0x49, 0x44, 0x41, 0x54, 0x08, 0xD7, 0x63, 0x64,
    0xF8, 0x07, 0x00, 0x01, 0x05, 0x01, 0x01, 0x27, 0x18, 0xE3, 0x76, 0x00, 0x00, 0x00, 0x00,
    0x49, 0x45, 0x4E, 0x44, 0xAE, 0x42, 0x60, 0x82,
];

fn client() -> ImgBB {
    ImgBB::new_with_client("test_key", reqwest::Client::builder().build().unwrap())
}

fn pairs(v: &[(&str, &str)]) -> Vec<(String, String)> {
    v.iter().map(|(a, b)| (a.to_string(), b.to_string())).collect()
}

fn is_missing_image(e: &Error) -> bool {
    matches!(e, Error::MissingField(f) if f == "image")
}

#[test]
fn no_payload_fails_with_missing_field() {
    let imgbb = client();
    assert!(is_missing_image(&imgbb.upload_builder().request().unwrap_err()));
    let b = imgbb
        .upload_builder()
        .name("n")
        .title("t")
        .album("a")
        .expiration(60);
    assert!(is_missing_image(&b.request().unwrap_err()));
    let u = Uploader::new("test_key", imgbb.client());
    assert!(is_missing_image(&u.request().unwrap_err()));
}

#[test]
fn encoding_round_trips() {
    for len in 0..10usize {
        let bytes: Vec<u8> = (0..len).map(|i| (i * 37 + 200) as u8).collect();
        let text = encode(&bytes);
        let back = base64::engine::general_purpose::STANDARD.decode(&text).unwrap();
        assert_eq!(back, bytes);
    }
    let text = encode(&PNG);
    assert_eq!(base64::engine::general_purpose::STANDARD.decode(&text).unwrap(), PNG.to_vec());
}

#[test]
fn encoding_exact_values() {
    assert_eq!(encode(b""), "");
    assert_eq!(encode(b"M"), "TQ==");
    assert_eq!(encode(b"Ma"), "TWE=");
    assert_eq!(encode(b"Man"), "TWFu");
    assert_eq!(encode(&[0xFB, 0xFF]), "+/8=");
    assert_eq!(encode(&PNG[..8]), "iVBORw0KGgo=");
}

#[test]
fn decimal_exact_values() {
    assert_eq!(decimal(0), "0");
    assert_eq!(decimal(7), "7");
    assert_eq!(decimal(300), "300");
    assert_eq!(decimal(86400), "86400");
    assert_eq!(decimal(u64::MAX), "18446744073709551615");
}

#[test]
fn builder_request_carries_every_option() {
    let req = client()
        .upload_builder()
        .data("aGVsbG8=")
        .name("test-image")
        .title("Integration Test Image")
        .album("alb1")
        .expiration(300)
        .request()
        .unwrap();
    assert_eq!(req.query, pairs(&[("key", "test_key"), ("expiration", "300")]));
    assert_eq!(
        req.form,
        pairs(&[
            ("image", "aGVsbG8="),
            ("name", "test-image"),
            ("title", "Integration Test Image"),
            ("album", "alb1"),
        ])
    );
}

#[test]
fn builder_setters_last_write_wins() {
    let req = client()
        .upload_builder()
        .name("first")
        .bytes(b"Man")
        .name("second")
        .data("TWE=")
        .request()
        .unwrap();
    assert_eq!(req.query, pairs(&[("key", "test_key")]));
    assert_eq!(req.form, pairs(&[("image", "TWE="), ("name", "second")]));
}

#[test]
fn uploader_request_with_expiration() {
    let imgbb = client();
    let mut u = imgbb.read_bytes(b"Man");
    assert_eq!(u.data.as_deref(), Some("TWFu"));
    u.expiration(600);
    let req = u.request().unwrap();
    assert_eq!(req.query, pairs(&[("key", "test_key"), ("expiration", "600")]));
    assert_eq!(req.form, pairs(&[("image", "TWFu")]));
    let b = imgbb.read_base64("abcd");
    assert_eq!(b.api_key, "test_key");
    assert_eq!(b.data.as_deref(), Some("abcd"));
    assert_eq!(b.expiration, None);
}

#[test]
fn delete_request_has_key_only() {
    let d = client().delete_request("https://ibb.co/abc/x");
    assert_eq!(d.url, "https://ibb.co/abc/x");
    assert_eq!(d.query, pairs(&[("key", "test_key")]));
}

#[test]
fn builder_user_agent_choice() {
    let b = ImgBB::builder("k");
    assert_eq!(b.effective_user_agent(), DEFAULT_USER_AGENT);
    let b = b.user_agent("MyApp/1.0");
    assert_eq!(b.effective_user_agent(), "MyApp/1.0");
    assert!(b.build().is_ok());
}

#[test]
fn builder_rejects_invalid_user_agent() {
    let r = ImgBB::builder("k").user_agent("bad\nagent").build();
    assert!(matches!(r, Err(Error::ReqwestError(_))));
}

#[test]
fn io_and_http_errors_convert() {
    let e: Error = std::io::Error::new(std::io::ErrorKind::NotFound, "gone").into();
    assert!(matches!(e, Error::IOError(_)));
}

#[test]
fn upload_bytes_against_stub_success() {
    let req = client().upload_builder().bytes(&PNG).request().unwrap();
    assert_eq!(req.query, pairs(&[("key", "test_key")]));
    assert_eq!(req.form.len(), 1);
    assert_eq!(req.form[0].0, "image");
    assert_eq!(
        base64::engine::general_purpose::STANDARD.decode(&req.form[0].1).unwrap(),
        PNG.to_vec()
    );
    assert_eq!(IMGBB_API_URL, "https://api.imgbb.com/1/upload");

    let body = "{\"data\":{\"id\":\"abc\",\"url\":\"https://i.ibb.co/abc.png\",\"delete_url\":\"https://ibb.co/abc/x\"},\"success\":true,\"status\":200}";
    let parsed = Response {
        data: Some(Data {
            id: Some("abc".to_string()),
            title: None,
            url_viewer: None,
            url: Some("https://i.ibb.co/abc.png".to_string()),
            display_url: None,
            width: None,
            height: None,
            size: None,
            time: None,
            expiration: None,
            image: None,
            thumb: None,
            medium: None,
            delete_url: Some("https://ibb.co/abc/x".to_string()),
        }),
        success: Some(true),
        status: Some(200),
        error: None,
    };
    let r = classify_upload(200, body, Some(parsed)).unwrap();
    let data = r.data.unwrap();
    assert_eq!(data.id.as_deref(), Some("abc"));
    assert_eq!(data.delete_url.as_deref(), Some("https://ibb.co/abc/x"));
}

#[test]
fn upload_bytes_against_stub_invalid_key() {
    let req = client().upload_builder().bytes(&PNG).request();
    assert!(req.is_ok());
    let body = "{\"error\":{\"message\":\"API key invalid\",\"code\":100},\"status_code\":400}";
    let parsed = Response {
        data: None,
        success: None,
        status: None,
        error: Some(ErrorResponse { message: Some("API key invalid".to_string()), code: Some(100) }),
    };
    let r = classify_upload(400, body, Some(parsed));
    assert!(matches!(r, Err(Error::InvalidApiKey)));
}

#[test]
fn empty_payload_fails_with_missing_field() {
    let imgbb = client();
    assert!(is_missing_image(&imgbb.upload_builder().data("").request().unwrap_err()));
    assert!(is_missing_image(&imgbb.upload_builder().bytes(&[]).name("n").request().unwrap_err()));
    assert!(is_missing_image(&imgbb.read_base64("").request().unwrap_err()));
    assert!(is_missing_image(&imgbb.read_bytes(&[]).request().unwrap_err()));
    assert!(imgbb.read_bytes(&[0]).request().is_ok());
}
