use projbotv3::decimal::{push_decimal, push_signed_decimal};
use projbotv3::upload::{build_request, payload, upload_document, Frame};

fn boundary_of(content_type: &str) -> String {
    let prefix = "multipart/form-data; boundary=";
    assert!(content_type.starts_with(prefix));
    content_type[prefix.len()..].to_string()
}

fn expected_body(boundary: &str, content: &str, image: &[u8]) -> Vec<u8> {
    let mut v = Vec::new();
    v.extend_from_slice(format!("--{boundary}\r\nContent-Disposition: form-data; name=\"payload_json\"\r\nContent-Type: application/json\r\n\r\n").as_bytes());
    v.extend_from_slice(payload(content).as_bytes());
    v.extend_from_slice(b"\r\n");
    v.extend_from_slice(format!("--{boundary}\r\nContent-Disposition: form-data; name=\"files[0]\"; filename=\"ProjBotV3.gif\"\r\nContent-Type: image/gif\r\n\r\n").as_bytes());
    v.extend_from_slice(image);
    v.extend_from_slice(b"\r\n");
    v.extend_from_slice(format!("--{boundary}--\r\n").as_bytes());
    v
}

#[test]
fn decimal_rendering() {
    let mut s = String::new();
    push_decimal(&mut s, 0);
    assert_eq!(s, "0");
    let mut s = String::from("x=");
    push_decimal(&mut s, 1234567890123);
    assert_eq!(s, "x=1234567890123");
    let mut s = String::new();
    push_decimal(&mut s, u128::MAX);
    assert_eq!(s, u128::MAX.to_string());
    let mut s = String::new();
    push_signed_decimal(&mut s, -4500);
    assert_eq!(s, "-4500");
    let mut s = String::new();
    push_signed_decimal(&mut s, i128::MIN);
    assert_eq!(s, i128::MIN.to_string());
    let mut s = String::new();
    push_signed_decimal(&mut s, 77);
    assert_eq!(s, "77");
}

#[test]
fn payload_inserts_the_text() {
    assert_eq!(
        payload("hello"),
        "{ \"content\": \"hello\", \"attachments\": [{ \"id\": 0, \"filename\": \"ProjBotV3.gif\" }] }"
    );
    assert_eq!(
        payload(""),
        "{ \"content\": \"\", \"attachments\": [{ \"id\": 0, \"filename\": \"ProjBotV3.gif\" }] }"
    );
}

#[test]
fn request_layout() {
    let body = b"abcde";
    let req = build_request(42, 7, "text/plain", "TOKEN", body);
    let expected = "PATCH /api/v10/channels/42/messages/7 HTTP/1.1\nHost: discord.com\nUser-Agent: ProjBotV3 image uploader (tudbut@tudbut.de)\nContent-Length: 5\nContent-Type: text/plain\nAuthorization: Bot TOKEN\n\nabcde";
    assert_eq!(req, expected.as_bytes());
}

#[test]
fn request_with_empty_body() {
    let req = build_request(0, u64::MAX, "a", "", b"");
    let expected = format!("PATCH /api/v10/channels/0/messages/{} HTTP/1.1\nHost: discord.com\nUser-Agent: ProjBotV3 image uploader (tudbut@tudbut.de)\nContent-Length: 0\nContent-Type: a\nAuthorization: Bot \n\n", u64::MAX);
    assert_eq!(req, expected.as_bytes());
}

#[test]
fn document_has_payload_image_and_closing() {
    let image = [71u8, 73, 70, 56, 57, 97, 0, 255];
    let (body, content_type) = upload_document("text", &image);
    let boundary = boundary_of(&content_type);
    assert_eq!(boundary.len(), 68);
    assert!(boundary[..36].chars().all(|c| c == '-'));
    assert!(boundary[36..].chars().all(|c| c.is_ascii_alphanumeric() || c == '-' || c == '_'));
    assert_eq!(body, expected_body(&boundary, "text", &image));
}

#[test]
fn two_documents_get_different_boundaries() {
    let (_, a) = upload_document("x", b"1");
    let (_, b) = upload_document("x", b"1");
    assert_ne!(a, b);
}

#[test]
fn new_frame_is_not_cached() {
    let f = Frame::new(vec![1, 2, 3], 99);
    assert!(!f.is_cached());
    assert_eq!(*f.bytes(), vec![1, 2, 3]);
    assert_eq!(f.channel(), 99);
}

#[test]
fn cache_then_complete_sends_whole_request() {
    let image = vec![10u8, 20, 30, 40];
    let mut f = Frame::new(image.clone(), 123);
    let sent = f.cache_frame(456, "status", "SECRET");
    assert!(f.is_cached());
    let last = f.complete_send();
    assert!(!f.is_cached());
    let mut whole = sent.clone();
    whole.push(last);
    // rebuild the request from its header to learn the boundary
    let text = String::from_utf8_lossy(&whole).to_string();
    let ct_line = text.lines().find(|l| l.starts_with("Content-Type: multipart")).unwrap();
    let boundary = boundary_of(&ct_line["Content-Type: ".len()..]);
    let body = expected_body(&boundary, "status", &image);
    let content_type = format!("multipart/form-data; boundary={boundary}");
    assert_eq!(whole, build_request(123, 456, &content_type, "SECRET", &body));
    assert_eq!(last, b'\n');
    assert_eq!(*f.bytes(), image);
    assert_eq!(f.channel(), 123);
}

#[test]
fn caching_again_replaces_the_pending_byte() {
    let mut f = Frame::new(vec![5u8; 10], 1);
    let first = f.cache_frame(2, "a", "t");
    let second = f.cache_frame(2, "bb", "t");
    assert!(!first.is_empty() && !second.is_empty());
    assert!(f.is_cached());
    assert_eq!(f.complete_send(), b'\n');
    assert!(!f.is_cached());
}

#[test]
fn large_frames_need_size_compensation() {
    assert!(!Frame::new(vec![0u8; 1048576], 0).needs_size_compensation());
    assert!(Frame::new(vec![0u8; 1048577], 0).needs_size_compensation());
}
