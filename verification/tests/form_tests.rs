use eggchan::form::{find_boundary, read_comment, read_form_comment, text_equals};
use eggchan::http::HttpStatus;

fn part(name: &str, content_type: Option<&str>, data: &[u8]) -> Vec<u8> {
    let mut out = Vec::new();
    out.extend_from_slice(b"--XyZ\r\n");
    out.extend_from_slice(format!("Content-Disposition: form-data; name=\"{}\"\r\n", name).as_bytes());
    if let Some(ct) = content_type {
        out.extend_from_slice(format!("Content-Type: {}\r\n", ct).as_bytes());
    }
    out.extend_from_slice(b"\r\n");
    out.extend_from_slice(data);
    out.extend_from_slice(b"\r\n");
    out
}

fn body(parts: &[Vec<u8>]) -> Vec<u8> {
    let mut out = Vec::new();
    for p in parts {
        out.extend_from_slice(p);
    }
    out.extend_from_slice(b"--XyZ--\r\n");
    out
}

fn params(pairs: &[(&str, &str)]) -> Vec<(String, String)> {
    pairs.iter().map(|(k, v)| (k.to_string(), v.to_string())).collect()
}

#[test]
fn text_equals_compares_exactly() {
    assert!(text_equals("comment", "comment"));
    assert!(!text_equals("Comment", "comment"));
    assert!(!text_equals("comments", "comment"));
    assert!(text_equals("", ""));
}

#[test]
fn boundary_is_the_first_boundary_param() {
    let p = params(&[("charset", "utf-8"), ("boundary", "abc"), ("boundary", "def")]);
    assert_eq!(find_boundary(&p), Some("abc".to_string()));
}

#[test]
fn boundary_name_is_case_sensitive() {
    let p = params(&[("Boundary", "abc")]);
    assert_eq!(find_boundary(&p), None);
    assert_eq!(find_boundary(&Vec::new()), None);
}

#[test]
fn comment_is_read_from_its_field() {
    let b = body(&[part("comment", None, b"hello world")]);
    assert_eq!(read_comment(&b, "XyZ").unwrap(), "hello world");
}

#[test]
fn other_fields_are_ignored() {
    let b = body(&[
        part("name", None, b"anon"),
        part("comment", Some("text/plain"), b"hi"),
        part("file", Some("image/png"), b"\x89PNG"),
    ]);
    assert_eq!(read_comment(&b, "XyZ").unwrap(), "hi");
}

#[test]
fn several_comment_fields_are_joined_in_order() {
    let b = body(&[part("comment", None, b"one "), part("comment", None, b"two")]);
    assert_eq!(read_comment(&b, "XyZ").unwrap(), "one two");
}

#[test]
fn a_comment_field_that_is_not_text_adds_nothing() {
    let b = body(&[
        part("comment", Some("application/octet-stream"), b"bytes"),
        part("comment", None, b"text"),
    ]);
    assert_eq!(read_comment(&b, "XyZ").unwrap(), "text");
}

#[test]
fn a_comment_field_that_is_not_utf8_adds_nothing() {
    let b = body(&[part("comment", None, b"\xff\xfe"), part("comment", None, b"ok")]);
    assert_eq!(read_comment(&b, "XyZ").unwrap(), "ok");
}

#[test]
fn an_empty_comment_is_refused() {
    let b = body(&[part("comment", None, b"")]);
    let e = read_comment(&b, "XyZ").unwrap_err();
    assert_eq!(e.status, HttpStatus::BadRequest);
    assert_eq!(e.message, "Comment must be non-empty UTF8");
}

#[test]
fn a_missing_comment_is_refused() {
    let b = body(&[part("name", None, b"anon")]);
    let e = read_comment(&b, "XyZ").unwrap_err();
    assert_eq!(e.status, HttpStatus::BadRequest);
    assert_eq!(e.message, "Comment must be non-empty UTF8");
}

#[test]
fn only_invalid_utf8_is_refused_as_empty() {
    let b = body(&[part("comment", None, b"\xc3\x28")]);
    let e = read_comment(&b, "XyZ").unwrap_err();
    assert_eq!(e.message, "Comment must be non-empty UTF8");
}

#[test]
fn a_malformed_body_is_refused() {
    let b = b"--XyZ\r\nContent-Type: text/plain\r\n\r\nno disposition\r\n--XyZ--\r\n".to_vec();
    let e = read_comment(&b, "XyZ").unwrap_err();
    assert_eq!(e.status, HttpStatus::BadRequest);
    assert_eq!(e.message, "Could not parse multipart data");
}

#[test]
fn form_without_boundary_is_refused() {
    let b = body(&[part("comment", None, b"hello")]);
    let e = read_form_comment(&params(&[("charset", "utf-8")]), Some(&b[..])).unwrap_err();
    assert_eq!(e.status, HttpStatus::BadRequest);
    assert_eq!(e.message, "`Content-Type: multipart/form-data` boundary param not provided");
}

#[test]
fn form_with_boundary_gives_its_comment() {
    let b = body(&[part("comment", None, "héllo".as_bytes())]);
    let c = read_form_comment(&params(&[("boundary", "XyZ")]), Some(&b[..])).unwrap();
    assert_eq!(c, "héllo");
}

#[test]
fn unreadable_body_is_refused_after_the_boundary_check() {
    let e = read_form_comment(&params(&[("boundary", "XyZ")]), None).unwrap_err();
    assert_eq!(e.status, HttpStatus::BadRequest);
    assert_eq!(e.message, "Could not parse multipart data");
    let e = read_form_comment(&params(&[]), None).unwrap_err();
    assert_eq!(e.message, "`Content-Type: multipart/form-data` boundary param not provided");
}
