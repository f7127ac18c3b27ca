use library_manager::constants::{HEADER_TOKEN, URL};
use library_manager::requests::{
    api_result, parse_headers, request_url, runtime_failure_message, token_headers, ErrorResponse, Reply,
};

fn pairs(v: &[(&str, &str)]) -> Vec<(String, String)> {
    v.iter().map(|(a, b)| (a.to_string(), b.to_string())).collect()
}

#[test]
fn url_appends_endpoint() {
    assert_eq!(request_url("book/search"), format!("{URL}book/search"));
    assert_eq!(request_url("book/search"), "http://88.175.41.67:8080/book/search");
}

#[test]
fn token_header_pair() {
    let h = token_headers("abc".to_string());
    assert_eq!(h, vec![(HEADER_TOKEN.to_string(), "abc".to_string())]);
}

#[test]
fn valid_headers_parse() {
    let hs = pairs(&[("Authorization", "tok en\tx"), ("XAdminKey", "k3y"), ("x-é", "v")]);
    let r = parse_headers(&hs[..2].to_vec()).unwrap();
    assert_eq!(r.len(), 2);
    assert_eq!(r[0].0.as_str(), "authorization");
    assert_eq!(r[1].1.to_str().unwrap(), "k3y");
    assert_eq!(parse_headers(&vec![]).unwrap().len(), 0);
    assert_eq!(parse_headers(&hs).err().unwrap(), "invalid HTTP header name");
}

#[test]
fn invalid_header_name_reported() {
    let r = parse_headers(&pairs(&[("ok", "v"), ("bad name", "v")]));
    assert_eq!(r.err().unwrap(), "invalid HTTP header name");
    let r = parse_headers(&pairs(&[("", "v")]));
    assert_eq!(r.err().unwrap(), "invalid HTTP header name");
}

#[test]
fn invalid_header_value_reported() {
    let r = parse_headers(&pairs(&[("name", "line\nbreak")]));
    assert_eq!(r.err().unwrap(), "failed to parse header value");
    let r = parse_headers(&pairs(&[("name", "caf\u{e9}")]));
    assert!(r.is_ok());
}

#[test]
fn name_is_checked_before_value() {
    let r = parse_headers(&pairs(&[("bad name", "bad\u{7f}value")]));
    assert_eq!(r.err().unwrap(), "invalid HTTP header name");
    let r = parse_headers(&pairs(&[("good", "bad\u{7f}"), ("bad name", "v")]));
    assert_eq!(r.err().unwrap(), "failed to parse header value");
}

#[test]
fn reply_results() {
    assert_eq!(api_result::<i32>(Reply::NotSent("down".into())), Err("Request failed: down".to_string()));
    assert_eq!(api_result(Reply::Success(Ok(5))), Ok(5));
    assert_eq!(api_result::<i32>(Reply::Success(Err("eof".into()))), Err("Invalid response: eof".to_string()));
    assert_eq!(
        api_result::<i32>(Reply::Failure(Ok(ErrorResponse { error: "Bad token".into() }))),
        Err("Bad token".to_string())
    );
    assert_eq!(
        api_result::<i32>(Reply::Failure(Err("not json".into()))),
        Err("Error parsing error: not json".to_string())
    );
    assert_eq!(runtime_failure_message("no threads"), "Failed to start async runtime: no threads");
}
