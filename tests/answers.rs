use share_upload::response::{entry_from_members, last_upload_result, parse_upload_entries, url_from_member};
use share_upload::{parse_upload_result, parse_upload_url, UploadError, UploadResult};

fn entry(id: &str, name: &str, size: u64) -> UploadResult {
    UploadResult { id: id.to_string(), name: name.to_string(), size }
}

fn triple(r: &UploadResult) -> (String, String, u64) {
    (r.id.clone(), r.name.clone(), r.size)
}

#[test]
fn upload_url_read_from_json() {
    assert_eq!(
        parse_upload_url("{\"url\": \"https://x/upload2/abc\"}"),
        Ok("https://x/upload2/abc".to_string())
    );
}

#[test]
fn upload_url_malformed() {
    assert_eq!(parse_upload_url("{\"link\": \"https://x\"}"), Err(UploadError::MalformedResponse));
    assert_eq!(parse_upload_url("{\"url\": 3}"), Err(UploadError::MalformedResponse));
    assert_eq!(parse_upload_url("not json"), Err(UploadError::MalformedResponse));
    assert_eq!(url_from_member(None), Err(UploadError::MalformedResponse));
    assert_eq!(url_from_member(Some("u".to_string())), Ok("u".to_string()));
}

#[test]
fn upload_result_is_last_entry() {
    let body = "[{\"name\":\"a.txt\",\"id\":\"1\",\"size\":3},{\"name\":\"b.txt\",\"id\":\"2\",\"size\":9}]";
    let r = parse_upload_result(body).unwrap();
    assert_eq!(triple(&r), ("2".to_string(), "b.txt".to_string(), 9));
}

#[test]
fn upload_result_empty_array() {
    assert!(matches!(parse_upload_result("[]"), Err(UploadError::EmptyResponse)));
}

#[test]
fn upload_result_malformed() {
    assert!(matches!(parse_upload_result("{\"name\":\"a\"}"), Err(UploadError::MalformedResponse)));
    assert!(matches!(
        parse_upload_result("[{\"name\":\"a.txt\",\"id\":\"1\"}]"),
        Err(UploadError::MalformedResponse)
    ));
    assert!(matches!(
        parse_upload_result("[{\"name\":\"a.txt\",\"id\":\"1\",\"size\":-3}]"),
        Err(UploadError::MalformedResponse)
    ));
}

#[test]
fn upload_entries_in_order() {
    let body = "[{\"name\":\"a.txt\",\"id\":\"1\",\"size\":3},{\"name\":\"b.txt\",\"id\":\"2\",\"size\":9}]";
    let es = parse_upload_entries(body).unwrap();
    assert_eq!(es.len(), 2);
    assert_eq!(triple(&es[0]), ("1".to_string(), "a.txt".to_string(), 3));
    assert_eq!(triple(&es[1]), ("2".to_string(), "b.txt".to_string(), 9));
}

#[test]
fn last_of_entries() {
    let r = last_upload_result(vec![entry("1", "a", 1), entry("2", "b", 2)]).unwrap();
    assert_eq!(triple(&r), ("2".to_string(), "b".to_string(), 2));
    assert!(matches!(last_upload_result(Vec::new()), Err(UploadError::EmptyResponse)));
}

#[test]
fn entry_needs_all_members() {
    let e = entry_from_members(Some("7".to_string()), Some("f".to_string()), Some(4)).unwrap();
    assert_eq!(triple(&e), ("7".to_string(), "f".to_string(), 4));
    assert!(entry_from_members(None, Some("f".to_string()), Some(4)).is_none());
    assert!(entry_from_members(Some("7".to_string()), None, Some(4)).is_none());
    assert!(entry_from_members(Some("7".to_string()), Some("f".to_string()), None).is_none());
}

#[test]
fn summary_line_has_three_fields() {
    assert_eq!(entry("2", "b.txt", 9).summary(), "2 b.txt 9");
    assert_eq!(entry("abc", "report.pdf", 1234567890).summary(), "abc report.pdf 1234567890");
    assert_eq!(entry("z", "e", 0).summary(), "z e 0");
}
