use bson::{Bson, Document};
use mongo_query_server::params::{find_last, get_query_params};
use mongo_query_server::route::Status;
use mongo_query_server::translate::{plan_request, to_bson_document, translate, DocumentError};

fn pair(k: &str, v: &str) -> (String, String) {
    (k.to_string(), v.to_string())
}

#[test]
fn decodes_query_string() {
    let pairs = get_query_params(Some("a=1&b=%7B%7D&c=x+y&&d"));
    assert_eq!(pairs, vec![pair("a", "1"), pair("b", "{}"), pair("c", "x y"), pair("d", "")]);
    assert!(get_query_params(None).is_empty());
    assert!(get_query_params(Some("")).is_empty());
}

#[test]
fn last_occurrence_wins() {
    let pairs = vec![pair("limit", "1"), pair("skip", "2"), pair("limit", "3")];
    assert_eq!(find_last(&pairs, &"limit".to_string()), Some("3".to_string()));
    assert_eq!(find_last(&pairs, &"skip".to_string()), Some("2".to_string()));
    assert_eq!(find_last(&pairs, &"sort".to_string()), None);
}

#[test]
fn absent_json_parameter_is_no_document() {
    assert!(matches!(to_bson_document(None), Ok(None)));
}

#[test]
fn json_object_becomes_document() {
    let mut expected = Document::new();
    expected.insert("a", Bson::Int64(1));
    match to_bson_document(Some("{\"a\":1}")) {
        Ok(Some(d)) => assert_eq!(d, expected),
        _ => panic!("expected a document"),
    }
}

#[test]
fn malformed_json_is_refused() {
    assert_eq!(to_bson_document(Some("{bad")).err(), Some(DocumentError::Malformed));
    assert_eq!(to_bson_document(Some("")).err(), Some(DocumentError::Malformed));
}

#[test]
fn non_object_json_is_refused() {
    assert_eq!(to_bson_document(Some("[1,2]")).err(), Some(DocumentError::NotObject));
    assert_eq!(to_bson_document(Some("3")).err(), Some(DocumentError::NotObject));
    assert_eq!(to_bson_document(Some("\"s\"")).err(), Some(DocumentError::NotObject));
    assert_eq!(to_bson_document(Some("null")).err(), Some(DocumentError::NotObject));
}

#[test]
fn number_beyond_bson_range_is_refused() {
    assert_eq!(
        to_bson_document(Some("{\"n\":18446744073709551615}")).err(),
        Some(DocumentError::Unconvertible)
    );
}

#[test]
fn end_to_end_example_plan() {
    let plan = plan_request("GET", "/widgets", Some("limit=2&query=%7B%22color%22%3A%22red%22%7D"))
        .ok()
        .expect("plan");
    let mut expected = Document::new();
    expected.insert("color", "red");
    assert_eq!(plan.collection, "widgets");
    assert_eq!(plan.limit, Some(2));
    assert_eq!(plan.skip, None);
    assert_eq!(plan.filter, Some(expected));
    assert!(plan.sort.is_none());
}

#[test]
fn defaults_without_query_string() {
    let plan = plan_request("GET", "/", None).ok().expect("plan");
    assert_eq!(plan.collection, "");
    assert_eq!(plan.limit, Some(20));
    assert_eq!(plan.skip, None);
    assert!(plan.filter.is_none());
    assert!(plan.sort.is_none());
}

#[test]
fn lenient_numbers_in_plan() {
    let plan = plan_request("GET", "/w", Some("limit=abc&skip=xyz")).ok().expect("plan");
    assert_eq!(plan.limit, Some(20));
    assert_eq!(plan.skip, None);
    let plan = plan_request("GET", "/w", Some("limit=1&skip=5&limit=3")).ok().expect("plan");
    assert_eq!(plan.limit, Some(3));
    assert_eq!(plan.skip, Some(5));
}

#[test]
fn sort_document_in_plan() {
    let plan = plan_request("GET", "/w", Some("sort=%7B%22a%22%3A-1%7D")).ok().expect("plan");
    let mut expected = Document::new();
    expected.insert("a", Bson::Int64(-1));
    assert_eq!(plan.sort, Some(expected));
    assert!(plan.filter.is_none());
}

#[test]
fn bad_json_in_plan_is_bad_request() {
    assert_eq!(plan_request("GET", "/w", Some("query=%7Bbad")).err(), Some(Status::BadRequest));
    assert_eq!(plan_request("GET", "/w", Some("sort=nope")).err(), Some(Status::BadRequest));
    assert_eq!(plan_request("GET", "/w", Some("query=%5B1%5D")).err(), Some(Status::BadRequest));
    assert_eq!(plan_request("GET", "/w", Some("sort=42&query=%7B%7D")).err(), Some(Status::BadRequest));
}

#[test]
fn routing_errors_in_plan() {
    assert_eq!(plan_request("POST", "/w", None).err(), Some(Status::NotFound));
    assert_eq!(plan_request("GET", "/w/x", None).err(), Some(Status::BadRequest));
}

#[test]
fn translate_keeps_collection() {
    let plan = translate("things".to_string(), &vec![pair("skip", "-4")]).ok().expect("plan");
    assert_eq!(plan.collection, "things");
    assert_eq!(plan.skip, Some(-4));
    assert_eq!(plan.limit, Some(20));
}

#[test]
fn empty_object_is_empty_document() {
    match to_bson_document(Some("{}")) {
        Ok(Some(d)) => assert_eq!(d, Document::new()),
        _ => panic!("expected a document"),
    }
}

#[test]
fn sort_object_becomes_document() {
    let mut expected = Document::new();
    expected.insert("price", Bson::Int64(-1));
    match to_bson_document(Some("{\"price\":-1}")) {
        Ok(Some(d)) => assert_eq!(d, expected),
        _ => panic!("expected a document"),
    }
}

#[test]
fn extended_json_keys_are_kept_as_written() {
    let mut inner = Document::new();
    inner.insert("$oid", "x");
    let mut expected = Document::new();
    expected.insert("_id", inner);
    match to_bson_document(Some("{\"_id\":{\"$oid\":\"x\"}}")) {
        Ok(Some(d)) => assert_eq!(d, expected),
        _ => panic!("expected a document"),
    }
}

#[test]
fn unconvertible_query_in_plan_is_bad_request() {
    assert_eq!(
        plan_request("GET", "/w", Some("query=%7B%22n%22%3A18446744073709551615%7D")).err(),
        Some(Status::BadRequest)
    );
}
