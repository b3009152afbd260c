//! Translating query-string parameters into find options: lenient for the
//! numbers, strict for the JSON filter and sort.

use vstd::prelude::*;
use vstd::string::*;
use crate::numbers::{get_number_or, number_or, opt_view, spec_parse_i64};
use crate::params::{find_last, get_query_params, last_value, opt_bytes, pairs_view, query_pairs};
use crate::route::{route, spec_route, Status};

verus! {

#[verifier::external_type_specification]
#[verifier::external_body]
pub struct ExJsonError(serde_json::Error);

#[verifier::external_type_specification]
#[verifier::external_body]
pub struct ExDocument(bson::Document);

/// What a parameter text gives as a document: not JSON at all, JSON that is
/// not an object, an object that BSON cannot hold, or a document.
#[derive(PartialEq, Eq, Structural, Clone, Copy, Debug)]
pub enum JsonKind {
    Malformed,
    NotObject,
    Unconvertible,
    Converted,
}

/// A parameter text read as a document, keeping the document where there
/// is one.
pub enum JsonDocument {
    Malformed,
    NotObject,
    Unconvertible,
    Converted(bson::Document),
}

impl JsonDocument {
    pub open spec fn kind(&self) -> JsonKind {
        match self {
            JsonDocument::Malformed => JsonKind::Malformed,
            JsonDocument::NotObject => JsonKind::NotObject,
            JsonDocument::Unconvertible => JsonKind::Unconvertible,
            JsonDocument::Converted(_) => JsonKind::Converted,
        }
    }
}

/// What reading a text as one JSON value with serde_json, and converting an
/// object so read with bson, gives.
pub uninterp spec fn json_kind(text: Seq<char>) -> JsonKind;

/// Relies on serde_json::from_str::<serde_json::Value> to read the text as
/// one JSON value, and on bson::to_document to convert an object into a
/// document (it refuses an integer above the range of i64). The outcome
/// depends on the text alone.
#[verifier::external_body]
fn read_json_document(text: &str) -> (r: JsonDocument)
    ensures
        r.kind() == json_kind(text@),
{
    match serde_json::from_str::<serde_json::Value>(text) {
        Err(_) => JsonDocument::Malformed,
        Ok(serde_json::Value::Object(m)) => match bson::to_document(&m) {
            Ok(d) => JsonDocument::Converted(d),
            Err(_) => JsonDocument::Unconvertible,
        },
        Ok(serde_json::Value::Null) => JsonDocument::NotObject,
        Ok(serde_json::Value::Bool(_)) => JsonDocument::NotObject,
        Ok(serde_json::Value::Number(_)) => JsonDocument::NotObject,
        Ok(serde_json::Value::String(_)) => JsonDocument::NotObject,
        Ok(serde_json::Value::Array(_)) => JsonDocument::NotObject,
    }
}

/// Why a filter or sort parameter was refused.
#[derive(PartialEq, Eq, Structural, Clone, Copy, Debug)]
pub enum DocumentError {
    /// The text is not JSON.
    Malformed,
    /// The text is JSON but not an object.
    NotObject,
    /// The object cannot be held as a BSON document.
    Unconvertible,
}

/// The document given by an optional JSON parameter. Absent is no document;
/// a text that is not a JSON object, or that BSON cannot hold, is an error,
/// never ignored.
pub fn to_bson_document(text: Option<&str>) -> (r: Result<Option<bson::Document>, DocumentError>)
    ensures
        text is None ==> r matches Ok(None),
        text is Some ==> match json_kind(text->Some_0@) {
            JsonKind::Malformed => r == Err::<Option<bson::Document>, DocumentError>(
                DocumentError::Malformed,
            ),
            JsonKind::NotObject => r == Err::<Option<bson::Document>, DocumentError>(
                DocumentError::NotObject,
            ),
            JsonKind::Unconvertible => r == Err::<Option<bson::Document>, DocumentError>(
                DocumentError::Unconvertible,
            ),
            JsonKind::Converted => r matches Ok(Some(_)),
        },
{
    match text {
        None => Ok(None),
        Some(t) => match read_json_document(t) {
            JsonDocument::Malformed => Err(DocumentError::Malformed),
            JsonDocument::NotObject => Err(DocumentError::NotObject),
            JsonDocument::Unconvertible => Err(DocumentError::Unconvertible),
            JsonDocument::Converted(d) => Ok(Some(d)),
        },
    }
}

/// A find operation, ready to be run against the named collection.
pub struct FindPlan {
    pub collection: String,
    pub filter: Option<bson::Document>,
    pub sort: Option<bson::Document>,
    pub limit: Option<i64>,
    pub skip: Option<i64>,
}

pub const DEFAULT_LIMIT: i64 = 20;

pub open spec fn limit_of(pairs: Seq<(Seq<char>, Seq<char>)>) -> Option<i64> {
    number_or(last_value(pairs, "limit"@), Some(DEFAULT_LIMIT))
}

pub open spec fn skip_of(pairs: Seq<(Seq<char>, Seq<char>)>) -> Option<i64> {
    number_or(last_value(pairs, "skip"@), None)
}

/// The parameter is present and does not give a document.
pub open spec fn rejects_json(pairs: Seq<(Seq<char>, Seq<char>)>, key: Seq<char>) -> bool {
    match last_value(pairs, key) {
        Some(t) => json_kind(t) != JsonKind::Converted,
        None => false,
    }
}

/// What translating the parameters into a plan for `name` gives: a bad
/// request exactly where `query` or `sort` is present and does not give a
/// document; otherwise the plan, with the limit and skip that the lenient
/// number rule gives and a filter and a sort exactly where the parameters are.
pub open spec fn translated(
    r: Result<FindPlan, Status>,
    name: Seq<char>,
    pairs: Seq<(Seq<char>, Seq<char>)>,
) -> bool {
    &&& (rejects_json(pairs, "query"@) || rejects_json(pairs, "sort"@)) <==> r is Err
    &&& r is Err ==> r == Err::<FindPlan, Status>(Status::BadRequest)
    &&& r is Ok ==> {
        let p = r->Ok_0;
        &&& p.collection@ == name
        &&& p.limit == limit_of(pairs)
        &&& p.skip == skip_of(pairs)
        &&& (p.filter is Some <==> last_value(pairs, "query"@) is Some)
        &&& (p.sort is Some <==> last_value(pairs, "sort"@) is Some)
    }
}

/// Where the last `limit` parameter is absent or is not an integer, the
/// limit is exactly the default, 20.
pub proof fn lemma_unparseable_limit_is_default(pairs: Seq<(Seq<char>, Seq<char>)>)
    requires
        match last_value(pairs, "limit"@) {
            Some(t) => spec_parse_i64(t) is None,
            None => true,
        },
    ensures
        limit_of(pairs) == Some(20i64),
{
}

/// Where the last `skip` parameter is absent or is not an integer, no skip is
/// applied.
pub proof fn lemma_unparseable_skip_is_none(pairs: Seq<(Seq<char>, Seq<char>)>)
    requires
        match last_value(pairs, "skip"@) {
            Some(t) => spec_parse_i64(t) is None,
            None => true,
        },
    ensures
        skip_of(pairs) is None,
{
}

/// A `query` or `sort` parameter that is not JSON at all makes the request a
/// bad request.
pub proof fn lemma_malformed_json_is_bad_request(
    r: Result<FindPlan, Status>,
    name: Seq<char>,
    pairs: Seq<(Seq<char>, Seq<char>)>,
    key: Seq<char>,
    text: Seq<char>,
)
    requires
        translated(r, name, pairs),
        key == "query"@ || key == "sort"@,
        last_value(pairs, key) == Some(text),
        json_kind(text) == JsonKind::Malformed,
    ensures
        r == Err::<FindPlan, Status>(Status::BadRequest),
{
    assert(rejects_json(pairs, key));
}

/// A `query` or `sort` parameter that is valid JSON but an array or a scalar
/// makes the request a bad request too.
pub proof fn lemma_non_object_json_is_bad_request(
    r: Result<FindPlan, Status>,
    name: Seq<char>,
    pairs: Seq<(Seq<char>, Seq<char>)>,
    key: Seq<char>,
    text: Seq<char>,
)
    requires
        translated(r, name, pairs),
        key == "query"@ || key == "sort"@,
        last_value(pairs, key) == Some(text),
        json_kind(text) == JsonKind::NotObject,
    ensures
        r == Err::<FindPlan, Status>(Status::BadRequest),
{
    assert(rejects_json(pairs, key));
}

fn opt_str(s: &Option<String>) -> (r: Option<&str>)
    ensures
        opt_view(r) == match s {
            Some(t) => Some(t@),
            None => None::<Seq<char>>,
        },
{
    match s {
        Some(t) => Some(t.as_str()),
        None => None,
    }
}

/// Translates the decoded parameters of a request for `collection`.
pub fn translate(collection: String, pairs: &Vec<(String, String)>) -> (r: Result<FindPlan, Status>)
    ensures
        translated(r, collection@, pairs_view(pairs@)),
{
    let limit_text = find_last(pairs, &String::from_str("limit"));
    let skip_text = find_last(pairs, &String::from_str("skip"));
    let sort_text = find_last(pairs, &String::from_str("sort"));
    let query_text = find_last(pairs, &String::from_str("query"));
    let limit = get_number_or(opt_str(&limit_text), Some(DEFAULT_LIMIT));
    let skip = get_number_or(opt_str(&skip_text), None);
    let sort = match to_bson_document(opt_str(&sort_text)) {
        Ok(v) => v,
        Err(_) => return Err(Status::BadRequest),
    };
    let filter = match to_bson_document(opt_str(&query_text)) {
        Ok(v) => v,
        Err(_) => return Err(Status::BadRequest),
    };
    Ok(FindPlan { collection, filter, sort, limit, skip })
}

/// Routes a request and translates its query string: the whole decision of
/// what to ask the database, or the status to answer with instead.
pub fn plan_request(method: &str, path: &str, query: Option<&str>) -> (r: Result<FindPlan, Status>)
    ensures
        match spec_route(method@, path@) {
            Err(s) => r == Err::<FindPlan, Status>(s),
            Ok(name) => translated(r, name, query_pairs(opt_bytes(query))),
        },
{
    let collection = match route(method, path) {
        Ok(name) => name,
        Err(s) => return Err(s),
    };
    let pairs = get_query_params(query);
    translate(collection, &pairs)
}

} // verus!
