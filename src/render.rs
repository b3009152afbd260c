//! Rendering what the database found as one JSON array, and the replies that
//! close a request.

use vstd::prelude::*;
use vstd::string::*;
use vstd::utf8::encode_utf8;
use crate::route::Status;

verus! {

/// Texts joined with commas between them.
pub open spec fn joined(parts: Seq<Seq<char>>) -> Seq<char>
    decreases parts.len(),
{
    if parts.len() == 0 {
        Seq::empty()
    } else if parts.len() == 1 {
        parts[0]
    } else {
        joined(parts.drop_last()) + seq![','] + parts.last()
    }
}

/// Texts joined with commas inside one pair of square brackets.
pub open spec fn array_text(parts: Seq<Seq<char>>) -> Seq<char> {
    seq!['['] + joined(parts) + seq![']']
}

/// The text is a JSON array written from `n` element texts.
pub open spec fn is_array_of(text: Seq<char>, n: nat) -> bool {
    exists|parts: Seq<Seq<char>>| parts.len() == n && text == array_text(parts)
}

pub open spec fn texts_view(parts: Seq<String>) -> Seq<Seq<char>> {
    parts.map_values(|p: String| p@)
}

/// Relies on serde_json::to_string: the JSON text of a BSON document. Every
/// value of a document is written as JSON with string keys into memory, so
/// it does not fail.
#[verifier::external_body]
fn document_json(d: &bson::Document) -> (r: Result<String, serde_json::Error>)
    ensures
        r is Ok,
{
    serde_json::to_string(d)
}

/// Joins element texts into one array text: `[a,b,c]`, and `[]` for none.
pub fn json_array(parts: &Vec<String>) -> (r: String)
    ensures
        r@ == array_text(texts_view(parts@)),
{
    let ghost all = texts_view(parts@);
    let mut out = String::new();
    out.append("[");
    proof {
        reveal_strlit("[");
    }
    let mut i: usize = 0;
    while i < parts.len()
        invariant
            i <= parts@.len(),
            all == texts_view(parts@),
            out@ == seq!['['] + joined(all.subrange(0, i as int)),
        decreases parts@.len() - i,
    {
        proof {
            reveal_strlit(",");
        }
        let ghost prefix = out@;
        let ghost before = all.subrange(0, i as int);
        let ghost after = all.subrange(0, i + 1);
        assert(after.drop_last() =~= before);
        assert(after.last() == parts@[i as int]@);
        if i > 0 {
            out.append(",");
        }
        out.append(parts[i].as_str());
        proof {
            if i == 0 {
                assert(before.len() == 0);
                assert(out@ =~= seq!['['] + joined(after));
            } else {
                assert(out@ =~= prefix + seq![','] + parts@[i as int]@);
                assert(out@ =~= seq!['['] + joined(after));
            }
        }
        i = i + 1;
    }
    out.append("]");
    proof {
        reveal_strlit("]");
    }
    assert(all.subrange(0, parts@.len() as int) =~= all);
    assert(out@ =~= array_text(all));
    out
}

/// Renders the documents found, in their order, as one JSON array of their
/// JSON texts; none gives `[]`.
pub fn render_documents(docs: &Vec<bson::Document>) -> (r: String)
    ensures
        is_array_of(r@, docs@.len()),
        docs@.len() == 0 ==> r@ == seq!['[', ']'],
{
    let mut texts: Vec<String> = Vec::new();
    let mut i: usize = 0;
    while i < docs.len()
        invariant
            i <= docs@.len(),
            texts@.len() == i,
        decreases docs@.len() - i,
    {
        texts.push(document_json(&docs[i]).unwrap());
        i = i + 1;
    }
    let body = json_array(&texts);
    assert(texts_view(texts@).len() == docs@.len());
    if docs.len() == 0 {
        assert(texts_view(texts@) =~= Seq::<Seq<char>>::empty());
        assert(body@ =~= seq!['[', ']']);
    }
    body
}

/// The reply that closes a request.
pub struct Reply {
    pub status: Status,
    pub body: String,
    /// The body's length in bytes.
    pub content_length: usize,
}

/// A reply with the given body and its exact length in bytes.
pub fn reply(status: Status, body: String) -> (r: Reply)
    ensures
        r.status == status,
        r.body == body,
        r.content_length == encode_utf8(body@).len() as usize,
{
    let content_length = body.as_str().len();
    Reply { status, body, content_length }
}

/// A refusal: the status alone, with an empty body.
pub fn rejection(status: Status) -> (r: Reply)
    ensures
        r.status == status,
        r.body@.len() == 0,
        r.content_length == 0,
{
    let body = String::new();
    assert(encode_utf8(body@) =~= Seq::<u8>::empty());
    reply(status, body)
}

/// The reply once the find has run: `None` where it failed. A success
/// carries the array of what was found; a failure is an internal error with
/// an empty body.
pub fn reply_for_results(found: Option<Vec<bson::Document>>) -> (r: Reply)
    ensures
        found is None ==> r.status == Status::InternalServerError && r.body@.len() == 0,
        found is Some ==> r.status == Status::Success && is_array_of(
            r.body@,
            found->Some_0@.len(),
        ),
        found is Some && found->Some_0@.len() == 0 ==> r.body@ == seq!['[', ']'],
        r.content_length == encode_utf8(r.body@).len() as usize,
{
    match found {
        None => rejection(Status::InternalServerError),
        Some(docs) => reply(Status::Success, render_documents(&docs)),
    }
}

} // verus!
