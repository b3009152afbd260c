//! Choosing the collection that a request addresses.

use vstd::prelude::*;
use vstd::string::*;

verus! {

/// The outcome classes of a request, as HTTP status codes.
#[derive(PartialEq, Eq, Structural, Clone, Copy, Debug)]
pub enum Status {
    Success,
    BadRequest,
    NotFound,
    InternalServerError,
}

impl Status {
    pub open spec fn spec_code(self) -> u16 {
        match self {
            Status::Success => 200,
            Status::BadRequest => 400,
            Status::NotFound => 404,
            Status::InternalServerError => 500,
        }
    }

    /// The numeric HTTP status code.
    pub fn code(&self) -> (r: u16)
        ensures
            r == self.spec_code(),
    {
        match self {
            Status::Success => 200,
            Status::BadRequest => 400,
            Status::NotFound => 404,
            Status::InternalServerError => 500,
        }
    }
}

/// Letters, underscore and hyphen: the characters a collection name may hold.
pub open spec fn is_name_char(c: char) -> bool {
    ('a' <= c && c <= 'z') || ('A' <= c && c <= 'Z') || c == '_' || c == '-'
}

pub open spec fn is_collection_name(s: Seq<char>) -> bool {
    forall|i: int| 0 <= i < s.len() ==> #[trigger] is_name_char(s[i])
}

pub open spec fn without_leading_slash(p: Seq<char>) -> Seq<char> {
    if p.len() > 0 && p[0] == '/' {
        p.drop_first()
    } else {
        p
    }
}

pub open spec fn without_trailing_slash(p: Seq<char>) -> Seq<char> {
    if p.len() > 0 && p.last() == '/' {
        p.drop_last()
    } else {
        p
    }
}

/// The collection that a path names: the path is an optional slash, a
/// collection name and an optional slash, and nothing else.
pub open spec fn path_collection(p: Seq<char>) -> Option<Seq<char>> {
    let inner = without_trailing_slash(without_leading_slash(p));
    if is_collection_name(inner) {
        Some(inner)
    } else {
        None
    }
}

pub open spec fn retrieval_method() -> Seq<char> {
    seq!['G', 'E', 'T']
}

/// The route a request takes: any method but retrieval is not found, a path
/// outside the pattern is a bad request, otherwise the named collection.
pub open spec fn spec_route(method: Seq<char>, path: Seq<char>) -> Result<Seq<char>, Status> {
    if method != retrieval_method() {
        Err(Status::NotFound)
    } else {
        match path_collection(path) {
            Some(name) => Ok(name),
            None => Err(Status::BadRequest),
        }
    }
}

fn name_char(c: char) -> (r: bool)
    ensures
        r == is_name_char(c),
{
    ('a' <= c && c <= 'z') || ('A' <= c && c <= 'Z') || c == '_' || c == '-'
}

/// Whether the method is the retrieval method `GET`.
pub fn is_retrieval(method: &str) -> (r: bool)
    ensures
        r == (method@ == retrieval_method()),
{
    let n = method.unicode_len();
    if n != 3 {
        return false;
    }
    let r = method.get_char(0) == 'G' && method.get_char(1) == 'E' && method.get_char(2) == 'T';
    if r {
        assert(method@ =~= retrieval_method());
    }
    r
}

/// The collection named by a path, if the path has the accepted shape.
pub fn collection_of_path(path: &str) -> (r: Option<String>)
    ensures
        match path_collection(path@) {
            Some(name) => r is Some && r->Some_0@ == name,
            None => r is None,
        },
{
    let n = path.unicode_len();
    let mut start: usize = 0;
    if n > 0 && path.get_char(0) == '/' {
        start = 1;
    }
    let ghost lead = without_leading_slash(path@);
    assert(lead =~= path@.subrange(start as int, n as int));
    let mut end: usize = n;
    if end > start && path.get_char(end - 1) == '/' {
        end = end - 1;
    }
    let ghost inner = without_trailing_slash(lead);
    assert(inner =~= path@.subrange(start as int, end as int));
    let mut i: usize = start;
    while i < end
        invariant
            start <= i <= end <= n,
            n == path@.len(),
            inner =~= path@.subrange(start as int, end as int),
            inner == without_trailing_slash(without_leading_slash(path@)),
            forall|k: int| start <= k < i ==> is_name_char(#[trigger] path@[k]),
        decreases end - i,
    {
        if !name_char(path.get_char(i)) {
            assert(inner[i - start] == path@[i as int]);
            assert(!is_name_char(inner[i - start]));
            assert(!is_collection_name(inner));
            return None;
        }
        i = i + 1;
    }
    assert forall|k: int| 0 <= k < inner.len() implies #[trigger] is_name_char(inner[k]) by {
        assert(inner[k] == path@[k + start]);
    }
    Some(path.substring_char(start, end).to_string())
}

/// Decides whether a request proceeds, and with which collection.
pub fn route(method: &str, path: &str) -> (r: Result<String, Status>)
    ensures
        match spec_route(method@, path@) {
            Ok(name) => r is Ok && r->Ok_0@ == name,
            Err(s) => r == Err::<String, Status>(s),
        },
{
    if !is_retrieval(method) {
        return Err(Status::NotFound);
    }
    match collection_of_path(path) {
        Some(name) => Ok(name),
        None => Err(Status::BadRequest),
    }
}

/// Every name made of letters, underscores and hyphens is accepted, with or
/// without the slashes around it, and is the collection that the path names.
pub proof fn lemma_valid_name_is_routed(name: Seq<char>)
    requires
        is_collection_name(name),
    ensures
        spec_route(retrieval_method(), seq!['/'] + name) == Ok::<Seq<char>, Status>(name),
        spec_route(retrieval_method(), seq!['/'] + name + seq!['/']) == Ok::<Seq<char>, Status>(name),
        spec_route(retrieval_method(), name) == Ok::<Seq<char>, Status>(name),
{
    let a = seq!['/'] + name;
    assert(a.drop_first() =~= name);
    if name.len() > 0 {
        assert(!is_name_char('/'));
        assert(name.last() == name[name.len() - 1]);
        assert(is_name_char(name[name.len() - 1]));
        assert(a.last() == name.last());
    }
    let b = seq!['/'] + name + seq!['/'];
    assert(b.drop_first() =~= name + seq!['/']);
    assert((name + seq!['/']).drop_last() =~= name);
    if name.len() > 0 {
        assert(name[0] != '/') by {
            assert(is_name_char(name[0]));
        }
        assert(name.last() != '/') by {
            assert(is_name_char(name[name.len() - 1]));
        }
    }
}

/// Every method other than retrieval is answered "not found", whatever the path.
pub proof fn lemma_other_method_not_found(method: Seq<char>, path: Seq<char>)
    requires
        method != retrieval_method(),
    ensures
        spec_route(method, path) == Err::<Seq<char>, Status>(Status::NotFound),
{
}

} // verus!
