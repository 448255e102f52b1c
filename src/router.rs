use vstd::prelude::*;

use crate::handlers::{health_check, health_status, welcome, welcome_message};
use crate::models::{MessageResponse, StatusResponse};

verus! {

broadcast use vstd::string::group_string_axioms;

/// The status code for a path that has no route.
pub const STATUS_NOT_FOUND: u16 = 404;

/// The status code for a routed path asked with a method it does not serve.
pub const STATUS_METHOD_NOT_ALLOWED: u16 = 405;

/// The request method.
pub enum Method {
    Get,
    Head,
    Post,
    Put,
    Delete,
    Patch,
    Options,
    Trace,
    Connect,
    Other,
}

/// What a response carries in its body.
pub enum Body {
    /// No body.
    Empty,
    /// `{"message": ...}`.
    Message(MessageResponse),
    /// `{"status": ...}`.
    Status(StatusResponse),
}

/// A response as the service decides it: status code, body, and the value
/// of the `Allow` header when one is sent.
pub struct HttpResponse {
    pub status: u16,
    pub body: Body,
    pub allow: Option<String>,
}

/// The abstract content of a body.
pub enum BodyView {
    Empty,
    Message(Seq<char>),
    Status(Seq<char>),
}

/// The abstract content of a response.
pub struct ResponseView {
    pub status: u16,
    pub body: BodyView,
    pub allow: Option<Seq<char>>,
}

impl View for Body {
    type V = BodyView;

    open spec fn view(&self) -> BodyView {
        match self {
            Body::Empty => BodyView::Empty,
            Body::Message(m) => BodyView::Message(m.message@),
            Body::Status(s) => BodyView::Status(s.status@),
        }
    }
}

impl View for HttpResponse {
    type V = ResponseView;

    open spec fn view(&self) -> ResponseView {
        ResponseView {
            status: self.status,
            body: self.body@,
            allow: match self.allow {
                Some(a) => Some(a@),
                None => None,
            },
        }
    }
}

/// The registered routes.
pub enum Route {
    Welcome,
    Health,
}

/// The path part of a request target: everything before the first `?`.
pub open spec fn path_of(target: Seq<char>) -> Seq<char>
    decreases target.len(),
{
    if target.contains('?') {
        path_of(target.drop_last())
    } else {
        target
    }
}

/// The route table: `/` and `/health`, matched exactly.
pub open spec fn route_of(path: Seq<char>) -> Option<Route> {
    if path == "/"@ {
        Some(Route::Welcome)
    } else if path == "/health"@ {
        Some(Route::Health)
    } else {
        None
    }
}

/// Every route is registered for GET, which also answers HEAD.
pub open spec fn served_method(method: Method) -> bool {
    method is Get || method is Head
}

/// The `Allow` header sent with a 405 answer.
pub open spec fn allowed_methods() -> Seq<char> {
    "GET,HEAD"@
}

/// The response to a request with this method and target.
pub open spec fn response_for(method: Method, target: Seq<char>) -> ResponseView {
    match route_of(path_of(target)) {
        None => ResponseView { status: 404, body: BodyView::Empty, allow: None },
        Some(route) => if !served_method(method) {
            ResponseView { status: 405, body: BodyView::Empty, allow: Some(allowed_methods()) }
        } else {
            match route {
                Route::Welcome => ResponseView {
                    status: 200,
                    body: BodyView::Message(welcome_message()),
                    allow: None,
                },
                Route::Health => ResponseView {
                    status: 200,
                    body: BodyView::Status(health_status()),
                    allow: None,
                },
            }
        },
    }
}

/// A prefix free of `?` that stops at a `?` is the path part.
proof fn lemma_path_of_stops(t: Seq<char>, k: int)
    requires
        0 <= k < t.len(),
        t[k] == '?',
        !t.take(k).contains('?'),
    ensures
        path_of(t) == t.take(k),
    decreases t.len(),
{
    assert(t.contains('?')) by {
        assert(t[k] == '?');
    }
    assert(path_of(t) == path_of(t.drop_last()));
    if k + 1 == t.len() {
        assert(t.drop_last() =~= t.take(k));
        assert(path_of(t.take(k)) == t.take(k));
    } else {
        let d = t.drop_last();
        assert(d.take(k) =~= t.take(k));
        assert(d[k] == '?');
        lemma_path_of_stops(d, k);
    }
}

/// The path part of the target, as characters.
fn path_part(target: &str) -> (r: Vec<char>)
    ensures
        r@ == path_of(target@),
{
    let mut path: Vec<char> = Vec::new();
    for c in it: target.chars()
        invariant
            it.seq() == target@,
            path@ == target@.take(it.index() as int),
            !path@.contains('?'),
    {
        if c == '?' {
            proof {
                lemma_path_of_stops(target@, it.index() as int);
            }
            return path;
        }
        path.push(c);
        assert(path@ =~= target@.take(it.index() + 1));
        assert(!path@.contains('?')) by {
            if path@.contains('?') {
                let j = choose|j: int| 0 <= j < path@.len() && path@[j] == '?';
                assert(j < it.index() ==> path@.take(it.index() as int)[j] == '?');
            }
        }
    }
    assert(target@.take(target@.len() as int) =~= target@);
    path
}

/// Whether the characters are exactly those of `s`.
fn chars_equal(a: &Vec<char>, s: &str) -> (r: bool)
    ensures
        r == (a@ == s@),
{
    let n = s.unicode_len();
    if a.len() != n {
        return false;
    }
    let mut i: usize = 0;
    while i < n
        invariant
            n == s@.len(),
            a@.len() == n,
            i <= n,
            forall|j: int| 0 <= j < i ==> a@[j] == s@[j],
        decreases n - i,
    {
        if a[i] != s.get_char(i) {
            return false;
        }
        i = i + 1;
    }
    assert(a@ =~= s@);
    true
}

/// Decides the response to a request from its method and its target (the
/// path, optionally followed by `?` and a query, which is not consulted).
/// Headers and body of the request play no part.
///
/// `GET /` gives the welcome message, `GET /health` the health status, both
/// with 200; `HEAD` on either is answered as `GET` is. Another method on
/// either path gives 405 with `Allow: GET,HEAD` and an empty body; any other
/// path gives 404 with an empty body, whatever the method.
pub fn dispatch(method: &Method, target: &str) -> (r: HttpResponse)
    ensures
        r@ == response_for(*method, target@),
{
    let path = path_part(target);
    let is_root = chars_equal(&path, "/");
    let is_health = !is_root && chars_equal(&path, "/health");
    if !is_root && !is_health {
        return HttpResponse { status: STATUS_NOT_FOUND, body: Body::Empty, allow: None };
    }
    match method {
        Method::Get | Method::Head => {},
        _ => {
            return HttpResponse {
                status: STATUS_METHOD_NOT_ALLOWED,
                body: Body::Empty,
                allow: Some("GET,HEAD".to_string()),
            };
        },
    }
    if is_root {
        let (status, response) = welcome();
        HttpResponse { status, body: Body::Message(response), allow: None }
    } else {
        let (status, response) = health_check();
        HttpResponse { status, body: Body::Status(response), allow: None }
    }
}

/// The path part of a literal path followed by a query is that path.
proof fn lemma_path_with_query(path: Seq<char>, query: Seq<char>)
    requires
        !path.contains('?'),
    ensures
        path_of(path + seq!['?'] + query) == path,
        path_of(path) == path,
{
    let t = path + seq!['?'] + query;
    assert(t.take(path.len() as int) =~= path);
    lemma_path_of_stops(t, path.len() as int);
}

/// `GET /` answers 200 with the welcome message, with or without a query.
pub proof fn root_welcomes(query: Seq<char>)
    ensures
        response_for(Method::Get, "/"@) == (ResponseView {
            status: 200,
            body: BodyView::Message(welcome_message()),
            allow: None,
        }),
        response_for(Method::Get, "/"@ + seq!['?'] + query) == response_for(Method::Get, "/"@),
{
    reveal_strlit("/");
    reveal_strlit("/health");
    lemma_path_with_query("/"@, query);
}

/// `GET /health` answers 200 with status `ok`, with or without a query.
pub proof fn health_reports_ok(query: Seq<char>)
    ensures
        response_for(Method::Get, "/health"@) == (ResponseView {
            status: 200,
            body: BodyView::Status(health_status()),
            allow: None,
        }),
        response_for(Method::Get, "/health?"@ + query) == response_for(
            Method::Get,
            "/health"@,
        ),
{
    reveal_strlit("/");
    reveal_strlit("/health");
    reveal_strlit("/health?");
    assert("/health?"@ =~= "/health"@ + seq!['?']);
    lemma_path_with_query("/health"@, query);
}

/// A request whose path has no route is answered 404 with an empty body,
/// whatever its method.
pub proof fn unrouted_path_not_found(method: Method, target: Seq<char>)
    requires
        route_of(path_of(target)) is None,
    ensures
        response_for(method, target) == (ResponseView {
            status: 404,
            body: BodyView::Empty,
            allow: None,
        }),
{
}

/// A method other than GET and HEAD on a routed path is answered the same
/// way on both paths: 405, `Allow: GET,HEAD`, an empty body.
pub proof fn unserved_method_not_allowed(method: Method)
    requires
        !served_method(method),
    ensures
        response_for(method, "/"@) == (ResponseView {
            status: 405,
            body: BodyView::Empty,
            allow: Some(allowed_methods()),
        }),
        response_for(method, "/health"@) == response_for(method, "/"@),
{
    reveal_strlit("/");
    reveal_strlit("/health");
    lemma_path_with_query("/"@, Seq::empty());
    lemma_path_with_query("/health"@, Seq::empty());
}

/// A query never changes the answer: the target `path?query` is answered as
/// `path` is, for every method.
pub proof fn query_is_ignored(method: Method, path: Seq<char>, query: Seq<char>)
    requires
        !path.contains('?'),
    ensures
        response_for(method, path + seq!['?'] + query) == response_for(method, path),
{
    lemma_path_with_query(path, query);
}

} // verus!
