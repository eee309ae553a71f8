use vstd::prelude::*;
use crate::lifecycle::Event;
use crate::lifecycle::LifecycleController;
use crate::lifecycle::step;
use crate::text::decimal_string;
use crate::text::spec_decimal;

verus! {

// The fixed route table exposed by the listener (method GET only):
//   /               200, greeting
//   /hello/<name>   200, personalised greeting (one non-empty segment)
//   /error          500, fault-injection route
//   /server-status  200, JSON with the live connection tally
// Anything else is not mounted.

/// Mathematical view of a [`Response`].
#[verifier::ext_equal]
pub ghost struct ResponseView {
    pub status: int,
    pub body: Seq<char>,
}

/// An HTTP response produced by one of the mounted routes.
#[derive(Clone, Debug)]
pub struct Response {
    pub status: u16,
    pub body: String,
}

impl View for Response {
    type V = ResponseView;

    open spec fn view(&self) -> ResponseView {
        ResponseView { status: self.status as int, body: self.body@ }
    }
}

pub open spec fn index_body() -> Seq<char> {
    "Hello, world from Solara Server!"@
}

pub open spec fn hello_body(name: Seq<char>) -> Seq<char> {
    "Hello, "@ + name + "!"@
}

pub open spec fn error_body() -> Seq<char> {
    "Server error simulation"@
}

pub open spec fn server_status_body(active: nat) -> Seq<char> {
    "{\"status\": \"online\", \"active_connections\": "@ + spec_decimal(active) + "}"@
}

/// GET `/`.
pub fn route_index() -> (r: Response)
    ensures
        r@.status == 200,
        r@.body == index_body(),
{
    Response { status: 200, body: String::from_str("Hello, world from Solara Server!") }
}

/// GET `/hello/<name>`; `name` arrives already percent-decoded.
pub fn route_hello(name: &str) -> (r: Response)
    ensures
        r@.status == 200,
        r@.body == hello_body(name@),
{
    let mut body = String::from_str("Hello, ");
    body.append(name);
    body.append("!");
    Response { status: 200, body }
}

/// GET `/error`: the fixed fault-injection route.
pub fn route_error() -> (r: Response)
    ensures
        r@.status == 500,
        r@.body == error_body(),
{
    Response { status: 500, body: String::from_str("Server error simulation") }
}

/// GET `/server-status`: a JSON snapshot of the live connection tally.
pub fn route_server_status(active_connections: usize) -> (r: Response)
    ensures
        r@.status == 200,
        r@.body == server_status_body(active_connections as nat),
{
    let mut body = String::from_str("{\"status\": \"online\", \"active_connections\": ");
    let digits = decimal_string(active_connections as u64);
    body.append(digits.as_str());
    body.append("}");
    proof {
        assert(body@ =~= server_status_body(active_connections as nat));
    }
    Response { status: 200, body }
}

/// Which route, if any, the table mounts for `path`.
#[verifier::ext_equal]
pub ghost enum RouteMatch {
    Index,
    Hello { name: Seq<char> },
    Error,
    ServerStatus,
    NotFound,
}

pub open spec fn hello_prefix() -> Seq<char> {
    "/hello/"@
}

pub open spec fn spec_route(path: Seq<char>) -> RouteMatch {
    if path == "/"@ {
        RouteMatch::Index
    } else if path == "/error"@ {
        RouteMatch::Error
    } else if path == "/server-status"@ {
        RouteMatch::ServerStatus
    } else if path.len() > hello_prefix().len() && path.subrange(0, hello_prefix().len() as int)
        == hello_prefix() && (forall|j: int|
        hello_prefix().len() <= j < path.len() ==> path[j] != '/') {
        RouteMatch::Hello { name: path.subrange(hello_prefix().len() as int, path.len() as int) }
    } else {
        RouteMatch::NotFound
    }
}

/// The response the route table yields for `path` when `active` requests
/// are tallied, or `None` where no route is mounted.
pub open spec fn spec_response(path: Seq<char>, active: nat) -> Option<ResponseView> {
    match spec_route(path) {
        RouteMatch::Index => Some(ResponseView { status: 200, body: index_body() }),
        RouteMatch::Hello { name } => Some(ResponseView { status: 200, body: hello_body(name) }),
        RouteMatch::Error => Some(ResponseView { status: 500, body: error_body() }),
        RouteMatch::ServerStatus => Some(
            ResponseView { status: 200, body: server_status_body(active) },
        ),
        RouteMatch::NotFound => None,
    }
}

/// Character-wise string equality.
fn str_eq(a: &str, b: &str) -> (r: bool)
    ensures
        r == (a@ == b@),
{
    let na = a.unicode_len();
    let nb = b.unicode_len();
    if na != nb {
        return false;
    }
    let mut i: usize = 0;
    while i < na
        invariant
            i <= na,
            na == a@.len(),
            na == b@.len(),
            forall|j: int| 0 <= j < i ==> a@[j] == b@[j],
        decreases na - i,
    {
        if a.get_char(i) != b.get_char(i) {
            return false;
        }
        i = i + 1;
    }
    proof {
        assert(a@ =~= b@);
    }
    true
}

/// Look `path` up in the route table and build its response;
/// `active_connections` is the tally the status route reports.
pub fn dispatch(path: &str, active_connections: usize) -> (r: Option<Response>)
    ensures
        r is None <==> spec_response(path@, active_connections as nat) is None,
        r matches Some(resp) ==> spec_response(path@, active_connections as nat) == Some(resp@),
{
    if str_eq(path, "/") {
        return Some(route_index());
    }
    if str_eq(path, "/error") {
        return Some(route_error());
    }
    if str_eq(path, "/server-status") {
        return Some(route_server_status(active_connections));
    }
    let n = path.unicode_len();
    let prefix = "/hello/";
    let np = prefix.unicode_len();
    if n <= np {
        return None;
    }
    let mut i: usize = 0;
    while i < np
        invariant
            i <= np,
            n == path@.len(),
            np == prefix@.len(),
            prefix@ == hello_prefix(),
            n > np,
            path@ != "/"@ && path@ != "/error"@ && path@ != "/server-status"@,
            forall|j: int| 0 <= j < i ==> path@[j] == prefix@[j],
        decreases np - i,
    {
        if path.get_char(i) != prefix.get_char(i) {
            proof {
                let pi = i as int;
                assert(path@.subrange(0, hello_prefix().len() as int)[pi] == path@[pi]);
                assert(path@.subrange(0, hello_prefix().len() as int) != hello_prefix());
                assert(spec_route(path@) is NotFound);
            }
            return None;
        }
        i = i + 1;
    }
    let mut k: usize = np;
    while k < n
        invariant
            np <= k <= n,
            n == path@.len(),
            np == prefix@.len(),
            prefix@ == hello_prefix(),
            path@ != "/"@ && path@ != "/error"@ && path@ != "/server-status"@,
            forall|j: int| np <= j < k ==> path@[j] != '/',
        decreases n - k,
    {
        if path.get_char(k) == '/' {
            proof {
                let pk = k as int;
                assert(path@[pk] == '/');
                assert(hello_prefix().len() <= pk < path@.len());
                assert(!(forall|j: int|
                    hello_prefix().len() <= j < path@.len() ==> path@[j] != '/'));
                assert(spec_route(path@) is NotFound);
            }
            return None;
        }
        k = k + 1;
    }
    proof {
        assert(path@.subrange(0, hello_prefix().len() as int) =~= hello_prefix());
    }
    let name = path.substring_char(np, n);
    let resp = route_hello(name);
    proof {
        assert(spec_route(path@) is Hello);
    }
    Some(resp)
}

/// One request, end to end, as the serving middleware performs it: tally
/// the request, dispatch it against the route table, untally it. The
/// request is served only while the listener is Running and the tally has
/// room; the tally is back where it started once the response is out, so
/// a request leaves the controller exactly as it found it.
pub fn serve_request(ctrl: &mut LifecycleController, path: &str) -> (r: Option<Response>)
    ensures
        final(ctrl)@ == old(ctrl)@,
        r is Some <==> (old(ctrl)@.status is Running && old(ctrl)@.active < usize::MAX
            && spec_response(path@, old(ctrl)@.active + 1) is Some),
        r matches Some(resp) ==> spec_response(path@, old(ctrl)@.active + 1) == Some(resp@),
{
    let ghost m0 = ctrl@;
    let accepted = ctrl.request_begin();
    if !accepted {
        proof {
            assert(ctrl@ =~= m0);
        }
        return None;
    }
    let resp = dispatch(path, ctrl.active_connections());
    ctrl.request_end();
    proof {
        assert(step(step(m0, Event::RequestBegin), Event::RequestEnd) =~= m0);
    }
    resp
}

} // verus!
