//! The route table of the HTTP interface and the responder behind it.
//!
//! Routing is by exact match on method and path. A request that no route
//! matches gets no response from here: what the server does with it is the
//! server's own business.

use vstd::prelude::*;

verus! {

/// Request methods a route can be registered for.
#[derive(Clone, Copy, Debug, PartialEq, Eq, Structural)]
pub enum Method {
    Get,
    Head,
    Post,
    Put,
    Delete,
}

/// What a route answers with.
#[derive(Debug, PartialEq, Eq)]
pub struct Response {
    pub status: u16,
    pub status_message: Option<String>,
    pub body: String,
}

/// One entry of the route table: requests for `path` with `method` get
/// `response`, whatever else they carry.
#[derive(Debug, PartialEq, Eq)]
pub struct Route {
    pub path: String,
    pub method: Method,
    pub response: Response,
}

/// Mathematical model of a [`Response`].
pub struct ResponseView {
    pub status: u16,
    pub status_message: Option<Seq<char>>,
    pub body: Seq<char>,
}

/// Mathematical model of a [`Route`].
pub struct RouteView {
    pub path: Seq<char>,
    pub method: Method,
    pub response: ResponseView,
}

impl View for Response {
    type V = ResponseView;

    open spec fn view(&self) -> ResponseView {
        ResponseView {
            status: self.status,
            status_message: match self.status_message {
                Some(message) => Some(message@),
                None => None,
            },
            body: self.body@,
        }
    }
}

impl View for Route {
    type V = RouteView;

    open spec fn view(&self) -> RouteView {
        RouteView { path: self.path@, method: self.method, response: self.response@ }
    }
}

/// The model of a whole table, route by route, in table order.
pub open spec fn table_view(table: Seq<Route>) -> Seq<RouteView> {
    Seq::new(table.len(), |i: int| table[i]@)
}

/// The answer of the root path.
pub open spec fn greeting() -> ResponseView {
    ResponseView { status: 200, status_message: None, body: "Yeehaa!"@ }
}

/// The answer of the forbidden page.
pub open spec fn refusal() -> ResponseView {
    ResponseView {
        status: 403,
        status_message: Some("No permissions"@),
        body: "You have no permissions to access this page"@,
    }
}

/// The two routes of the device.
pub open spec fn routes() -> Seq<RouteView> {
    seq![
        RouteView { path: "/"@, method: Method::Get, response: greeting() },
        RouteView { path: "/kukkuu"@, method: Method::Get, response: refusal() },
    ]
}

/// The response of the first route of `table` registered for exactly this
/// method and path, if there is one.
pub open spec fn matched(
    table: Seq<RouteView>,
    method: Method,
    path: Seq<char>,
) -> Option<ResponseView>
    decreases table.len(),
{
    if table.len() == 0 {
        None
    } else if table.first().method == method && table.first().path == path {
        Some(table.first().response)
    } else {
        matched(table.drop_first(), method, path)
    }
}

/// What the device answers: the greeting to `GET /`, the refusal to
/// `GET /kukkuu`, and nothing of its own to anything else.
pub open spec fn response_for(method: Method, path: Seq<char>) -> Option<ResponseView> {
    if method == Method::Get && path == "/"@ {
        Some(greeting())
    } else if method == Method::Get && path == "/kukkuu"@ {
        Some(refusal())
    } else {
        None
    }
}

/// Looking a request up in the device's table gives the greeting for
/// `GET /`, the refusal for `GET /kukkuu`, and nothing for anything else.
pub proof fn table_answers_as_device(method: Method, path: Seq<char>)
    ensures
        matched(routes(), method, path) == response_for(method, path),
{
    let table = routes();
    let rest = table.drop_first();
    assert(rest.len() == 1);
    assert(rest.first() == table[1]);
    assert(rest.drop_first().len() == 0);
    reveal_with_fuel(matched, 3);
}

/// No request is claimed by both routes: the two paths differ.
pub proof fn routes_do_not_overlap()
    ensures
        routes().len() == 2,
        routes()[0].path != routes()[1].path,
{
    reveal_strlit("/");
    reveal_strlit("/kukkuu");
    assert("/"@.len() != "/kukkuu"@.len());
}

impl Response {
    /// A response with status 200, no status message, and `body`.
    pub fn ok(body: &str) -> (response: Response)
        ensures
            response@ == (ResponseView { status: 200, status_message: None, body: body@ }),
    {
        Response { status: 200, status_message: None, body: body.to_owned() }
    }

    /// A response with the given status, status message and body.
    pub fn with_status(status: u16, message: &str, body: &str) -> (response: Response)
        ensures
            response@ == (ResponseView {
                status,
                status_message: Some(message@),
                body: body@,
            }),
    {
        Response { status, status_message: Some(message.to_owned()), body: body.to_owned() }
    }
}

impl Clone for Response {
    fn clone(&self) -> (copy: Response)
        ensures
            copy@ == self@,
    {
        let status_message: Option<String> = match &self.status_message {
            Some(message) => Some(message.clone()),
            None => None,
        };
        Response { status: self.status, status_message, body: self.body.clone() }
    }
}

impl Clone for Route {
    fn clone(&self) -> (copy: Route)
        ensures
            copy@ == self@,
    {
        Route { path: self.path.clone(), method: self.method, response: self.response.clone() }
    }
}

/// Builds the route table of the device.
pub fn route_table() -> (table: Vec<Route>)
    ensures
        table_view(table@) == routes(),
{
    let mut table: Vec<Route> = Vec::new();
    table.push(
        Route { path: "/".to_owned(), method: Method::Get, response: Response::ok("Yeehaa!") },
    );
    table.push(
        Route {
            path: "/kukkuu".to_owned(),
            method: Method::Get,
            response: Response::with_status(
                403,
                "No permissions",
                "You have no permissions to access this page",
            ),
        },
    );
    assert(table_view(table@) =~= routes());
    table
}

/// Looks a request up in `table`: the first route registered for exactly this
/// method and path answers. Paths are compared as they are, with no wildcard
/// and no parameter.
pub fn dispatch(table: &Vec<Route>, method: Method, path: &str) -> (response: Option<Response>)
    ensures
        match response {
            Some(found) => matched(table_view(table@), method, path@) == Some(found@),
            None => matched(table_view(table@), method, path@) is None,
        },
{
    let wanted: String = path.to_owned();
    let mut i: usize = 0;
    assert(table_view(table@).skip(0) =~= table_view(table@));
    while i < table.len()
        invariant
            i <= table.len(),
            wanted@ == path@,
            matched(table_view(table@), method, path@) == matched(
                table_view(table@).skip(i as int),
                method,
                path@,
            ),
        decreases table.len() - i,
    {
        let ghost remaining = table_view(table@).skip(i as int);
        assert(remaining.first() == table[i as int]@);
        assert(remaining.drop_first() =~= table_view(table@).skip(i + 1));
        if table[i].method == method && table[i].path == wanted {
            return Some(table[i].response.clone());
        }
        i += 1;
    }
    None
}

/// Answers a request as the device does: `GET /` is greeted, `GET /kukkuu` is
/// refused with status 403, and every other request is left to the server.
pub fn respond(method: Method, path: &str) -> (response: Option<Response>)
    ensures
        match response {
            Some(found) => response_for(method, path@) == Some(found@),
            None => response_for(method, path@) is None,
        },
{
    proof {
        table_answers_as_device(method, path@);
    }
    let table = route_table();
    dispatch(&table, method, path)
}

} // verus!
