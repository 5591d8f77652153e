//! The HTTP surface: one route, `GET /`, answered with a fixed text.

use vstd::prelude::*;

verus! {

/// An HTTP request method.
#[derive(Clone, Copy, Debug, PartialEq, Eq, Hash, Structural)]
pub enum Method {
    Get,
    Head,
    Post,
    Put,
    Delete,
    Connect,
    Options,
    Trace,
    Patch,
}

/// A response: a status code, the content type and the text of the
/// body.
#[derive(Debug, PartialEq, Eq)]
pub struct Response {
    pub status: u16,
    pub content_type: String,
    pub body: String,
}

/// The mathematical value of a [`Response`].
pub struct ResponseView {
    pub status: u16,
    pub content_type: Seq<char>,
    pub body: Seq<char>,
}

impl View for Response {
    type V = ResponseView;

    open spec fn view(&self) -> ResponseView {
        ResponseView {
            status: self.status,
            content_type: self.content_type@,
            body: self.body@,
        }
    }
}

impl Clone for Response {
    fn clone(&self) -> (copy: Response)
        ensures
            copy@ == self@,
    {
        Response {
            status: self.status,
            content_type: self.content_type.clone(),
            body: self.body.clone(),
        }
    }
}

/// One entry of the route table: requests with this method for exactly
/// this path get this response.
#[derive(Debug, PartialEq, Eq)]
pub struct Route {
    pub method: Method,
    pub path: String,
    pub response: Response,
}

/// The mathematical value of a [`Route`].
pub struct RouteView {
    pub method: Method,
    pub path: Seq<char>,
    pub response: ResponseView,
}

impl RouteView {
    /// Whether this route serves `method` on `path`.
    pub open spec fn serves(self, method: Method, path: Seq<char>) -> bool {
        self.method == method && self.path == path
    }
}

impl View for Route {
    type V = RouteView;

    open spec fn view(&self) -> RouteView {
        RouteView { method: self.method, path: self.path@, response: self.response@ }
    }
}

/// The content type of plain text.
pub open spec fn plain_text() -> Seq<char> {
    "text/plain; charset=utf-8"@
}

/// The text that `GET /` is answered with.
pub open spec fn greeting() -> Seq<char> {
    "Hello, World!"@
}

/// The handler of `GET /`: the greeting, always.
pub fn root() -> (body: &'static str)
    ensures
        body@ == greeting(),
{
    "Hello, World!"
}

/// The route table: routes in the order in which they were registered.
#[derive(Debug, PartialEq, Eq)]
pub struct Router {
    pub routes: Vec<Route>,
}

impl View for Router {
    type V = Seq<RouteView>;

    open spec fn view(&self) -> Seq<RouteView> {
        self.routes@.map_values(|route: Route| route@)
    }
}

/// The response that `routes` gives to `method` on `path`: that of the
/// first route that serves the pair, `None` if no route does.
pub open spec fn lookup(routes: Seq<RouteView>, method: Method, path: Seq<char>) -> Option<
    ResponseView,
>
    decreases routes.len(),
{
    if routes.len() == 0 {
        None
    } else if routes[0].serves(method, path) {
        Some(routes[0].response)
    } else {
        lookup(routes.drop_first(), method, path)
    }
}

/// The server's route table: `GET /` answers 200 with the greeting as
/// plain text, and there is no other route.
pub open spec fn route_table() -> Seq<RouteView> {
    seq![
        RouteView {
            method: Method::Get,
            path: "/"@,
            response: ResponseView {
                status: 200,
                content_type: plain_text(),
                body: greeting(),
            },
        },
    ]
}

/// Builds the server's route table.
pub fn router() -> (table: Router)
    ensures
        table@ == route_table(),
{
    let greet = Route {
        method: Method::Get,
        path: "/".to_owned(),
        response: Response {
            status: 200,
            content_type: "text/plain; charset=utf-8".to_owned(),
            body: root().to_owned(),
        },
    };
    let mut routes: Vec<Route> = Vec::new();
    routes.push(greet);
    let table = Router { routes };
    assert(table@ =~= route_table());
    table
}

impl Router {
    /// Answers a request: the response of the first route registered
    /// for `method` and `path`, or `None` where the table has no such
    /// route.
    pub fn respond(&self, method: Method, path: &str) -> (answer: Option<Response>)
        ensures
            answer is Some <==> lookup(self@, method, path@) is Some,
            answer matches Some(response) ==> lookup(self@, method, path@) == Some(response@),
    {
        let wanted: String = path.to_owned();
        let mut i: usize = 0;
        assert(self@.skip(0) =~= self@);
        while i < self.routes.len()
            invariant
                i <= self.routes.len(),
                wanted@ == path@,
                lookup(self@, method, path@) == lookup(self@.skip(i as int), method, path@),
            decreases self.routes.len() - i,
        {
            let route = &self.routes[i];
            proof {
                let rest = self@.skip(i as int);
                assert(rest[0] == route@);
                assert(rest.drop_first() =~= self@.skip(i + 1));
            }
            if route.method == method && route.path == wanted {
                return Some(route.response.clone());
            }
            i += 1;
        }
        None
    }
}

/// `GET /` is always answered, with status 200 and exactly the
/// greeting, as plain text.
pub proof fn lemma_root_is_served()
    ensures
        lookup(route_table(), Method::Get, "/"@) == Some(
            ResponseView {
                status: 200,
                content_type: "text/plain; charset=utf-8"@,
                body: "Hello, World!"@,
            },
        ),
{
}

/// The table serves nothing but `GET /`.
pub proof fn lemma_only_root_is_served(method: Method, path: Seq<char>)
    ensures
        lookup(route_table(), method, path) is Some <==> method == Method::Get && path == "/"@,
{
    reveal_with_fuel(lookup, 2);
    assert(route_table().drop_first().len() == 0);
}

} // verus!
