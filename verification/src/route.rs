//! Routes, the route table, the application builder and route groups.
//!
//! The route table is a `Vec` you can iterate, filter, print, serialize. The
//! handler type `H` and the middleware handle type `M` are chosen by the
//! server (boxed async functions and shared middleware objects); the
//! bookkeeping here — prefixes, metadata, and the order in which group
//! middleware runs — does not depend on them.
use std::collections::HashMap;
use vstd::prelude::*;

use crate::text::{push_str, str_equal, to_string};

verus! {

/// The HTTP methods a route can be registered for.
#[derive(Copy, Clone, Debug, PartialEq, Eq, Structural)]
pub enum Method {
    Get,
    Post,
    Put,
    Delete,
    Patch,
    Head,
    Options,
    Connect,
    Trace,
}

/// The method's name as it appears on the request line.
pub open spec fn method_text(m: Method) -> Seq<char> {
    match m {
        Method::Get => "GET"@,
        Method::Post => "POST"@,
        Method::Put => "PUT"@,
        Method::Delete => "DELETE"@,
        Method::Patch => "PATCH"@,
        Method::Head => "HEAD"@,
        Method::Options => "OPTIONS"@,
        Method::Connect => "CONNECT"@,
        Method::Trace => "TRACE"@,
    }
}

impl Method {
    /// The method's name as it appears on the request line.
    pub fn as_str(&self) -> (s: &'static str)
        ensures
            s@ == method_text(*self),
    {
        match self {
            Method::Get => "GET",
            Method::Post => "POST",
            Method::Put => "PUT",
            Method::Delete => "DELETE",
            Method::Patch => "PATCH",
            Method::Head => "HEAD",
            Method::Options => "OPTIONS",
            Method::Connect => "CONNECT",
            Method::Trace => "TRACE",
        }
    }
}

/// The method a request-line token names (the standard tokens of RFC 9110,
/// section 9), if any.
pub open spec fn method_of_token(t: Seq<char>) -> Option<Method> {
    if t == "GET"@ {
        Some(Method::Get)
    } else if t == "HEAD"@ {
        Some(Method::Head)
    } else if t == "POST"@ {
        Some(Method::Post)
    } else if t == "PUT"@ {
        Some(Method::Put)
    } else if t == "DELETE"@ {
        Some(Method::Delete)
    } else if t == "CONNECT"@ {
        Some(Method::Connect)
    } else if t == "OPTIONS"@ {
        Some(Method::Options)
    } else if t == "TRACE"@ {
        Some(Method::Trace)
    } else if t == "PATCH"@ {
        Some(Method::Patch)
    } else {
        None
    }
}

/// The method a lowercase token names (as the OpenAPI document keys
/// operations), if any.
pub open spec fn method_of_lower_token(t: Seq<char>) -> Option<Method> {
    if t == "get"@ {
        Some(Method::Get)
    } else if t == "head"@ {
        Some(Method::Head)
    } else if t == "post"@ {
        Some(Method::Post)
    } else if t == "put"@ {
        Some(Method::Put)
    } else if t == "delete"@ {
        Some(Method::Delete)
    } else if t == "connect"@ {
        Some(Method::Connect)
    } else if t == "options"@ {
        Some(Method::Options)
    } else if t == "trace"@ {
        Some(Method::Trace)
    } else if t == "patch"@ {
        Some(Method::Patch)
    } else {
        None
    }
}

proof fn lemma_method_tokens_distinct()
    ensures
        "GET"@ != "HEAD"@ && "GET"@ != "POST"@ && "GET"@ != "PUT"@ && "GET"@ != "DELETE"@
            && "GET"@ != "CONNECT"@ && "GET"@ != "OPTIONS"@ && "GET"@ != "TRACE"@,
        "HEAD"@ != "POST"@ && "HEAD"@ != "PUT"@ && "HEAD"@ != "DELETE"@ && "HEAD"@ != "CONNECT"@
            && "HEAD"@ != "OPTIONS"@ && "HEAD"@ != "TRACE"@,
        "POST"@ != "PUT"@ && "POST"@ != "DELETE"@ && "POST"@ != "CONNECT"@ && "POST"@ != "OPTIONS"@
            && "POST"@ != "TRACE"@,
        "PUT"@ != "DELETE"@ && "PUT"@ != "CONNECT"@ && "PUT"@ != "OPTIONS"@ && "PUT"@ != "TRACE"@,
        "DELETE"@ != "CONNECT"@ && "DELETE"@ != "OPTIONS"@ && "DELETE"@ != "TRACE"@,
        "CONNECT"@ != "OPTIONS"@ && "CONNECT"@ != "TRACE"@,
        "OPTIONS"@ != "TRACE"@,
        "PATCH"@ != "GET"@ && "PATCH"@ != "HEAD"@ && "PATCH"@ != "POST"@ && "PATCH"@ != "PUT"@
            && "PATCH"@ != "DELETE"@ && "PATCH"@ != "CONNECT"@ && "PATCH"@ != "OPTIONS"@
            && "PATCH"@ != "TRACE"@,
{
    reveal_strlit("GET");
    reveal_strlit("HEAD");
    reveal_strlit("POST");
    reveal_strlit("PUT");
    reveal_strlit("DELETE");
    reveal_strlit("CONNECT");
    reveal_strlit("OPTIONS");
    reveal_strlit("TRACE");
    reveal_strlit("PATCH");
    assert("GET"@[0] != "HEAD"@[0]);
    assert("POST"@[1] != "PUT"@[1]);
    assert("POST"@[0] != "PATCH"@[1]);
    assert("PUT"@[1] != "PATCH"@[1]);
    assert("CONNECT"@[0] != "OPTIONS"@[0]);
    assert("DELETE"@[0] != "TRACE"@[0]);
    assert("HEAD"@[0] != "POST"@[0]);
}

/// Every method's name is the request-line token that names it: reading the
/// name back gives the method, so no two methods share a name.
pub proof fn lemma_method_names_are_tokens(m: Method)
    ensures
        method_of_token(method_text(m)) == Some(m),
{
    lemma_method_tokens_distinct();
}

/// The lowercase forms of the methods' names (the keys of OpenAPI
/// operations) name the methods too, so distinct methods on one path are
/// documented under distinct keys.
pub proof fn lemma_method_keys_distinct(m1: Method, m2: Method)
    ensures
        method_of_lower_token(crate::text::ascii_lower_seq(method_text(m1))) == Some(m1),
        m1 != m2 ==> crate::text::ascii_lower_seq(method_text(m1)) != crate::text::ascii_lower_seq(
            method_text(m2),
        ),
{
    reveal_strlit("GET");
    reveal_strlit("HEAD");
    reveal_strlit("POST");
    reveal_strlit("PUT");
    reveal_strlit("DELETE");
    reveal_strlit("CONNECT");
    reveal_strlit("OPTIONS");
    reveal_strlit("TRACE");
    reveal_strlit("PATCH");
    reveal_strlit("get");
    reveal_strlit("head");
    reveal_strlit("post");
    reveal_strlit("put");
    reveal_strlit("delete");
    reveal_strlit("connect");
    reveal_strlit("options");
    reveal_strlit("trace");
    reveal_strlit("patch");
    lemma_lower_method_text(m1);
    lemma_lower_method_text(m2);
}

proof fn lemma_lower_method_text(m: Method)
    ensures
        method_of_lower_token(crate::text::ascii_lower_seq(method_text(m))) == Some(m),
{
    reveal_strlit("GET");
    reveal_strlit("HEAD");
    reveal_strlit("POST");
    reveal_strlit("PUT");
    reveal_strlit("DELETE");
    reveal_strlit("CONNECT");
    reveal_strlit("OPTIONS");
    reveal_strlit("TRACE");
    reveal_strlit("PATCH");
    reveal_strlit("get");
    reveal_strlit("head");
    reveal_strlit("post");
    reveal_strlit("put");
    reveal_strlit("delete");
    reveal_strlit("connect");
    reveal_strlit("options");
    reveal_strlit("trace");
    reveal_strlit("patch");
    assert("get"@[0] != "put"@[0]);
    assert("head"@[0] != "post"@[0]);
    assert("trace"@[0] != "patch"@[0]);
    assert("connect"@[0] != "options"@[0]);
    match m {
        Method::Get => {
            assert(crate::text::ascii_lower_seq("GET"@) =~= "get"@);
            assert(method_of_lower_token("get"@) == Some(Method::Get));
        },
        Method::Head => {
            assert(crate::text::ascii_lower_seq("HEAD"@) =~= "head"@);
            assert(method_of_lower_token("head"@) == Some(Method::Head));
        },
        Method::Post => {
            assert(crate::text::ascii_lower_seq("POST"@) =~= "post"@);
            assert(method_of_lower_token("post"@) == Some(Method::Post));
        },
        Method::Put => {
            assert(crate::text::ascii_lower_seq("PUT"@) =~= "put"@);
            assert(method_of_lower_token("put"@) == Some(Method::Put));
        },
        Method::Delete => {
            assert(crate::text::ascii_lower_seq("DELETE"@) =~= "delete"@);
            assert(method_of_lower_token("delete"@) == Some(Method::Delete));
        },
        Method::Connect => {
            assert(crate::text::ascii_lower_seq("CONNECT"@) =~= "connect"@);
            assert(method_of_lower_token("connect"@) == Some(Method::Connect));
        },
        Method::Options => {
            assert(crate::text::ascii_lower_seq("OPTIONS"@) =~= "options"@);
            assert(method_of_lower_token("options"@) == Some(Method::Options));
        },
        Method::Trace => {
            assert(crate::text::ascii_lower_seq("TRACE"@) =~= "trace"@);
            assert(method_of_lower_token("trace"@) == Some(Method::Trace));
        },
        Method::Patch => {
            assert(crate::text::ascii_lower_seq("PATCH"@) =~= "patch"@);
            assert(method_of_lower_token("patch"@) == Some(Method::Patch));
        },
    }
}

/// Metadata attached to a route, queryable at runtime.
#[derive(Clone, Debug)]
pub struct RouteMetadata {
    pub name: Option<String>,
    pub tags: Vec<String>,
    pub deprecated: bool,
    pub custom: HashMap<String, String>,
}

/// Metadata with nothing set.
pub open spec fn is_empty_metadata(m: RouteMetadata) -> bool {
    &&& m.name is None
    &&& m.tags@.len() == 0
    &&& !m.deprecated
    &&& m.custom@ == Map::<String, String>::empty()
}

impl Default for RouteMetadata {
    fn default() -> (m: Self)
        ensures
            is_empty_metadata(m),
    {
        RouteMetadata { name: None, tags: Vec::new(), deprecated: false, custom: HashMap::new() }
    }
}

/// A single route entry. Concrete struct, not a trait object graph.
pub struct Route<H, M> {
    pub method: Method,
    /// The path pattern, e.g. `/users/:id` or `/files/*path`.
    pub pattern: String,
    pub handler: H,
    pub metadata: RouteMetadata,
    /// Middleware scoped to this route (from route groups).
    /// Runs after global middleware, before the handler.
    pub middleware: Vec<M>,
}

/// A route as freshly registered: given method, pattern and handler, empty
/// metadata and no route-level middleware.
pub open spec fn fresh_route<H, M>(r: Route<H, M>, method: Method, pattern: Seq<char>, handler: H) -> bool {
    &&& r.method == method
    &&& r.pattern@ == pattern
    &&& r.handler == handler
    &&& is_empty_metadata(r.metadata)
    &&& r.middleware@.len() == 0
}

/// The route table. A `Vec` you can iterate, filter, print, serialize.
pub struct RouteTable<H, M> {
    routes: Vec<Route<H, M>>,
}

impl<H, M> RouteTable<H, M> {
    /// The routes in registration order.
    pub closed spec fn routes(self) -> Seq<Route<H, M>> {
        self.routes@
    }

    /// An empty table.
    pub fn new() -> (t: Self)
        ensures
            t.routes() == Seq::<Route<H, M>>::empty(),
    {
        RouteTable { routes: Vec::new() }
    }

    /// Append a route.
    pub fn push(&mut self, route: Route<H, M>)
        ensures
            final(self).routes() == old(self).routes().push(route),
    {
        self.routes.push(route);
    }

    /// The routes, in registration order.
    pub fn as_slice(&self) -> (s: &[Route<H, M>])
        ensures
            s@ == self.routes(),
    {
        self.routes.as_slice()
    }

    /// Number of routes.
    pub fn len(&self) -> (n: usize)
        ensures
            n == self.routes().len(),
    {
        self.routes.len()
    }

    /// Whether the table has no routes.
    pub fn is_empty(&self) -> (b: bool)
        ensures
            b == (self.routes().len() == 0),
    {
        self.routes.len() == 0
    }

    /// Get a route by index.
    pub fn get(&self, idx: usize) -> (r: Option<&Route<H, M>>)
        ensures
            match r {
                Some(route) => idx < self.routes().len() && *route == self.routes()[idx as int],
                None => idx >= self.routes().len(),
            },
    {
        if idx < self.routes.len() {
            Some(&self.routes[idx])
        } else {
            None
        }
    }

    /// Index of the most recently added route with exactly this pattern.
    fn last_with_pattern(&self, pattern: &str) -> (r: Option<usize>)
        ensures
            match r {
                Some(i) => i < self.routes().len() && self.routes()[i as int].pattern@ == pattern@
                    && forall|j: int|
                    i < j < self.routes().len() ==> #[trigger] self.routes()[j].pattern@
                        != pattern@,
                None => forall|j: int|
                    0 <= j < self.routes().len() ==> #[trigger] self.routes()[j].pattern@
                        != pattern@,
            },
    {
        let mut i = self.routes.len();
        while i > 0
            invariant
                i <= self.routes@.len(),
                forall|j: int| i <= j < self.routes@.len() ==> #[trigger] self.routes@[j].pattern@
                    != pattern@,
            decreases i,
        {
            i = i - 1;
            if str_equal(self.routes[i].pattern.as_str(), pattern) {
                return Some(i);
            }
        }
        None
    }
}

impl<H, M> Default for RouteTable<H, M> {
    fn default() -> (t: Self)
        ensures
            t.routes() == Seq::<Route<H, M>>::empty(),
    {
        Self::new()
    }
}

/// A route table after the metadata of route `i` was handed to `f`: every other
/// route is unchanged, and route `i` kept its method, pattern, handler and
/// middleware while its metadata is a possible result of `f`.
pub open spec fn metadata_edited<H, M, F: FnOnce(RouteMetadata) -> RouteMetadata>(
    before: Seq<Route<H, M>>,
    after: Seq<Route<H, M>>,
    i: int,
    f: F,
) -> bool {
    &&& after.len() == before.len()
    &&& forall|j: int| 0 <= j < before.len() && j != i ==> #[trigger] after[j] == before[j]
    &&& after[i].method == before[i].method
    &&& after[i].pattern == before[i].pattern
    &&& after[i].handler == before[i].handler
    &&& after[i].middleware == before[i].middleware
    &&& f.ensures((before[i].metadata,), after[i].metadata)
}

/// Builder for the application. Owns the route table and the global middleware.
pub struct App<H, M> {
    route_table: RouteTable<H, M>,
    middleware: Vec<M>,
}

impl<H, M> App<H, M> {
    /// The routes registered so far.
    pub closed spec fn routes(self) -> Seq<Route<H, M>> {
        self.route_table.routes()
    }

    /// The global middleware, in the order it runs.
    pub closed spec fn global_middleware(self) -> Seq<M> {
        self.middleware@
    }

    /// An application with no routes and no middleware.
    pub fn new() -> (a: Self)
        ensures
            a.routes() == Seq::<Route<H, M>>::empty(),
            a.global_middleware() == Seq::<M>::empty(),
    {
        App { route_table: RouteTable::new(), middleware: Vec::new() }
    }

    /// Register a route (no route-level middleware).
    fn route(self, method: Method, pattern: &str, handler: H) -> (a: Self)
        ensures
            a.routes().len() == self.routes().len() + 1,
            a.routes().drop_last() == self.routes(),
            fresh_route(a.routes().last(), method, pattern@, handler),
            a.global_middleware() == self.global_middleware(),
    {
        let mut app = self;
        app.route_table.push(
            Route {
                method,
                pattern: to_string(pattern),
                handler,
                metadata: RouteMetadata::default(),
                middleware: Vec::new(),
            },
        );
        proof {
            assert(app.routes().drop_last() =~= self.routes());
        }
        app
    }

    /// Register a GET route.
    pub fn get(self, pattern: &str, handler: H) -> (a: Self)
        ensures
            a.routes().drop_last() == self.routes(),
            a.routes().len() == self.routes().len() + 1,
            fresh_route(a.routes().last(), Method::Get, pattern@, handler),
            a.global_middleware() == self.global_middleware(),
    {
        self.route(Method::Get, pattern, handler)
    }

    /// Register a POST route.
    pub fn post(self, pattern: &str, handler: H) -> (a: Self)
        ensures
            a.routes().drop_last() == self.routes(),
            a.routes().len() == self.routes().len() + 1,
            fresh_route(a.routes().last(), Method::Post, pattern@, handler),
            a.global_middleware() == self.global_middleware(),
    {
        self.route(Method::Post, pattern, handler)
    }

    /// Register a PUT route.
    pub fn put(self, pattern: &str, handler: H) -> (a: Self)
        ensures
            a.routes().drop_last() == self.routes(),
            a.routes().len() == self.routes().len() + 1,
            fresh_route(a.routes().last(), Method::Put, pattern@, handler),
            a.global_middleware() == self.global_middleware(),
    {
        self.route(Method::Put, pattern, handler)
    }

    /// Register a DELETE route.
    pub fn delete(self, pattern: &str, handler: H) -> (a: Self)
        ensures
            a.routes().drop_last() == self.routes(),
            a.routes().len() == self.routes().len() + 1,
            fresh_route(a.routes().last(), Method::Delete, pattern@, handler),
            a.global_middleware() == self.global_middleware(),
    {
        self.route(Method::Delete, pattern, handler)
    }

    /// Register a PATCH route.
    pub fn patch(self, pattern: &str, handler: H) -> (a: Self)
        ensures
            a.routes().drop_last() == self.routes(),
            a.routes().len() == self.routes().len() + 1,
            fresh_route(a.routes().last(), Method::Patch, pattern@, handler),
            a.global_middleware() == self.global_middleware(),
    {
        self.route(Method::Patch, pattern, handler)
    }

    /// Attach metadata to the most recently added route matching this pattern:
    /// `f` receives that route's metadata and returns its new metadata. With no
    /// route of that pattern, nothing changes and `f` is not called.
    pub fn with_metadata<F: FnOnce(RouteMetadata) -> RouteMetadata>(self, pattern: &str, f: F) -> (a:
        Self)
        requires
            forall|m: RouteMetadata| f.requires((m,)),
        ensures
            a.global_middleware() == self.global_middleware(),
            match last_index_with_pattern(self.routes(), pattern@) {
                Some(i) => metadata_edited(self.routes(), a.routes(), i, f),
                None => a.routes() == self.routes(),
            },
    {
        let mut app = self;
        match app.route_table.last_with_pattern(pattern) {
            Some(i) => {
                proof {
                    lemma_last_index_with_pattern(self.routes(), pattern@, i as int);
                }
                let mut routes: Vec<Route<H, M>> = Vec::new();
                std::mem::swap(&mut routes, &mut app.route_table.routes);
                let ghost before = routes@;
                let mut tail = routes.split_off(i);
                let mut route = tail.remove(0);
                let old_metadata = route.metadata;
                route.metadata = f(old_metadata);
                routes.push(route);
                routes.append(&mut tail);
                proof {
                    assert(metadata_edited(before, routes@, i as int, f)) by {
                        assert forall|j: int| 0 <= j < before.len() && j != i implies #[trigger] routes@[j]
                            == before[j] by {
                            if j > i {
                                assert(routes@[j] == before.subrange(i as int, before.len() as int).remove(0)[j - i - 1]);
                            }
                        }
                    }
                }
                app.route_table.routes = routes;
                app
            },
            None => {
                proof {
                    lemma_no_index_with_pattern(self.routes(), pattern@);
                }
                app
            },
        }
    }

    /// Add a global middleware. Runs on every request before route-level middleware.
    pub fn middleware(self, m: M) -> (a: Self)
        ensures
            a.routes() == self.routes(),
            a.global_middleware() == self.global_middleware().push(m),
    {
        let mut app = self;
        app.middleware.push(m);
        app
    }

    /// Access the route table for introspection.
    pub fn route_table(&self) -> (t: &RouteTable<H, M>)
        ensures
            t.routes() == self.routes(),
    {
        &self.route_table
    }

    /// Consume the builder, returning the parts needed by the server.
    pub fn into_parts(self) -> (r: (RouteTable<H, M>, Vec<M>))
        ensures
            r.0.routes() == self.routes(),
            r.1@ == self.global_middleware(),
    {
        (self.route_table, self.middleware)
    }
}

impl<H, M: Clone> App<H, M> {
    /// Create a route group with a shared prefix and optional scoped middleware.
    ///
    /// Routes defined inside the group get the prefix prepended and any
    /// middleware added to the group attached. Group middleware runs after
    /// global middleware but before the handler.
    pub fn group<F: FnOnce(Group<H, M>) -> Group<H, M>>(self, prefix: &str, f: F) -> (a: Self)
        requires
            forall|g: Group<H, M>| f.requires((g,)),
        ensures
            a.global_middleware() == self.global_middleware(),
            a.routes().len() >= self.routes().len(),
            a.routes().subrange(0, self.routes().len() as int) == self.routes(),
            exists|g0: Group<H, M>, g: Group<H, M>|
                {
                    &&& is_empty_group(g0, trim_trailing_slashes(prefix@))
                    &&& f.ensures((g0,), g)
                    &&& routes_of_group(
                        g,
                        a.routes().subrange(self.routes().len() as int, a.routes().len() as int),
                    )
                },
    {
        let g0 = Group::new(prefix);
        let ghost g0_spec = g0;
        let g = f(g0);
        let ghost g_out = g;
        let added = g.into_routes();
        let mut app = self;
        let mut rest = added;
        let ghost before = app.route_table.routes@;
        let mut routes: Vec<Route<H, M>> = Vec::new();
        std::mem::swap(&mut routes, &mut app.route_table.routes);
        let ghost added_seq = rest@;
        routes.append(&mut rest);
        proof {
            assert(routes@.subrange(0, before.len() as int) =~= before);
            assert(routes@.subrange(before.len() as int, routes@.len() as int) =~= added_seq);
        }
        app.route_table.routes = routes;
        proof {
            assert(is_empty_group(g0_spec, trim_trailing_slashes(prefix@)));
            assert(routes_of_group(
                g_out,
                app.routes().subrange(self.routes().len() as int, app.routes().len() as int),
            ));
        }
        app
    }
}

impl<H, M> Default for App<H, M> {
    fn default() -> (a: Self)
        ensures
            a.routes() == Seq::<Route<H, M>>::empty(),
            a.global_middleware() == Seq::<M>::empty(),
    {
        Self::new()
    }
}

/// Index of the last route with this pattern.
pub open spec fn last_index_with_pattern<H, M>(routes: Seq<Route<H, M>>, pattern: Seq<char>) -> Option<
    int,
>
    decreases routes.len(),
{
    if routes.len() == 0 {
        None
    } else if routes.last().pattern@ == pattern {
        Some(routes.len() - 1)
    } else {
        last_index_with_pattern(routes.drop_last(), pattern)
    }
}

proof fn lemma_last_index_with_pattern<H, M>(routes: Seq<Route<H, M>>, pattern: Seq<char>, i: int)
    requires
        0 <= i < routes.len(),
        routes[i].pattern@ == pattern,
        forall|j: int| i < j < routes.len() ==> #[trigger] routes[j].pattern@ != pattern,
    ensures
        last_index_with_pattern(routes, pattern) == Some(i),
    decreases routes.len(),
{
    if i < routes.len() - 1 {
        assert(routes.last().pattern@ != pattern);
        let p = routes.drop_last();
        assert forall|j: int| i < j < p.len() implies #[trigger] p[j].pattern@ != pattern by {
            assert(p[j] == routes[j]);
        }
        lemma_last_index_with_pattern(p, pattern, i);
    }
}

proof fn lemma_no_index_with_pattern<H, M>(routes: Seq<Route<H, M>>, pattern: Seq<char>)
    requires
        forall|j: int| 0 <= j < routes.len() ==> #[trigger] routes[j].pattern@ != pattern,
    ensures
        last_index_with_pattern(routes, pattern) is None,
    decreases routes.len(),
{
    if routes.len() > 0 {
        let p = routes.drop_last();
        assert(routes[routes.len() - 1].pattern@ != pattern);
        assert forall|j: int| 0 <= j < p.len() implies #[trigger] p[j].pattern@ != pattern by {
            assert(p[j] == routes[j]);
        }
        lemma_no_index_with_pattern(p, pattern);
    }
}

/// `str::trim_end_matches('/')`: the text without its trailing slashes.
pub open spec fn trim_trailing_slashes(s: Seq<char>) -> Seq<char>
    decreases s.len(),
{
    if s.len() > 0 && s.last() == '/' {
        trim_trailing_slashes(s.drop_last())
    } else {
        s
    }
}

/// Exec form of [`trim_trailing_slashes`].
fn trim_end_slashes(s: &str) -> (r: String)
    ensures
        r@ == trim_trailing_slashes(s@),
{
    let cs = crate::text::chars_of(s);
    let mut n = cs.len();
    assert(cs@.subrange(0, n as int) =~= cs@);
    while n > 0 && cs[n - 1] == '/'
        invariant
            n <= cs@.len(),
            cs@ == s@,
            trim_trailing_slashes(s@) == trim_trailing_slashes(cs@.subrange(0, n as int)),
        decreases n,
    {
        proof {
            let t = cs@.subrange(0, n as int);
            assert(t.drop_last() =~= cs@.subrange(0, n - 1));
        }
        n = n - 1;
    }
    let mut out: Vec<char> = Vec::new();
    let mut i: usize = 0;
    while i < n
        invariant
            n <= cs@.len(),
            i <= n,
            out@ == cs@.subrange(0, i as int),
        decreases n - i,
    {
        out.push(cs[i]);
        i = i + 1;
        assert(out@ =~= cs@.subrange(0, i as int));
    }
    proof {
        let t = cs@.subrange(0, n as int);
        assert(!(t.len() > 0 && t.last() == '/'));
    }
    crate::text::string_from_chars(&out)
}

/// A group of routes sharing a common path prefix and scoped middleware.
///
/// Created via `App::group()` or `Group::group()` for nesting.
pub struct Group<H, M> {
    prefix: String,
    middleware: Vec<M>,
    routes: Vec<Route<H, M>>,
}

/// `g` has this prefix text, no middleware and no routes.
pub open spec fn is_empty_group<H, M>(g: Group<H, M>, prefix: Seq<char>) -> bool {
    &&& g.prefix_of() == prefix
    &&& g.middleware_of() == Seq::<M>::empty()
    &&& g.routes() == Seq::<Route<H, M>>::empty()
}

/// The routes a group hands over: its own routes, each with the group's
/// middleware (copies made by `M::clone`) put before the route's own.
pub open spec fn routes_of_group<H, M: Clone>(g: Group<H, M>, out: Seq<Route<H, M>>) -> bool {
    &&& out.len() == g.routes().len()
    &&& forall|i: int|
        0 <= i < out.len() ==> #[trigger] with_group_middleware(g.middleware_of(), g.routes()[i], out[i])
}

/// `out` is `r` with the middleware `mw` (copies made by `M::clone`) put before its own.
pub open spec fn with_group_middleware<H, M: Clone>(mw: Seq<M>, r: Route<H, M>, out: Route<H, M>) -> bool {
    &&& out.method == r.method
    &&& out.pattern == r.pattern
    &&& out.handler == r.handler
    &&& out.metadata == r.metadata
    &&& out.middleware@.len() == mw.len() + r.middleware@.len()
    &&& forall|k: int| 0 <= k < mw.len() ==> cloned::<M>(mw[k], #[trigger] out.middleware@[k])
    &&& forall|k: int|
        0 <= k < r.middleware@.len() ==> #[trigger] out.middleware@[mw.len() + k] == r.middleware@[k]
}

impl<H, M> Group<H, M> {
    /// The prefix prepended to the group's patterns.
    pub closed spec fn prefix_of(self) -> Seq<char> {
        self.prefix@
    }

    /// The group's middleware, in the order it runs.
    pub closed spec fn middleware_of(self) -> Seq<M> {
        self.middleware@
    }

    /// The routes registered in the group (without the group's middleware).
    pub closed spec fn routes(self) -> Seq<Route<H, M>> {
        self.routes@
    }

    /// A group whose prefix is `prefix` without trailing slashes.
    fn new(prefix: &str) -> (g: Self)
        ensures
            g.prefix_of() == trim_trailing_slashes(prefix@),
            g.middleware_of() == Seq::<M>::empty(),
            g.routes() == Seq::<Route<H, M>>::empty(),
    {
        Group { prefix: trim_end_slashes(prefix), middleware: Vec::new(), routes: Vec::new() }
    }

    /// Add middleware scoped to this group. Runs after global middleware,
    /// before the handler, only for routes in this group.
    pub fn middleware(self, m: M) -> (g: Self)
        ensures
            g.prefix_of() == self.prefix_of(),
            g.middleware_of() == self.middleware_of().push(m),
            g.routes() == self.routes(),
    {
        let mut g = self;
        g.middleware.push(m);
        g
    }

    /// Register a route within this group. The group prefix is prepended.
    fn route(self, method: Method, pattern: &str, handler: H) -> (g: Self)
        ensures
            g.prefix_of() == self.prefix_of(),
            g.middleware_of() == self.middleware_of(),
            g.routes().drop_last() == self.routes(),
            g.routes().len() == self.routes().len() + 1,
            fresh_route(g.routes().last(), method, self.prefix_of() + pattern@, handler),
    {
        let mut g = self;
        let mut full_pattern = g.prefix.clone();
        push_str(&mut full_pattern, pattern);
        g.routes.push(
            Route {
                method,
                pattern: full_pattern,
                handler,
                metadata: RouteMetadata::default(),
                middleware: Vec::new(),
            },
        );
        proof {
            assert(g.routes@.drop_last() =~= self.routes@);
        }
        g
    }

    /// Register a GET route within this group.
    pub fn get(self, pattern: &str, handler: H) -> (g: Self)
        ensures
            g.prefix_of() == self.prefix_of(),
            g.middleware_of() == self.middleware_of(),
            g.routes().drop_last() == self.routes(),
            g.routes().len() == self.routes().len() + 1,
            fresh_route(g.routes().last(), Method::Get, self.prefix_of() + pattern@, handler),
    {
        self.route(Method::Get, pattern, handler)
    }

    /// Register a POST route within this group.
    pub fn post(self, pattern: &str, handler: H) -> (g: Self)
        ensures
            g.prefix_of() == self.prefix_of(),
            g.middleware_of() == self.middleware_of(),
            g.routes().drop_last() == self.routes(),
            g.routes().len() == self.routes().len() + 1,
            fresh_route(g.routes().last(), Method::Post, self.prefix_of() + pattern@, handler),
    {
        self.route(Method::Post, pattern, handler)
    }

    /// Register a PUT route within this group.
    pub fn put(self, pattern: &str, handler: H) -> (g: Self)
        ensures
            g.prefix_of() == self.prefix_of(),
            g.middleware_of() == self.middleware_of(),
            g.routes().drop_last() == self.routes(),
            g.routes().len() == self.routes().len() + 1,
            fresh_route(g.routes().last(), Method::Put, self.prefix_of() + pattern@, handler),
    {
        self.route(Method::Put, pattern, handler)
    }

    /// Register a DELETE route within this group.
    pub fn delete(self, pattern: &str, handler: H) -> (g: Self)
        ensures
            g.prefix_of() == self.prefix_of(),
            g.middleware_of() == self.middleware_of(),
            g.routes().drop_last() == self.routes(),
            g.routes().len() == self.routes().len() + 1,
            fresh_route(g.routes().last(), Method::Delete, self.prefix_of() + pattern@, handler),
    {
        self.route(Method::Delete, pattern, handler)
    }

    /// Register a PATCH route within this group.
    pub fn patch(self, pattern: &str, handler: H) -> (g: Self)
        ensures
            g.prefix_of() == self.prefix_of(),
            g.middleware_of() == self.middleware_of(),
            g.routes().drop_last() == self.routes(),
            g.routes().len() == self.routes().len() + 1,
            fresh_route(g.routes().last(), Method::Patch, self.prefix_of() + pattern@, handler),
    {
        self.route(Method::Patch, pattern, handler)
    }
}

impl<H, M: Clone> Group<H, M> {
    /// Prepend copies of `mw` to the middleware of every route.
    fn prepend_middleware(mw: &Vec<M>, routes: Vec<Route<H, M>>) -> (out: Vec<Route<H, M>>)
        ensures
            out@.len() == routes@.len(),
            forall|i: int|
                0 <= i < out@.len() ==> #[trigger] with_group_middleware(mw@, routes@[i], out@[i]),
    {
        let mut out: Vec<Route<H, M>> = Vec::new();
        let mut rest = routes;
        let ghost given = routes@;
        let mut rev: Vec<Route<H, M>> = Vec::new();
        // Take routes off the back, then restore the order.
        while rest.len() > 0
            invariant
                rest@.len() + rev@.len() == given.len(),
                rest@ == given.subrange(0, rest@.len() as int),
                forall|i: int|
                    0 <= i < rev@.len() ==> #[trigger] with_group_middleware(
                        mw@,
                        given[given.len() - 1 - i],
                        rev@[i],
                    ),
            decreases rest@.len(),
        {
            let route = rest.pop().unwrap();
            let ghost idx = rest@.len() as int;
            assert(route == given[idx]);
            let mut combined: Vec<M> = Vec::new();
            let mut k: usize = 0;
            while k < mw.len()
                invariant
                    k <= mw@.len(),
                    combined@.len() == k,
                    forall|t: int| 0 <= t < k ==> cloned::<M>(mw@[t], #[trigger] combined@[t]),
                decreases mw@.len() - k,
            {
                combined.push(mw[k].clone());
                k = k + 1;
            }
            let Route { method, pattern, handler, metadata, middleware } = route;
            let mut own = middleware;
            let ghost own_seq = own@;
            combined.append(&mut own);
            let r = Route { method, pattern, handler, metadata, middleware: combined };
            rev.push(r);
            proof {
                assert(rest@ =~= given.subrange(0, rest@.len() as int));
                assert(with_group_middleware(mw@, given[idx], rev@.last()));
            }
        }
        while rev.len() > 0
            invariant
                rev@.len() + out@.len() == given.len(),
                forall|i: int|
                    0 <= i < rev@.len() ==> #[trigger] with_group_middleware(
                        mw@,
                        given[given.len() - 1 - i],
                        rev@[i],
                    ),
                forall|i: int|
                    0 <= i < out@.len() ==> #[trigger] with_group_middleware(
                        mw@,
                        given[i],
                        out@[i],
                    ),
            decreases rev@.len(),
        {
            let ghost k = out@.len() as int;
            let ghost j = rev@.len() - 1;
            let r = rev.pop().unwrap();
            proof {
                assert(given.len() - 1 - j == k);
            }
            out.push(r);
        }
        out
    }

    /// Consume the group, attaching group middleware to each route.
    fn into_routes(self) -> (out: Vec<Route<H, M>>)
        ensures
            routes_of_group(self, out@),
    {
        let Group { prefix: _, middleware, routes } = self;
        Self::prepend_middleware(&middleware, routes)
    }

    /// Nest a sub-group. The sub-group's prefix is appended to this group's
    /// prefix, and middleware from both groups is combined (outer group first):
    /// the sub-group's routes carry the sub-group's middleware now, and this
    /// group's when this group hands its routes over.
    pub fn group<F: FnOnce(Group<H, M>) -> Group<H, M>>(self, prefix: &str, f: F) -> (g: Self)
        requires
            forall|s: Group<H, M>| f.requires((s,)),
        ensures
            g.prefix_of() == self.prefix_of(),
            g.middleware_of() == self.middleware_of(),
            exists|sub0: Group<H, M>, sub: Group<H, M>, nested: Seq<Route<H, M>>|
                {
                    &&& is_empty_group(
                        sub0,
                        trim_trailing_slashes(self.prefix_of() + trim_trailing_slashes(prefix@)),
                    )
                    &&& f.ensures((sub0,), sub)
                    &&& routes_of_group(sub, nested)
                    &&& g.routes() == self.routes() + nested
                },
    {
        let mut nested_prefix = self.prefix.clone();
        let trimmed = trim_end_slashes(prefix);
        push_str(&mut nested_prefix, trimmed.as_str());
        let sub0 = Group::new(nested_prefix.as_str());
        let ghost sub0_spec = sub0;
        let sub = f(sub0);
        let ghost sub_spec = sub;
        let mut nested = sub.into_routes();
        let ghost nested_seq = nested@;
        let mut g = self;
        g.routes.append(&mut nested);
        proof {
            assert(is_empty_group(
                sub0_spec,
                trim_trailing_slashes(self.prefix_of() + trim_trailing_slashes(prefix@)),
            ));
            assert(routes_of_group(sub_spec, nested_seq));
        }
        g
    }
}

} // verus!
