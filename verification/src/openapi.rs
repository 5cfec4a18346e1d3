//! OpenAPI 3.0.3 description of a route table.
//!
//! The library decides what the document says: which operations exist, keyed
//! by OpenAPI path and lowercase method (a later route replaces an earlier one
//! with the same key), and what each operation carries. Writing the document
//! out as JSON is left to the caller's serializer.
use vstd::prelude::*;

use crate::keyed::{keyed_map, keys_distinct, lemma_keyed_push, lemma_keyed_update};
use crate::route::{method_text, Route, RouteTable};
use crate::security_headers::opt_text;
use crate::text::{
    ascii_lower_seq, chars_of, push_str, str_equal, string_from_chars, string_push, to_ascii_lowercase,
    to_string,
};

verus! {

/// Configuration for the generated OpenAPI document.
pub struct OpenApiInfo {
    pub title: String,
    pub version: String,
    pub description: Option<String>,
}

impl OpenApiInfo {
    /// Title and version, no description.
    pub fn new(title: &str, version: &str) -> (i: Self)
        ensures
            i.title@ == title@,
            i.version@ == version@,
            i.description is None,
    {
        OpenApiInfo { title: to_string(title), version: to_string(version), description: None }
    }

    /// Add a description.
    pub fn description(self, description: &str) -> (i: Self)
        ensures
            i.title == self.title,
            i.version == self.version,
            opt_text(i.description) == Some(description@),
    {
        OpenApiInfo { description: Some(to_string(description)), ..self }
    }
}

/// `str::split(sep)`: the pieces between separators (one piece more than separators).
pub open spec fn split_on(s: Seq<char>, sep: char) -> Seq<Seq<char>>
    decreases s.len(),
{
    if s.len() == 0 {
        seq![Seq::<char>::empty()]
    } else {
        let init = split_on(s.drop_last(), sep);
        if s.last() == sep {
            init.push(Seq::<char>::empty())
        } else {
            init.update(init.len() - 1, init.last().push(s.last()))
        }
    }
}

/// A split always has at least one piece.
pub proof fn lemma_split_nonempty(s: Seq<char>, sep: char)
    ensures
        split_on(s, sep).len() >= 1,
    decreases s.len(),
{
    if s.len() > 0 {
        lemma_split_nonempty(s.drop_last(), sep);
    }
}

/// `join(sep)` of pieces.
pub open spec fn join_with(pieces: Seq<Seq<char>>, sep: char) -> Seq<char>
    decreases pieces.len(),
{
    if pieces.len() == 0 {
        Seq::<char>::empty()
    } else if pieces.len() == 1 {
        pieces[0]
    } else {
        join_with(pieces.drop_last(), sep).push(sep) + pieces.last()
    }
}

/// A path segment that names a parameter: `:name` or `*name`.
pub open spec fn is_param_segment(seg: Seq<char>) -> bool {
    seg.len() > 0 && (seg[0] == ':' || seg[0] == '*')
}

/// One segment in OpenAPI form: `:id` and `*path` become `{id}` and `{path}`.
pub open spec fn openapi_segment(seg: Seq<char>) -> Seq<char> {
    if is_param_segment(seg) {
        seq!['{'] + seg.drop_first() + seq!['}']
    } else {
        seg
    }
}

/// A harrow path pattern in OpenAPI form.
pub open spec fn openapi_path(pattern: Seq<char>) -> Seq<char> {
    join_with(split_on(pattern, '/').map_values(|seg: Seq<char>| openapi_segment(seg)), '/')
}

/// The parameter names of a list of segments, in order.
pub open spec fn param_names(segs: Seq<Seq<char>>) -> Seq<Seq<char>>
    decreases segs.len(),
{
    if segs.len() == 0 {
        Seq::<Seq<char>>::empty()
    } else if is_param_segment(segs.last()) {
        param_names(segs.drop_last()).push(segs.last().drop_first())
    } else {
        param_names(segs.drop_last())
    }
}

/// The parameter names of a harrow path pattern, in order.
pub open spec fn path_params(pattern: Seq<char>) -> Seq<Seq<char>> {
    param_names(split_on(pattern, '/'))
}

/// The texts of a list of strings.
pub open spec fn texts(v: Seq<String>) -> Seq<Seq<char>> {
    v.map_values(|s: String| s@)
}

/// Split a pattern on `/`.
fn split_path(pattern: &str) -> (r: Vec<String>)
    ensures
        texts(r@) == split_on(pattern@, '/'),
{
    let cs = chars_of(pattern);
    let mut pieces: Vec<String> = Vec::new();
    let mut current: Vec<char> = Vec::new();
    let mut i: usize = 0;
    assert(cs@.subrange(0, 0) =~= Seq::<char>::empty());
    assert(texts(pieces@).push(current@) =~= seq![Seq::<char>::empty()]);
    while i < cs.len()
        invariant
            cs@ == pattern@,
            i <= cs@.len(),
            texts(pieces@).push(current@) == split_on(cs@.subrange(0, i as int), '/'),
        decreases cs@.len() - i,
    {
        let c = cs[i];
        let ghost prefix = cs@.subrange(0, i as int);
        proof {
            let next = cs@.subrange(0, i + 1);
            assert(next.drop_last() =~= prefix);
            assert(next.last() == c);
            lemma_split_nonempty(prefix, '/');
        }
        if c == '/' {
            let piece = string_from_chars(&current);
            pieces.push(piece);
            current = Vec::new();
            proof {
                assert(texts(pieces@) =~= texts(pieces@.drop_last()).push(piece@));
            }
        } else {
            let ghost before = current@;
            current.push(c);
            proof {
                assert(texts(pieces@).push(current@) =~= texts(pieces@).push(before).update(
                    texts(pieces@).len() as int,
                    before.push(c),
                ));
            }
        }
        i = i + 1;
    }
    assert(cs@.subrange(0, cs@.len() as int) =~= cs@);
    let last = string_from_chars(&current);
    pieces.push(last);
    assert(texts(pieces@) =~= texts(pieces@.drop_last()).push(last@));
    pieces
}

/// One segment in OpenAPI form.
fn to_openapi_segment(seg: &str) -> (r: String)
    ensures
        r@ == openapi_segment(seg@),
{
    let cs = chars_of(seg);
    if cs.len() > 0 && (cs[0] == ':' || cs[0] == '*') {
        let mut out = String::new();
        string_push(&mut out, '{');
        let mut i: usize = 1;
        while i < cs.len()
            invariant
                cs@ == seg@,
                1 <= i <= cs@.len(),
                out@ == seq!['{'] + cs@.subrange(1, i as int),
            decreases cs@.len() - i,
        {
            string_push(&mut out, cs[i]);
            i = i + 1;
            assert(out@ =~= seq!['{'] + cs@.subrange(1, i as int));
        }
        string_push(&mut out, '}');
        assert(cs@.subrange(1, cs@.len() as int) =~= cs@.drop_first());
        assert(out@ =~= seq!['{'] + seg@.drop_first() + seq!['}']);
        out
    } else {
        to_string(seg)
    }
}

/// Convert a harrow path pattern to OpenAPI path format.
/// `:id` -> `{id}`, `*path` -> `{path}`.
pub fn to_openapi_path(pattern: &str) -> (r: String)
    ensures
        r@ == openapi_path(pattern@),
{
    let pieces = split_path(pattern);
    let ghost segs = split_on(pattern@, '/');
    let ghost converted = segs.map_values(|seg: Seq<char>| openapi_segment(seg));
    proof {
        lemma_split_nonempty(pattern@, '/');
    }
    let mut out = to_openapi_segment(pieces[0].as_str());
    let mut i: usize = 1;
    proof {
        assert(pieces@[0]@ == segs[0]);
        assert(converted.subrange(0, 1) =~= seq![converted[0]]);
    }
    while i < pieces.len()
        invariant
            texts(pieces@) == segs,
            converted == segs.map_values(|seg: Seq<char>| openapi_segment(seg)),
            1 <= i <= pieces@.len(),
            out@ == join_with(converted.subrange(0, i as int), '/'),
        decreases pieces@.len() - i,
    {
        string_push(&mut out, '/');
        let piece = to_openapi_segment(pieces[i].as_str());
        push_str(&mut out, piece.as_str());
        proof {
            assert(pieces@[i as int]@ == segs[i as int]);
            let next = converted.subrange(0, i + 1);
            assert(next.drop_last() =~= converted.subrange(0, i as int));
            assert(next.last() == converted[i as int]);
        }
        i = i + 1;
    }
    assert(converted.subrange(0, pieces@.len() as int) =~= converted);
    out
}

/// Extract path parameter names from a harrow pattern, in order.
pub fn extract_path_params(pattern: &str) -> (r: Vec<String>)
    ensures
        texts(r@) == path_params(pattern@),
{
    let pieces = split_path(pattern);
    let ghost segs = split_on(pattern@, '/');
    let mut out: Vec<String> = Vec::new();
    let mut i: usize = 0;
    assert(segs.subrange(0, 0) =~= Seq::<Seq<char>>::empty());
    while i < pieces.len()
        invariant
            texts(pieces@) == segs,
            i <= pieces@.len(),
            texts(out@) == param_names(segs.subrange(0, i as int)),
        decreases pieces@.len() - i,
    {
        let cs = chars_of(pieces[i].as_str());
        let ghost seg = segs[i as int];
        proof {
            assert(pieces@[i as int]@ == seg);
            let next = segs.subrange(0, i + 1);
            assert(next.drop_last() =~= segs.subrange(0, i as int));
            assert(next.last() == seg);
        }
        if cs.len() > 0 && (cs[0] == ':' || cs[0] == '*') {
            let mut name: Vec<char> = Vec::new();
            let mut k: usize = 1;
            while k < cs.len()
                invariant
                    1 <= k <= cs@.len(),
                    name@ == cs@.subrange(1, k as int),
                decreases cs@.len() - k,
            {
                name.push(cs[k]);
                k = k + 1;
                assert(name@ =~= cs@.subrange(1, k as int));
            }
            let name_text = string_from_chars(&name);
            let ghost before = out@;
            out.push(name_text);
            proof {
                assert(cs@.subrange(1, cs@.len() as int) =~= seg.drop_first());
                assert(texts(out@) =~= texts(before).push(seg.drop_first()));
            }
        }
        i = i + 1;
    }
    assert(segs.subrange(0, pieces@.len() as int) =~= segs);
    out
}

/// Joining the pieces of a split gives back the text.
pub proof fn lemma_join_split(s: Seq<char>, sep: char)
    ensures
        join_with(split_on(s, sep), sep) == s,
    decreases s.len(),
{
    if s.len() > 0 {
        let init = s.drop_last();
        let pieces = split_on(init, sep);
        lemma_split_nonempty(init, sep);
        lemma_join_split(init, sep);
        if s.last() == sep {
            let next = pieces.push(Seq::<char>::empty());
            assert(next.drop_last() =~= pieces);
            assert(join_with(next, sep) =~= init.push(sep));
            assert(init.push(sep) =~= s);
        } else {
            let n = pieces.len() - 1;
            let next = pieces.update(n, pieces.last().push(s.last()));
            if pieces.len() == 1 {
                assert(join_with(next, sep) == next[0]);
                assert(join_with(pieces, sep) == pieces[0]);
                assert(next[0] =~= init.push(s.last()));
            } else {
                assert(next.drop_last() =~= pieces.drop_last());
                assert(join_with(next, sep) =~= join_with(pieces, sep).push(s.last()));
            }
            assert(init.push(s.last()) =~= s);
        }
    }
}

/// A pattern with no `:name` or `*name` segment is its own OpenAPI path and has
/// no path parameters.
pub proof fn lemma_plain_pattern_unchanged(pattern: Seq<char>)
    requires
        forall|i: int|
            0 <= i < split_on(pattern, '/').len() ==> !is_param_segment(
                #[trigger] split_on(pattern, '/')[i],
            ),
    ensures
        openapi_path(pattern) == pattern,
        path_params(pattern) == Seq::<Seq<char>>::empty(),
{
    let segs = split_on(pattern, '/');
    assert(segs.map_values(|seg: Seq<char>| openapi_segment(seg)) =~= segs);
    lemma_join_split(pattern, '/');
    lemma_no_params(segs);
}

proof fn lemma_no_params(segs: Seq<Seq<char>>)
    requires
        forall|i: int| 0 <= i < segs.len() ==> !is_param_segment(#[trigger] segs[i]),
    ensures
        param_names(segs) == Seq::<Seq<char>>::empty(),
    decreases segs.len(),
{
    if segs.len() > 0 {
        assert(!is_param_segment(segs[segs.len() - 1]));
        let p = segs.drop_last();
        assert forall|i: int| 0 <= i < p.len() implies !is_param_segment(#[trigger] p[i]) by {
            assert(p[i] == segs[i]);
        }
        lemma_no_params(p);
    }
}

/// Every route of the table is documented, under its OpenAPI path and lowercase method.
pub proof fn lemma_every_route_documented<H, M>(routes: Seq<Route<H, M>>, i: int)
    requires
        0 <= i < routes.len(),
    ensures
        operations_of(routes).contains_key(route_key(routes[i])),
    decreases routes.len(),
{
    if i < routes.len() - 1 {
        lemma_every_route_documented(routes.drop_last(), i);
        assert(routes.drop_last()[i] == routes[i]);
    }
}

/// The operation documented for a key is the one of the last route with that key.
pub proof fn lemma_last_route_wins<H, M>(routes: Seq<Route<H, M>>, i: int)
    requires
        0 <= i < routes.len(),
        forall|j: int| i < j < routes.len() ==> route_key(#[trigger] routes[j]) != route_key(routes[i]),
    ensures
        operations_of(routes)[route_key(routes[i])] == route_operation(routes[i]),
    decreases routes.len(),
{
    if i < routes.len() - 1 {
        let p = routes.drop_last();
        assert(route_key(routes[routes.len() - 1]) != route_key(routes[i]));
        assert forall|j: int| i < j < p.len() implies route_key(#[trigger] p[j]) != route_key(p[i]) by {
            assert(p[j] == routes[j]);
        }
        assert(p[i] == routes[i]);
        lemma_last_route_wins(p, i);
    }
}

/// Only routes are documented: every key of the document belongs to some route.
pub proof fn lemma_only_routes_documented<H, M>(routes: Seq<Route<H, M>>, key: (Seq<char>, Seq<char>))
    requires
        operations_of(routes).contains_key(key),
    ensures
        exists|i: int| 0 <= i < routes.len() && route_key(#[trigger] routes[i]) == key,
    decreases routes.len(),
{
    let n = routes.len() - 1;
    if route_key(routes[n]) != key {
        lemma_only_routes_documented(routes.drop_last(), key);
        let i = choose|i: int| 0 <= i < routes.drop_last().len() && route_key(
            #[trigger] routes.drop_last()[i],
        ) == key;
        assert(routes[i] == routes.drop_last()[i]);
    }
}

/// One operation of the document.
pub struct OpenApiOperation {
    /// The path in OpenAPI form.
    pub path: String,
    /// The method, lowercase.
    pub method: String,
    pub operation_id: Option<String>,
    pub tags: Vec<String>,
    pub deprecated: bool,
    /// The path parameters, in order (all of them `in: path`, required, strings).
    pub parameters: Vec<String>,
}

/// What an operation says: operation id, tags, deprecation and path parameters.
pub type OperationView = (Option<Seq<char>>, Seq<Seq<char>>, bool, Seq<Seq<char>>);

/// The key of an operation: OpenAPI path and lowercase method.
pub open spec fn operation_key() -> spec_fn(OpenApiOperation) -> (Seq<char>, Seq<char>) {
    |o: OpenApiOperation| (o.path@, o.method@)
}

/// What an operation says.
pub open spec fn operation_view() -> spec_fn(OpenApiOperation) -> OperationView {
    |o: OpenApiOperation| (opt_text(o.operation_id), texts(o.tags@), o.deprecated, texts(o.parameters@))
}

/// The key a route is documented under.
pub open spec fn route_key<H, M>(r: Route<H, M>) -> (Seq<char>, Seq<char>) {
    (openapi_path(r.pattern@), ascii_lower_seq(method_text(r.method)))
}

/// What the document says about a route.
pub open spec fn route_operation<H, M>(r: Route<H, M>) -> OperationView {
    (opt_text(r.metadata.name), texts(r.metadata.tags@), r.metadata.deprecated, path_params(r.pattern@))
}

/// The operations of a route list: each route documented under its key, a later
/// route replacing an earlier one with the same key.
pub open spec fn operations_of<H, M>(routes: Seq<Route<H, M>>) -> Map<
    (Seq<char>, Seq<char>),
    OperationView,
>
    decreases routes.len(),
{
    if routes.len() == 0 {
        Map::empty()
    } else {
        operations_of(routes.drop_last()).insert(route_key(routes.last()), route_operation(routes.last()))
    }
}

/// The OpenAPI document of a route table.
pub struct OpenApiDocument {
    pub title: String,
    pub version: String,
    pub description: Option<String>,
    /// The operations, with distinct (path, method) keys.
    pub operations: Vec<OpenApiOperation>,
}

/// The OpenAPI version the document declares.
pub const OPENAPI_VERSION: &'static str = "3.0.3";

/// Copy a list of strings.
fn copy_strings(v: &Vec<String>) -> (r: Vec<String>)
    ensures
        texts(r@) == texts(v@),
{
    let mut out: Vec<String> = Vec::new();
    let mut i: usize = 0;
    while i < v.len()
        invariant
            i <= v@.len(),
            texts(out@) == texts(v@.subrange(0, i as int)),
        decreases v@.len() - i,
    {
        let ghost before = out@;
        let item = v[i].clone();
        out.push(item);
        proof {
            assert(v@.subrange(0, i + 1) =~= v@.subrange(0, i as int).push(v@[i as int]));
            assert(texts(out@) =~= texts(before).push(item@));
            assert(texts(v@.subrange(0, i + 1)) =~= texts(v@.subrange(0, i as int)).push(
                v@[i as int]@,
            ));
        }
        i = i + 1;
    }
    assert(v@.subrange(0, v@.len() as int) =~= v@);
    out
}

fn copy_opt(o: &Option<String>) -> (r: Option<String>)
    ensures
        opt_text(r) == opt_text(*o),
{
    match o {
        Some(s) => Some(s.clone()),
        None => None,
    }
}

/// Index of the operation with this key.
fn find_operation(ops: &Vec<OpenApiOperation>, path: &str, method: &str) -> (r: Option<usize>)
    ensures
        match r {
            Some(i) => i < ops@.len() && operation_key()(ops@[i as int]) == (path@, method@),
            None => forall|i: int|
                0 <= i < ops@.len() ==> #[trigger] operation_key()(ops@[i]) != (path@, method@),
        },
{
    let mut i: usize = 0;
    while i < ops.len()
        invariant
            i <= ops@.len(),
            forall|j: int| 0 <= j < i ==> #[trigger] operation_key()(ops@[j]) != (path@, method@),
        decreases ops@.len() - i,
    {
        if str_equal(ops[i].path.as_str(), path) && str_equal(ops[i].method.as_str(), method) {
            return Some(i);
        }
        i = i + 1;
    }
    None
}

impl<H, M> RouteTable<H, M> {
    /// The OpenAPI 3.0.3 document of the route table: the info fields, and one
    /// operation per (OpenAPI path, lowercase method), from the last route with
    /// that key.
    pub fn to_openapi_document(&self, info: &OpenApiInfo) -> (d: OpenApiDocument)
        ensures
            d.title@ == info.title@,
            d.version@ == info.version@,
            opt_text(d.description) == opt_text(info.description),
            keys_distinct(d.operations@, operation_key()),
            keyed_map(d.operations@, operation_key(), operation_view()) == operations_of(
                self.routes(),
            ),
    {
        let routes = self.as_slice();
        let mut ops: Vec<OpenApiOperation> = Vec::new();
        let mut i: usize = 0;
        assert(keyed_map(ops@, operation_key(), operation_view()) =~= Map::empty());
        assert(self.routes().subrange(0, 0) =~= Seq::<Route<H, M>>::empty());
        while i < routes.len()
            invariant
                routes@ == self.routes(),
                i <= routes@.len(),
                keys_distinct(ops@, operation_key()),
                keyed_map(ops@, operation_key(), operation_view()) == operations_of(
                    self.routes().subrange(0, i as int),
                ),
            decreases routes@.len() - i,
        {
            let route = &routes[i];
            let path = to_openapi_path(route.pattern.as_str());
            let method = to_ascii_lowercase(route.method.as_str());
            let op = OpenApiOperation {
                path,
                method,
                operation_id: copy_opt(&route.metadata.name),
                tags: copy_strings(&route.metadata.tags),
                deprecated: route.metadata.deprecated,
                parameters: extract_path_params(route.pattern.as_str()),
            };
            proof {
                let next = self.routes().subrange(0, i + 1);
                assert(next.drop_last() =~= self.routes().subrange(0, i as int));
                assert(next.last() == *route);
                assert(operation_key()(op) == route_key(*route));
                assert(operation_view()(op) == route_operation(*route));
            }
            let ghost before = ops@;
            match find_operation(&ops, op.path.as_str(), op.method.as_str()) {
                Some(k) => {
                    ops.set(k, op);
                    proof {
                        lemma_keyed_update(before, operation_key(), operation_view(), k as int, op);
                    }
                },
                None => {
                    ops.push(op);
                    proof {
                        lemma_keyed_push(before, operation_key(), operation_view(), op);
                    }
                },
            }
            i = i + 1;
        }
        assert(self.routes().subrange(0, routes@.len() as int) =~= self.routes());
        OpenApiDocument {
            title: info.title.clone(),
            version: info.version.clone(),
            description: copy_opt(&info.description),
            operations: ops,
        }
    }
}

} // verus!
