//! The OpenAPI document as a JSON value: the `openapi` version, the `info`
//! object, and the `paths` object that groups the operations by path.
//!
//! An operation carries `operationId`, `tags`, `deprecated` and `parameters`
//! only where it has them, and always the one `200` response. The caller's
//! serializer writes the value out.
use vstd::prelude::*;

use crate::json_tree::{json_of, jsons_of, lemma_jsons_push, lemma_members_push, members_of, Json, JsonValue};
use crate::openapi::{OpenApiDocument, OpenApiOperation, OPENAPI_VERSION};
use crate::security_headers::opt_text;
use crate::text::{str_equal, to_string};

verus! {

/// A path parameter: a required string `in: path`.
pub open spec fn parameter_json(name: Seq<char>) -> Json {
    Json::Object(
        seq![
            ("name"@, Json::Text(name)),
            ("in"@, Json::Text("path"@)),
            ("required"@, Json::Bool(true)),
            ("schema"@, Json::Object(seq![("type"@, Json::Text("string"@))])),
        ],
    )
}

/// The one response every operation declares.
pub open spec fn ok_responses_json() -> Json {
    Json::Object(
        seq![("200"@, Json::Object(seq![("description"@, Json::Text("Successful response"@))]))],
    )
}

/// Texts as a JSON list.
pub open spec fn texts_json(v: Seq<String>) -> Seq<Json> {
    v.map_values(|t: String| Json::Text(t@))
}

/// Path parameters as a JSON list.
pub open spec fn parameters_json(v: Seq<String>) -> Seq<Json> {
    v.map_values(|p: String| parameter_json(p@))
}

/// `operationId`, if the operation has one.
pub open spec fn id_members(op: OpenApiOperation) -> Seq<(Seq<char>, Json)> {
    match op.operation_id {
        Some(id) => seq![("operationId"@, Json::Text(id@))],
        None => Seq::empty(),
    }
}

/// `tags`, if the operation has any.
pub open spec fn tags_members(op: OpenApiOperation) -> Seq<(Seq<char>, Json)> {
    if op.tags@.len() > 0 {
        seq![("tags"@, Json::List(texts_json(op.tags@)))]
    } else {
        Seq::empty()
    }
}

/// `deprecated: true`, if the operation is deprecated.
pub open spec fn deprecated_members(op: OpenApiOperation) -> Seq<(Seq<char>, Json)> {
    if op.deprecated {
        seq![("deprecated"@, Json::Bool(true))]
    } else {
        Seq::empty()
    }
}

/// `parameters`, if the operation's path has any.
pub open spec fn parameters_members(op: OpenApiOperation) -> Seq<(Seq<char>, Json)> {
    if op.parameters@.len() > 0 {
        seq![("parameters"@, Json::List(parameters_json(op.parameters@)))]
    } else {
        Seq::empty()
    }
}

/// The members of an operation: `operationId` if it has one, `tags` if it
/// has any, `deprecated: true` if it is, `parameters` if its path has any, and
/// `responses`.
pub open spec fn operation_members(op: OpenApiOperation) -> Seq<(Seq<char>, Json)> {
    id_members(op) + tags_members(op) + deprecated_members(op) + parameters_members(op) + seq![
        ("responses"@, ok_responses_json()),
    ]
}

/// The members of an object value (none for any other value).
pub open spec fn object_members(j: Json) -> Seq<(Seq<char>, Json)> {
    match j {
        Json::Object(m) => m,
        _ => Seq::empty(),
    }
}

/// The position, from `k` on, of the group for `path`.
pub open spec fn group_index(g: Seq<(Seq<char>, Json)>, path: Seq<char>, k: int) -> Option<int>
    decreases g.len() - k,
{
    if k < 0 || k >= g.len() {
        None
    } else if g[k].0 == path {
        Some(k)
    } else {
        group_index(g, path, k + 1)
    }
}

/// The `paths` members of a list of operations: one per path, in the order
/// the paths first appear, each an object of its operations by method, in
/// order.
pub open spec fn group_paths(ops: Seq<OpenApiOperation>) -> Seq<(Seq<char>, Json)>
    decreases ops.len(),
{
    if ops.len() == 0 {
        Seq::empty()
    } else {
        let g = group_paths(ops.drop_last());
        let op = ops.last();
        let entry = (op.method@, Json::Object(operation_members(op)));
        match group_index(g, op.path@, 0) {
            Some(i) => g.update(i, (op.path@, Json::Object(object_members(g[i].1).push(entry)))),
            None => g.push((op.path@, Json::Object(seq![entry]))),
        }
    }
}

/// The `info` object: title, version and, if any, description.
pub open spec fn info_json(doc: OpenApiDocument) -> Json {
    let base = seq![("title"@, Json::Text(doc.title@)), ("version"@, Json::Text(doc.version@))];
    Json::Object(
        match opt_text(doc.description) {
            Some(d) => base.push(("description"@, Json::Text(d))),
            None => base,
        },
    )
}

/// The whole document as JSON.
pub open spec fn openapi_json(doc: OpenApiDocument) -> Json {
    Json::Object(
        seq![
            ("openapi"@, Json::Text(OPENAPI_VERSION@)),
            ("info"@, info_json(doc)),
            ("paths"@, Json::Object(group_paths(doc.operations@))),
        ],
    )
}

/// Every path parameter of an operation is documented, in order, as a
/// required string parameter `in: path` named after its segment: the
/// operation's `parameters` member lists, for the `i`-th parameter, an object
/// whose members are `name` (the parameter), `in: "path"`, `required: true`
/// and `schema: {"type": "string"}`.
pub proof fn lemma_path_parameters_are_required_strings(op: OpenApiOperation, i: int)
    requires
        0 <= i < op.parameters@.len(),
    ensures
        exists|k: int|
            0 <= k < operation_members(op).len() && #[trigger] operation_members(op)[k].0 == "parameters"@
                && (operation_members(op)[k].1 matches Json::List(ps) && ps.len() == op.parameters@.len()
                && object_members(ps[i]).contains(("name"@, Json::Text(op.parameters@[i]@)))
                && object_members(ps[i]).contains(("in"@, Json::Text("path"@)))
                && object_members(ps[i]).contains(("required"@, Json::Bool(true)))
                && object_members(ps[i]).contains(
                ("schema"@, Json::Object(seq![("type"@, Json::Text("string"@))])),
            )),
{
    let k: int = (id_members(op).len() + tags_members(op).len() + deprecated_members(op).len()) as int;
    let members = operation_members(op);
    assert(members[k] == ("parameters"@, Json::List(parameters_json(op.parameters@))));
    let p = parameters_json(op.parameters@)[i];
    let pm = object_members(p);
    assert(pm[0] == ("name"@, Json::Text(op.parameters@[i]@)));
    assert(pm[1] == ("in"@, Json::Text("path"@)));
    assert(pm[2] == ("required"@, Json::Bool(true)));
    assert(pm[3] == ("schema"@, Json::Object(seq![("type"@, Json::Text("string"@))])));
    assert(pm.contains(("name"@, Json::Text(op.parameters@[i]@))));
    assert(pm.contains(("in"@, Json::Text("path"@))));
    assert(pm.contains(("required"@, Json::Bool(true))));
    assert(pm.contains(("schema"@, Json::Object(seq![("type"@, Json::Text("string"@))]))));
    assert(parameters_json(op.parameters@).len() == op.parameters@.len());
    assert(operation_members(op)[k].0 == "parameters"@);
}

/// The forms of an object's members, position by position.
proof fn lemma_members_index(s: Seq<(String, JsonValue)>)
    ensures
        members_of(s).len() == s.len(),
        forall|j: int| 0 <= j < s.len() ==> #[trigger] members_of(s)[j] == (s[j].0@, json_of(s[j].1)),
    decreases s.len(),
{
    if s.len() > 0 {
        let t = s.subrange(0, s.len() - 1);
        lemma_members_index(t);
        assert(s =~= t.push(s.last()));
        lemma_members_push(t, s.last());
    }
}

proof fn lemma_group_index_is(g: Seq<(Seq<char>, Json)>, path: Seq<char>, q: int, r: Option<int>)
    requires
        0 <= q,
        match r {
            Some(i) => q <= i < g.len() && g[i].0 == path && forall|t: int| q <= t < i ==> #[trigger] g[t].0 != path,
            None => forall|t: int| q <= t < g.len() ==> #[trigger] g[t].0 != path,
        },
    ensures
        group_index(g, path, q) == r,
    decreases g.len() - q,
{
    if q < g.len() {
        if g[q].0 != path {
            lemma_group_index_is(g, path, q + 1, r);
        }
    }
}

fn text(s: &str) -> (v: JsonValue)
    ensures
        json_of(v) == Json::Text(s@),
{
    JsonValue::Text(to_string(s))
}

fn member(key: &str, v: JsonValue) -> (m: (String, JsonValue))
    ensures
        m.0@ == key@,
        m.1 == v,
{
    (to_string(key), v)
}

fn texts_value(v: &Vec<String>) -> (r: JsonValue)
    ensures
        json_of(r) == Json::List(texts_json(v@)),
{
    let mut items: Vec<JsonValue> = Vec::new();
    let mut i: usize = 0;
    while i < v.len()
        invariant
            i <= v@.len(),
            jsons_of(items@) == texts_json(v@.take(i as int)),
        decreases v@.len() - i,
    {
        let x = text(v[i].as_str());
        proof {
            lemma_jsons_push(items@, x);
            assert(texts_json(v@.take(i + 1)) =~= texts_json(v@.take(i as int)).push(Json::Text(v@[i as int]@)));
        }
        items.push(x);
        i = i + 1;
    }
    assert(v@.take(v@.len() as int) =~= v@);
    JsonValue::List(items)
}

fn parameter_value(name: &str) -> (r: JsonValue)
    ensures
        json_of(r) == parameter_json(name@),
{
    let mut schema: Vec<(String, JsonValue)> = Vec::new();
    let e = member("type", text("string"));
    proof { lemma_members_push(schema@, e); }
    schema.push(e);
    let mut m: Vec<(String, JsonValue)> = Vec::new();
    let e = member("name", text(name));
    proof { lemma_members_push(m@, e); }
    m.push(e);
    let e = member("in", text("path"));
    proof { lemma_members_push(m@, e); }
    m.push(e);
    let e = member("required", JsonValue::Bool(true));
    proof { lemma_members_push(m@, e); }
    m.push(e);
    let e = member("schema", JsonValue::Object(schema));
    proof { lemma_members_push(m@, e); }
    m.push(e);
    proof {
        assert(members_of(m@) =~= seq![
            ("name"@, Json::Text(name@)),
            ("in"@, Json::Text("path"@)),
            ("required"@, Json::Bool(true)),
            ("schema"@, Json::Object(seq![("type"@, Json::Text("string"@))])),
        ]);
    }
    JsonValue::Object(m)
}

fn parameters_value(v: &Vec<String>) -> (r: JsonValue)
    ensures
        json_of(r) == Json::List(parameters_json(v@)),
{
    let mut items: Vec<JsonValue> = Vec::new();
    let mut i: usize = 0;
    while i < v.len()
        invariant
            i <= v@.len(),
            jsons_of(items@) == parameters_json(v@.take(i as int)),
        decreases v@.len() - i,
    {
        let x = parameter_value(v[i].as_str());
        proof {
            lemma_jsons_push(items@, x);
            assert(parameters_json(v@.take(i + 1)) =~= parameters_json(v@.take(i as int)).push(
                parameter_json(v@[i as int]@),
            ));
        }
        items.push(x);
        i = i + 1;
    }
    assert(v@.take(v@.len() as int) =~= v@);
    JsonValue::List(items)
}

fn ok_responses_value() -> (r: JsonValue)
    ensures
        json_of(r) == ok_responses_json(),
{
    let mut ok: Vec<(String, JsonValue)> = Vec::new();
    let e = member("description", text("Successful response"));
    proof { lemma_members_push(ok@, e); }
    ok.push(e);
    let mut m: Vec<(String, JsonValue)> = Vec::new();
    let e = member("200", JsonValue::Object(ok));
    proof { lemma_members_push(m@, e); }
    m.push(e);
    proof {
        assert(members_of(ok@) =~= seq![("description"@, Json::Text("Successful response"@))]);
        assert(members_of(m@) =~= seq![("200"@, Json::Object(seq![("description"@, Json::Text("Successful response"@))]))]);
    }
    JsonValue::Object(m)
}

fn operation_value(op: &OpenApiOperation) -> (r: JsonValue)
    ensures
        json_of(r) == Json::Object(operation_members(*op)),
{
    let mut m: Vec<(String, JsonValue)> = Vec::new();
    let ghost id_part = id_members(*op);
    match &op.operation_id {
        Some(id) => {
            let e = member("operationId", text(id.as_str()));
            proof { lemma_members_push(m@, e); }
            m.push(e);
        },
        None => {},
    }
    assert(members_of(m@) =~= id_part);
    let ghost tags_part = tags_members(*op);
    if op.tags.len() > 0 {
        let e = member("tags", texts_value(&op.tags));
        proof { lemma_members_push(m@, e); }
        m.push(e);
    }
    assert(members_of(m@) =~= id_part + tags_part);
    let ghost dep_part = deprecated_members(*op);
    if op.deprecated {
        let e = member("deprecated", JsonValue::Bool(true));
        proof { lemma_members_push(m@, e); }
        m.push(e);
    }
    assert(members_of(m@) =~= id_part + tags_part + dep_part);
    let ghost params_part = parameters_members(*op);
    if op.parameters.len() > 0 {
        let e = member("parameters", parameters_value(&op.parameters));
        proof { lemma_members_push(m@, e); }
        m.push(e);
    }
    assert(members_of(m@) =~= id_part + tags_part + dep_part + params_part);
    let e = member("responses", ok_responses_value());
    proof { lemma_members_push(m@, e); }
    m.push(e);
    assert(members_of(m@) =~= operation_members(*op));
    JsonValue::Object(m)
}

fn info_value(doc: &OpenApiDocument) -> (r: JsonValue)
    ensures
        json_of(r) == info_json(*doc),
{
    let mut m: Vec<(String, JsonValue)> = Vec::new();
    let e = member("title", text(doc.title.as_str()));
    proof { lemma_members_push(m@, e); }
    m.push(e);
    let e = member("version", text(doc.version.as_str()));
    proof { lemma_members_push(m@, e); }
    m.push(e);
    let ghost base = seq![("title"@, Json::Text(doc.title@)), ("version"@, Json::Text(doc.version@))];
    assert(members_of(m@) =~= base);
    match &doc.description {
        Some(d) => {
            let e = member("description", text(d.as_str()));
            proof { lemma_members_push(m@, e); }
            m.push(e);
        },
        None => {},
    }
    JsonValue::Object(m)
}

/// Position of the group for `path`.
fn find_group(groups: &Vec<(String, JsonValue)>, path: &str) -> (r: Option<usize>)
    ensures
        match r {
            Some(i) => i < groups@.len() && groups@[i as int].0@ == path@ && forall|t: int|
                0 <= t < i ==> #[trigger] groups@[t].0@ != path@,
            None => forall|t: int| 0 <= t < groups@.len() ==> #[trigger] groups@[t].0@ != path@,
        },
{
    let mut i: usize = 0;
    while i < groups.len()
        invariant
            i <= groups@.len(),
            forall|t: int| 0 <= t < i ==> #[trigger] groups@[t].0@ != path@,
        decreases groups@.len() - i,
    {
        if str_equal(groups[i].0.as_str(), path) {
            return Some(i);
        }
        i = i + 1;
    }
    None
}

/// The `paths` members of the document's operations (see [`group_paths`]).
fn paths_value(ops: &Vec<OpenApiOperation>) -> (r: Vec<(String, JsonValue)>)
    ensures
        members_of(r@) == group_paths(ops@),
{
    let mut groups: Vec<(String, JsonValue)> = Vec::new();
    let mut k: usize = 0;
    while k < ops.len()
        invariant
            k <= ops@.len(),
            members_of(groups@) == group_paths(ops@.take(k as int)),
            forall|t: int| 0 <= t < groups@.len() ==> (#[trigger] groups@[t]).1 is Object,
        decreases ops@.len() - k,
    {
        let op = &ops[k];
        let ghost g = members_of(groups@);
        proof {
            lemma_members_index(groups@);
            assert(ops@.take(k + 1).drop_last() =~= ops@.take(k as int));
            assert(ops@.take(k + 1).last() == *op);
        }
        let entry = member(op.method.as_str(), operation_value(op));
        let ghost jentry = (op.method@, Json::Object(operation_members(*op)));
        match find_group(&groups, op.path.as_str()) {
            Some(i) => {
                proof {
                    lemma_group_index_is(g, op.path@, 0, Some(i as int));
                }
                let ghost before = groups@;
                let (name, value) = groups.remove(i);
                match value {
                    JsonValue::Object(mut inner) => {
                        proof {
                            lemma_members_push(inner@, entry);
                            assert(g[i as int].1 == Json::Object(members_of(inner@)));
                        }
                        inner.push(entry);
                        groups.insert(i, (name, JsonValue::Object(inner)));
                        proof {
                            assert(groups@ =~= before.update(i as int, groups@[i as int]));
                            lemma_members_index(groups@);
                            assert(members_of(groups@) =~= g.update(
                                i as int,
                                (op.path@, Json::Object(object_members(g[i as int].1).push(jentry))),
                            ));
                        }
                    },
                    _ => {
                        proof {
                            assert(before[i as int].1 is Object);
                        }
                        assert(false);
                    },
                }
            },
            None => {
                proof {
                    lemma_group_index_is(g, op.path@, 0, None);
                }
                let mut inner: Vec<(String, JsonValue)> = Vec::new();
                proof {
                    lemma_members_push(inner@, entry);
                    assert(members_of(inner@.push(entry)) =~= seq![jentry]);
                }
                inner.push(entry);
                let path = to_string(op.path.as_str());
                let e = (path, JsonValue::Object(inner));
                proof {
                    lemma_members_push(groups@, e);
                }
                groups.push(e);
            },
        }
        k = k + 1;
    }
    assert(ops@.take(ops@.len() as int) =~= ops@);
    groups
}

impl OpenApiDocument {
    /// The document as JSON (see [`openapi_json`]): the OpenAPI version, the
    /// info object, and the paths object with each path's operations by
    /// method.
    pub fn to_json_value(&self) -> (r: JsonValue)
        ensures
            json_of(r) == openapi_json(*self),
    {
        let mut m: Vec<(String, JsonValue)> = Vec::new();
        let e = member("openapi", text(OPENAPI_VERSION));
        proof { lemma_members_push(m@, e); }
        m.push(e);
        let e = member("info", info_value(self));
        proof { lemma_members_push(m@, e); }
        m.push(e);
        let e = member("paths", JsonValue::Object(paths_value(&self.operations)));
        proof { lemma_members_push(m@, e); }
        m.push(e);
        assert(members_of(m@) =~= seq![
            ("openapi"@, Json::Text(OPENAPI_VERSION@)),
            ("info"@, info_json(*self)),
            ("paths"@, Json::Object(group_paths(self.operations@))),
        ]);
        JsonValue::Object(m)
    }
}

} // verus!
