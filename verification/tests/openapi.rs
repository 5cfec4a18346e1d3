use harrow::json_tree::JsonValue;
use harrow::openapi::{
    extract_path_params, to_openapi_path, OpenApiDocument, OpenApiInfo, OpenApiOperation,
    OPENAPI_VERSION,
};
use serde_json::Value;
use harrow::route::{Method, Route, RouteMetadata, RouteTable};

fn make_route(method: Method, pattern: &str) -> Route<(), ()> {
    Route {
        method,
        pattern: pattern.to_string(),
        handler: (),
        metadata: RouteMetadata::default(),
        middleware: Vec::new(),
    }
}

fn make_route_with_metadata(
    method: Method,
    pattern: &str,
    name: Option<&str>,
    tags: &[&str],
    deprecated: bool,
) -> Route<(), ()> {
    let mut metadata = RouteMetadata::default();
    metadata.name = name.map(|s| s.to_string());
    metadata.tags = tags.iter().map(|s| s.to_string()).collect();
    metadata.deprecated = deprecated;
    Route {
        method,
        pattern: pattern.to_string(),
        handler: (),
        metadata,
        middleware: Vec::new(),
    }
}

fn operation<'a>(doc: &'a OpenApiDocument, path: &str, method: &str) -> Option<&'a OpenApiOperation> {
    doc.operations
        .iter()
        .find(|op| op.path == path && op.method == method)
}

fn to_serde(v: JsonValue) -> Value {
    match v {
        JsonValue::Bool(b) => Value::Bool(b),
        JsonValue::Text(s) => Value::String(s),
        JsonValue::List(items) => Value::Array(items.into_iter().map(to_serde).collect()),
        JsonValue::Object(members) => {
            let mut map = serde_json::Map::new();
            for (key, value) in members {
                map.insert(key, to_serde(value));
            }
            Value::Object(map)
        }
    }
}

fn openapi_json(table: &RouteTable<(), ()>, info: &OpenApiInfo) -> String {
    let value = table.to_openapi_document(info).to_json_value();
    serde_json::to_string_pretty(&to_serde(value)).unwrap()
}

fn strings(xs: &[&str]) -> Value {
    Value::Array(xs.iter().map(|x| Value::String(x.to_string())).collect())
}

#[test]
fn empty_route_table_produces_valid_openapi() {
    let table: RouteTable<(), ()> = RouteTable::new();
    let info = OpenApiInfo::new("Test", "1.0.0");
    let json_str = openapi_json(&table, &info);
    let doc: Value = serde_json::from_str(&json_str).unwrap();

    assert_eq!(doc["openapi"], "3.0.3");
    assert_eq!(doc["info"]["title"], "Test");
    assert_eq!(doc["info"]["version"], "1.0.0");
    assert_eq!(doc["paths"], Value::Object(serde_json::Map::new()));
}

#[test]
fn info_description_is_included() {
    let table: RouteTable<(), ()> = RouteTable::new();
    let info = OpenApiInfo::new("My API", "2.0.0").description("A cool API");
    let json_str = openapi_json(&table, &info);
    let doc: Value = serde_json::from_str(&json_str).unwrap();

    assert_eq!(doc["info"]["description"], "A cool API");
}

#[test]
fn simple_routes_generate_paths() {
    let mut table = RouteTable::new();
    table.push(make_route(Method::Get, "/health"));
    table.push(make_route(Method::Get, "/users"));
    table.push(make_route(Method::Post, "/users"));

    let info = OpenApiInfo::new("Test", "1.0.0");
    let json_str = openapi_json(&table, &info);
    let doc: Value = serde_json::from_str(&json_str).unwrap();

    assert!(doc["paths"]["/health"]["get"].is_object());
    assert!(doc["paths"]["/users"]["get"].is_object());
    assert!(doc["paths"]["/users"]["post"].is_object());
}

#[test]
fn path_params_converted_to_openapi_format() {
    let mut table = RouteTable::new();
    table.push(make_route(Method::Get, "/users/:id"));

    let info = OpenApiInfo::new("Test", "1.0.0");
    let json_str = openapi_json(&table, &info);
    let doc: Value = serde_json::from_str(&json_str).unwrap();

    let path = &doc["paths"]["/users/{id}"];
    assert!(path["get"].is_object());

    let params = &path["get"]["parameters"];
    assert_eq!(params[0]["name"], "id");
    assert_eq!(params[0]["in"], "path");
    assert_eq!(params[0]["required"], true);
}

#[test]
fn glob_params_converted_to_openapi_format() {
    let mut table = RouteTable::new();
    table.push(make_route(Method::Get, "/files/*path"));

    let info = OpenApiInfo::new("Test", "1.0.0");
    let json_str = openapi_json(&table, &info);
    let doc: Value = serde_json::from_str(&json_str).unwrap();

    let path = &doc["paths"]["/files/{path}"];
    assert!(path["get"].is_object());

    let params = &path["get"]["parameters"];
    assert_eq!(params[0]["name"], "path");
}

#[test]
fn metadata_maps_to_operation_fields() {
    let mut table = RouteTable::new();
    table.push(make_route_with_metadata(
        Method::Get,
        "/users",
        Some("listUsers"),
        &["users", "admin"],
        false,
    ));
    table.push(make_route_with_metadata(
        Method::Delete,
        "/users/:id",
        Some("deleteUser"),
        &["users"],
        true,
    ));

    let info = OpenApiInfo::new("Test", "1.0.0");
    let json_str = openapi_json(&table, &info);
    let doc: Value = serde_json::from_str(&json_str).unwrap();

    let list = &doc["paths"]["/users"]["get"];
    assert_eq!(list["operationId"], "listUsers");
    assert_eq!(list["tags"], strings(&["users", "admin"]));
    assert!(list.get("deprecated").is_none());

    let delete = &doc["paths"]["/users/{id}"]["delete"];
    assert_eq!(delete["operationId"], "deleteUser");
    assert_eq!(delete["tags"], strings(&["users"]));
    assert_eq!(delete["deprecated"], true);

    let doc_ops = table.to_openapi_document(&info);
    let list_op = operation(&doc_ops, "/users", "get").unwrap();
    assert_eq!(list_op.tags, vec!["users".to_string(), "admin".to_string()]);
}

#[test]
fn multiple_methods_on_same_path_grouped() {
    let mut table = RouteTable::new();
    table.push(make_route(Method::Get, "/users"));
    table.push(make_route(Method::Post, "/users"));
    table.push(make_route(Method::Delete, "/users"));

    let info = OpenApiInfo::new("Test", "1.0.0");
    let json_str = openapi_json(&table, &info);
    let doc: Value = serde_json::from_str(&json_str).unwrap();

    let users = &doc["paths"]["/users"];
    assert!(users["get"].is_object());
    assert!(users["post"].is_object());
    assert!(users["delete"].is_object());
    assert_eq!(doc["paths"].as_object().unwrap().len(), 1);
}

#[test]
fn multi_param_path() {
    let mut table = RouteTable::new();
    table.push(make_route(Method::Get, "/orgs/:org/repos/:repo"));

    let info = OpenApiInfo::new("Test", "1.0.0");
    let json_str = openapi_json(&table, &info);
    let doc: Value = serde_json::from_str(&json_str).unwrap();

    let path = &doc["paths"]["/orgs/{org}/repos/{repo}"];
    let params = &path["get"]["parameters"];
    assert_eq!(params.as_array().unwrap().len(), 2);
    assert_eq!(params[0]["name"], "org");
    assert_eq!(params[1]["name"], "repo");
}

#[test]
fn output_is_valid_json() {
    let mut table = RouteTable::new();
    table.push(make_route(Method::Get, "/health"));
    table.push(make_route_with_metadata(
        Method::Get,
        "/users/:id",
        Some("getUser"),
        &["users"],
        false,
    ));

    let info = OpenApiInfo::new("My API", "1.0.0").description("Test API");
    let json_str = openapi_json(&table, &info);

    let doc: Value = serde_json::from_str(&json_str).unwrap();
    assert_eq!(doc["openapi"], "3.0.3");
    assert_eq!(OPENAPI_VERSION, "3.0.3");
}

#[test]
fn every_operation_answers_200_and_plain_ones_carry_nothing_else() {
    let mut table = RouteTable::new();
    table.push(make_route(Method::Get, "/health"));
    let json_str = openapi_json(&table, &OpenApiInfo::new("T", "1"));
    let doc: Value = serde_json::from_str(&json_str).unwrap();
    let health = doc["paths"]["/health"]["get"].as_object().unwrap();
    assert_eq!(health.len(), 1);
    assert_eq!(health["responses"]["200"]["description"], "Successful response");
    assert!(doc["info"].get("description").is_none());
}

#[test]
fn later_route_replaces_earlier_with_same_key() {
    let mut table = RouteTable::new();
    table.push(make_route_with_metadata(Method::Get, "/a/:x", Some("first"), &[], false));
    table.push(make_route_with_metadata(Method::Get, "/a/:x", Some("second"), &[], false));
    let doc = table.to_openapi_document(&OpenApiInfo::new("T", "1"));
    assert_eq!(doc.operations.len(), 1);
    assert_eq!(doc.operations[0].operation_id.as_deref(), Some("second"));
}

#[test]
fn openapi_path_conversion() {
    assert_eq!(to_openapi_path("/users/:id/posts/:post_id"), "/users/{id}/posts/{post_id}");
    assert_eq!(to_openapi_path("/static/*rest"), "/static/{rest}");
    assert_eq!(to_openapi_path("/plain/path"), "/plain/path");
    assert_eq!(to_openapi_path("/"), "/");
    assert_eq!(
        extract_path_params("/users/:id/files/*rest"),
        vec!["id".to_string(), "rest".to_string()]
    );
    assert!(extract_path_params("/health").is_empty());
}
