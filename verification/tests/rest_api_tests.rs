use aerodb::rest_api::openapi_gen::{generate_routes, FieldType, OpenApiGenerator, RouteInfo};

#[test]
fn test_openapi_generation() {
    let generator = OpenApiGenerator::new();
    assert_eq!(generator.title(), "AeroDB REST API");
    assert_eq!(generator.version(), "1.0.0");
    assert_eq!(generator.base_url(), "http://localhost:54321");
    assert_eq!(OpenApiGenerator::list_path("users"), "/rest/v1/users");
    assert_eq!(OpenApiGenerator::item_path("users"), "/rest/v1/users/{id}");
}

#[test]
fn test_routes_generation() {
    let routes = generate_routes(&vec!["users".to_string()]);

    // Should have system routes + 5 per collection
    assert!(routes.len() >= 7);

    // Check system routes exist
    assert!(routes.iter().any(|r| r.path == "/_routes"));
    assert!(routes.iter().any(|r| r.path == "/_spec"));
}

#[test]
fn test_generator_config() {
    let generator = OpenApiGenerator::with_config(
        "My API".to_string(),
        "2.0.0".to_string(),
        "https://api.example.com".to_string(),
    );

    assert_eq!(generator.title(), "My API");
    assert_eq!(generator.version(), "2.0.0");
    assert_eq!(generator.base_url(), "https://api.example.com");
}

fn route(method: &str, path: &str, description: &str, requires_auth: bool) -> RouteInfo {
    RouteInfo {
        method: method.to_string(),
        path: path.to_string(),
        description: description.to_string(),
        requires_auth,
    }
}

#[test]
fn routes_in_full() {
    let routes = generate_routes(&vec!["users".to_string(), "posts".to_string()]);
    assert_eq!(routes.len(), 12);
    assert_eq!(routes[0], route("GET", "/_routes", "List all available routes", false));
    assert_eq!(routes[1], route("GET", "/_spec", "OpenAPI 3.0 specification", false));
    assert_eq!(routes[2], route("GET", "/rest/v1/users", "List all users records", true));
    assert_eq!(routes[3], route("POST", "/rest/v1/users", "Create new users record", true));
    assert_eq!(routes[4], route("GET", "/rest/v1/users/{id}", "Get users by ID", true));
    assert_eq!(routes[5], route("PATCH", "/rest/v1/users/{id}", "Update users by ID", true));
    assert_eq!(routes[6], route("DELETE", "/rest/v1/users/{id}", "Delete users by ID", true));
    assert_eq!(routes[7], route("GET", "/rest/v1/posts", "List all posts records", true));
    assert_eq!(routes[11], route("DELETE", "/rest/v1/posts/{id}", "Delete posts by ID", true));
    assert_eq!(generate_routes(&Vec::new()).len(), 2);
}

#[test]
fn field_types_have_json_types() {
    let cases = [
        (FieldType::Uuid, "string", Some("uuid")),
        (FieldType::String, "string", None),
        (FieldType::Number, "number", None),
        (FieldType::Boolean, "boolean", None),
        (FieldType::Datetime, "string", Some("date-time")),
        (FieldType::Json, "object", None),
    ];
    for (field, json_type, format) in cases {
        assert_eq!(field.json_type(), json_type);
        assert_eq!(field.json_format(), format);
    }
}

use aerodb::rest_api::generator::{FieldDef, SchemaDef};
use aerodb::rest_api::openapi_doc::{
    Method, ParameterDoc, ParameterLocation, ParameterName, ParameterType, ResponseBody,
    ResponseDoc,
};

fn field(name: &str, field_type: FieldType, required: bool) -> FieldDef {
    FieldDef { name: name.to_string(), field_type, required, primary: false, default: None }
}

fn users_schema() -> SchemaDef {
    SchemaDef {
        name: "users".to_string(),
        fields: vec![
            field("id", FieldType::Uuid, true),
            field("name", FieldType::String, true),
            field("age", FieldType::Number, false),
            field("name", FieldType::Json, false),
        ],
        rls_policy: None,
    }
}

fn plain(status: u16, description: &str) -> ResponseDoc {
    ResponseDoc { status, description: description.to_string(), body: ResponseBody::Empty }
}

#[test]
fn the_paths_of_a_collection_in_full() {
    let (list, item) = OpenApiGenerator::new().generate_collection_paths("users");
    assert_eq!(list.path, "/rest/v1/users");
    assert_eq!(item.path, "/rest/v1/users/{id}");
    assert_eq!(list.operations.len(), 2);
    assert_eq!(item.operations.len(), 3);

    let listing = &list.operations[0];
    assert_eq!(listing.method, Method::Get);
    assert_eq!(listing.summary, "List all users");
    assert_eq!(listing.operation_id, "list_users");
    assert_eq!(listing.tag, "users");
    assert!(!listing.takes_record);
    let query = |name, schema_type, default| ParameterDoc {
        name,
        location: ParameterLocation::Query,
        required: false,
        schema_type,
        default,
    };
    assert_eq!(
        listing.parameters,
        vec![
            query(ParameterName::Limit, ParameterType::Integer, Some(100)),
            query(ParameterName::Offset, ParameterType::Integer, Some(0)),
            query(ParameterName::Select, ParameterType::Text, None),
            query(ParameterName::Order, ParameterType::Text, None),
        ]
    );
    assert_eq!(
        listing.responses,
        vec![
            ResponseDoc {
                status: 200,
                description: "List of users".to_string(),
                body: ResponseBody::RecordList
            },
            plain(401, "Unauthorized"),
            plain(403, "Forbidden"),
        ]
    );

    let create = &list.operations[1];
    assert_eq!(create.method, Method::Post);
    assert_eq!(create.summary, "Create new users record");
    assert_eq!(create.operation_id, "create_users");
    assert!(create.takes_record);
    assert!(create.parameters.is_empty());
    let codes: Vec<u16> = create.responses.iter().map(|r| r.status).collect();
    assert_eq!(codes, vec![201, 400, 401, 403]);
    assert_eq!(create.responses[0].body, ResponseBody::CreatedRecord);

    let id = ParameterDoc {
        name: ParameterName::Id,
        location: ParameterLocation::Path,
        required: true,
        schema_type: ParameterType::Text,
        default: None,
    };
    let get = &item.operations[0];
    assert_eq!(get.summary, "Get users by ID");
    assert_eq!(get.operation_id, "get_users");
    assert_eq!(get.parameters, vec![id]);
    assert_eq!(get.responses[0].description, "Single users record");
    assert_eq!(get.responses[1], plain(404, "Not Found"));

    let update = &item.operations[1];
    assert_eq!(update.method, Method::Patch);
    assert_eq!(update.summary, "Update users by ID");
    assert!(update.takes_record);
    let codes: Vec<u16> = update.responses.iter().map(|r| r.status).collect();
    assert_eq!(codes, vec![200, 404, 400, 401, 403]);

    let delete = &item.operations[2];
    assert_eq!(delete.method, Method::Delete);
    assert_eq!(delete.operation_id, "delete_users");
    assert_eq!(delete.responses[0].body, ResponseBody::Deleted);
    assert_eq!(delete.responses[0].description, "Deleted");
    assert_eq!(Method::Patch.as_str(), "patch");
    assert_eq!(ParameterName::Offset.as_str(), "offset");
}

#[test]
fn the_json_schema_has_one_property_for_each_name() {
    let schema = OpenApiGenerator::new().field_type_to_json_schema(&users_schema());
    let properties: Vec<(&str, FieldType)> =
        schema.properties.iter().map(|p| (p.name.as_str(), p.field_type)).collect();
    // The last field of a name decides its type.
    assert_eq!(
        properties,
        vec![("id", FieldType::Uuid), ("name", FieldType::Json), ("age", FieldType::Number)]
    );
    assert_eq!(schema.required, vec!["id", "name"]);
}

#[test]
fn the_description_holds_two_paths_for_each_collection() {
    let generator = OpenApiGenerator::with_config(
        "My API".to_string(),
        "2.0.0".to_string(),
        "https://api.example.com".to_string(),
    );
    let mut posts = users_schema();
    posts.name = "posts".to_string();
    let doc = generator.generate(&vec![users_schema(), posts]);
    assert_eq!(doc.openapi, "3.0.3");
    assert_eq!(doc.title, "My API");
    assert_eq!(doc.version, "2.0.0");
    assert_eq!(doc.server_url, "https://api.example.com");
    assert_eq!(doc.description, "Auto-generated REST API for AeroDB collections");
    assert_eq!(doc.server_description, "AeroDB Server");
    let paths: Vec<&str> = doc.paths.iter().map(|p| p.path.as_str()).collect();
    assert_eq!(
        paths,
        vec!["/rest/v1/users", "/rest/v1/users/{id}", "/rest/v1/posts", "/rest/v1/posts/{id}"]
    );
    assert_eq!(doc.schemas.len(), 2);
    assert_eq!(doc.paths[2].operations[0].summary, "List all posts");
    assert!(OpenApiGenerator::new().generate(&Vec::new()).paths.is_empty());
}
