//! The routes of the generated REST API and the settings of its OpenAPI
//! description.

use vstd::prelude::*;
use vstd::string::*;
use crate::text::owned;

verus! {

/// The type of a field of a collection.
#[derive(Debug, Clone, Copy, PartialEq, Eq, Structural)]
pub enum FieldType {
    Uuid,
    String,
    Number,
    Boolean,
    Datetime,
    Json,
}

impl FieldType {
    /// The JSON Schema type of the field type.
    pub open spec fn json_type_text(self) -> Seq<char> {
        match self {
            FieldType::Uuid => "string"@,
            FieldType::String => "string"@,
            FieldType::Number => "number"@,
            FieldType::Boolean => "boolean"@,
            FieldType::Datetime => "string"@,
            FieldType::Json => "object"@,
        }
    }

    /// The JSON Schema format of the field type, if it has one.
    pub open spec fn json_format_text(self) -> Option<Seq<char>> {
        match self {
            FieldType::Uuid => Some("uuid"@),
            FieldType::Datetime => Some("date-time"@),
            _ => None,
        }
    }

    /// The JSON Schema type of the field type.
    pub fn json_type(&self) -> (r: &'static str)
        ensures
            r@ == self.json_type_text(),
    {
        match self {
            FieldType::Uuid => "string",
            FieldType::String => "string",
            FieldType::Number => "number",
            FieldType::Boolean => "boolean",
            FieldType::Datetime => "string",
            FieldType::Json => "object",
        }
    }

    /// The JSON Schema format of the field type, if it has one.
    pub fn json_format(&self) -> (r: Option<&'static str>)
        ensures
            r is Some == self.json_format_text() is Some,
            r is Some ==> r->0@ == self.json_format_text()->0,
    {
        match self {
            FieldType::Uuid => Some("uuid"),
            FieldType::Datetime => Some("date-time"),
            _ => None,
        }
    }
}

/// OpenAPI specification generator.
#[derive(Debug, Clone, PartialEq, Eq)]
pub struct OpenApiGenerator {
    title: String,
    version: String,
    base_url: String,
}

impl OpenApiGenerator {
    /// The API's title.
    pub closed spec fn spec_title(&self) -> Seq<char> {
        self.title@
    }

    /// The API's version.
    pub closed spec fn spec_version(&self) -> Seq<char> {
        self.version@
    }

    /// The server's address.
    pub closed spec fn spec_base_url(&self) -> Seq<char> {
        self.base_url@
    }

    /// A generator with the default title, version and address.
    pub fn new() -> (r: Self)
        ensures
            r.spec_title() == "AeroDB REST API"@,
            r.spec_version() == "1.0.0"@,
            r.spec_base_url() == "http://localhost:54321"@,
    {
        OpenApiGenerator {
            title: owned("AeroDB REST API"),
            version: owned("1.0.0"),
            base_url: owned("http://localhost:54321"),
        }
    }

    /// A generator with the title, version and address given.
    pub fn with_config(title: String, version: String, base_url: String) -> (r: Self)
        ensures
            r.spec_title() == title@,
            r.spec_version() == version@,
            r.spec_base_url() == base_url@,
    {
        OpenApiGenerator { title, version, base_url }
    }

    /// The API's title.
    pub fn title(&self) -> (r: &str)
        ensures
            r@ == self.spec_title(),
    {
        self.title.as_str()
    }

    /// The API's version.
    pub fn version(&self) -> (r: &str)
        ensures
            r@ == self.spec_version(),
    {
        self.version.as_str()
    }

    /// The server's address.
    pub fn base_url(&self) -> (r: &str)
        ensures
            r@ == self.spec_base_url(),
    {
        self.base_url.as_str()
    }

    /// The path of a collection's list.
    pub fn list_path(collection: &str) -> (r: String)
        ensures
            r@ == list_path_text(collection@),
    {
        let mut out = owned("/rest/v1/");
        out.append(collection);
        out
    }

    /// The path of a record of a collection.
    pub fn item_path(collection: &str) -> (r: String)
        ensures
            r@ == item_path_text(collection@),
    {
        let mut out = owned("/rest/v1/");
        out.append(collection);
        out.append("/{id}");
        out
    }
}

impl Default for OpenApiGenerator {
    fn default() -> (r: Self)
        ensures
            r.spec_title() == "AeroDB REST API"@,
            r.spec_version() == "1.0.0"@,
            r.spec_base_url() == "http://localhost:54321"@,
    {
        OpenApiGenerator::new()
    }
}

/// The path of a collection's list.
pub open spec fn list_path_text(collection: Seq<char>) -> Seq<char> {
    "/rest/v1/"@ + collection
}

/// The path of a record of a collection.
pub open spec fn item_path_text(collection: Seq<char>) -> Seq<char> {
    "/rest/v1/"@ + collection + "/{id}"@
}

/// Route information.
#[derive(Debug, Clone, PartialEq, Eq)]
pub struct RouteInfo {
    pub method: String,
    pub path: String,
    pub description: String,
    pub requires_auth: bool,
}

/// Whether a route has the method, path and description given.
pub open spec fn is_route(
    r: RouteInfo,
    method: Seq<char>,
    path: Seq<char>,
    description: Seq<char>,
    requires_auth: bool,
) -> bool {
    r.method@ == method && r.path@ == path && r.description@ == description && r.requires_auth
        == requires_auth
}

/// Whether the five routes from position `at` on are those of a collection:
/// list, create, get, update and delete, all of which need authentication.
pub open spec fn are_collection_routes(routes: Seq<RouteInfo>, at: int, c: Seq<char>) -> bool {
    &&& is_route(routes[at], "GET"@, list_path_text(c), "List all "@ + c + " records"@, true)
    &&& is_route(
        routes[at + 1],
        "POST"@,
        list_path_text(c),
        "Create new "@ + c + " record"@,
        true,
    )
    &&& is_route(routes[at + 2], "GET"@, item_path_text(c), "Get "@ + c + " by ID"@, true)
    &&& is_route(routes[at + 3], "PATCH"@, item_path_text(c), "Update "@ + c + " by ID"@, true)
    &&& is_route(routes[at + 4], "DELETE"@, item_path_text(c), "Delete "@ + c + " by ID"@, true)
}

fn route(method: &str, path: String, before: &str, collection: &str, after: &str) -> (r: RouteInfo)
    ensures
        is_route(r, method@, path@, before@ + collection@ + after@, true),
{
    let mut description = owned(before);
    description.append(collection);
    description.append(after);
    RouteInfo { method: owned(method), path, description, requires_auth: true }
}

/// The routes of the API: the two that describe the API, open to all, then
/// five for each collection, in the order of the collections.
pub fn generate_routes(collections: &Vec<String>) -> (r: Vec<RouteInfo>)
    ensures
        r@.len() == 2 + 5 * collections@.len(),
        is_route(r@[0], "GET"@, "/_routes"@, "List all available routes"@, false),
        is_route(r@[1], "GET"@, "/_spec"@, "OpenAPI 3.0 specification"@, false),
        forall|i: int|
            0 <= i < collections@.len() ==> are_collection_routes(
                r@,
                2 + 5 * i,
                #[trigger] collections@[i]@,
            ),
{
    let mut routes: Vec<RouteInfo> = Vec::new();
    routes.push(
        RouteInfo {
            method: owned("GET"),
            path: owned("/_routes"),
            description: owned("List all available routes"),
            requires_auth: false,
        },
    );
    routes.push(
        RouteInfo {
            method: owned("GET"),
            path: owned("/_spec"),
            description: owned("OpenAPI 3.0 specification"),
            requires_auth: false,
        },
    );
    let mut i: usize = 0;
    while i < collections.len()
        invariant
            i <= collections@.len(),
            routes@.len() == 2 + 5 * i,
            is_route(routes@[0], "GET"@, "/_routes"@, "List all available routes"@, false),
            is_route(routes@[1], "GET"@, "/_spec"@, "OpenAPI 3.0 specification"@, false),
            forall|k: int|
                0 <= k < i ==> are_collection_routes(
                    routes@,
                    2 + 5 * k,
                    #[trigger] collections@[k]@,
                ),
        decreases collections@.len() - i,
    {
        let ghost before = routes@;
        let c = collections[i].as_str();
        routes.push(route("GET", OpenApiGenerator::list_path(c), "List all ", c, " records"));
        routes.push(route("POST", OpenApiGenerator::list_path(c), "Create new ", c, " record"));
        routes.push(route("GET", OpenApiGenerator::item_path(c), "Get ", c, " by ID"));
        routes.push(route("PATCH", OpenApiGenerator::item_path(c), "Update ", c, " by ID"));
        routes.push(route("DELETE", OpenApiGenerator::item_path(c), "Delete ", c, " by ID"));
        proof {
            assert forall|k: int| 0 <= k < i + 1 implies are_collection_routes(
                routes@,
                2 + 5 * k,
                #[trigger] collections@[k]@,
            ) by {
                if k < i {
                    assert(are_collection_routes(before, 2 + 5 * k, collections@[k]@));
                    assert(routes@[2 + 5 * k] == before[2 + 5 * k]);
                    assert(routes@[2 + 5 * k + 1] == before[2 + 5 * k + 1]);
                    assert(routes@[2 + 5 * k + 2] == before[2 + 5 * k + 2]);
                    assert(routes@[2 + 5 * k + 3] == before[2 + 5 * k + 3]);
                    assert(routes@[2 + 5 * k + 4] == before[2 + 5 * k + 4]);
                }
            }
            assert(routes@[0] == before[0]);
            assert(routes@[1] == before[1]);
        }
        i = i + 1;
    }
    routes
}

} // verus!
