//! The OpenAPI description of the generated REST API, as plain values: the
//! two paths of each collection with their operations, parameters and
//! responses, and the JSON Schema of each collection. Rendering the values
//! as JSON is the caller's.

use vstd::prelude::*;
use vstd::string::*;
use crate::rest_api::generator::{field_models, FieldDef, FieldModel, SchemaDef};
use crate::rest_api::openapi_gen::{item_path_text, list_path_text, FieldType, OpenApiGenerator};
use crate::text::{owned, same_text};

verus! {

/// The version of OpenAPI that the description follows.
pub const OPENAPI_VERSION: &'static str = "3.0.3";

/// The description of the API.
pub const API_DESCRIPTION: &'static str = "Auto-generated REST API for AeroDB collections";

/// The description of the server.
pub const SERVER_DESCRIPTION: &'static str = "AeroDB Server";

/// An HTTP method of the API.
#[derive(Debug, Clone, Copy, PartialEq, Eq, Structural)]
pub enum Method {
    Get,
    Post,
    Patch,
    Delete,
}

impl Method {
    /// The method's key in a path of the description.
    pub open spec fn key_text(self) -> Seq<char> {
        match self {
            Method::Get => "get"@,
            Method::Post => "post"@,
            Method::Patch => "patch"@,
            Method::Delete => "delete"@,
        }
    }

    /// The method's key in a path of the description.
    pub fn as_str(&self) -> (r: &'static str)
        ensures
            r@ == self.key_text(),
    {
        match self {
            Method::Get => "get",
            Method::Post => "post",
            Method::Patch => "patch",
            Method::Delete => "delete",
        }
    }
}

/// Where a parameter stands.
#[derive(Debug, Clone, Copy, PartialEq, Eq, Structural)]
pub enum ParameterLocation {
    Query,
    Path,
}

/// The type of a parameter.
#[derive(Debug, Clone, Copy, PartialEq, Eq, Structural)]
pub enum ParameterType {
    Integer,
    Text,
}

/// The name of a parameter.
#[derive(Debug, Clone, Copy, PartialEq, Eq, Structural)]
pub enum ParameterName {
    Limit,
    Offset,
    Select,
    Order,
    Id,
}

impl ParameterName {
    /// The name as it is written.
    pub open spec fn name_text(self) -> Seq<char> {
        match self {
            ParameterName::Limit => "limit"@,
            ParameterName::Offset => "offset"@,
            ParameterName::Select => "select"@,
            ParameterName::Order => "order"@,
            ParameterName::Id => "id"@,
        }
    }

    /// The name as it is written.
    pub fn as_str(&self) -> (r: &'static str)
        ensures
            r@ == self.name_text(),
    {
        match self {
            ParameterName::Limit => "limit",
            ParameterName::Offset => "offset",
            ParameterName::Select => "select",
            ParameterName::Order => "order",
            ParameterName::Id => "id",
        }
    }
}

/// A parameter of an operation.
#[derive(Debug, Clone, Copy, PartialEq, Eq, Structural)]
pub struct ParameterDoc {
    pub name: ParameterName,
    pub location: ParameterLocation,
    pub required: bool,
    pub schema_type: ParameterType,
    /// The default of an integer parameter, if it has one.
    pub default: Option<u64>,
}

/// What a response holds.
#[derive(Debug, Clone, Copy, PartialEq, Eq, Structural)]
pub enum ResponseBody {
    /// Nothing but the description.
    Empty,
    /// `data`, an array of records, with `count` and `has_more`.
    RecordList,
    /// `data`, a record, with its `id`.
    CreatedRecord,
    /// `data`, a record.
    Record,
    /// `deleted`, a flag, with the `id`.
    Deleted,
}

/// A response of an operation.
#[derive(Debug, Clone, PartialEq, Eq)]
pub struct ResponseDoc {
    pub status: u16,
    pub description: String,
    pub body: ResponseBody,
}

/// A response as a mathematical value.
pub struct ResponseModel {
    pub status: u16,
    pub description: Seq<char>,
    pub body: ResponseBody,
}

impl View for ResponseDoc {
    type V = ResponseModel;

    open spec fn view(&self) -> ResponseModel {
        ResponseModel { status: self.status, description: self.description@, body: self.body }
    }
}

/// An operation of a path.
#[derive(Debug, Clone, PartialEq, Eq)]
pub struct OperationDoc {
    pub method: Method,
    pub summary: String,
    pub operation_id: String,
    /// The tag of the operation: its collection.
    pub tag: String,
    pub parameters: Vec<ParameterDoc>,
    /// Whether the operation takes a record of the collection as its body.
    pub takes_record: bool,
    pub responses: Vec<ResponseDoc>,
}

/// An operation as a mathematical value.
pub struct OperationModel {
    pub method: Method,
    pub summary: Seq<char>,
    pub operation_id: Seq<char>,
    pub tag: Seq<char>,
    pub parameters: Seq<ParameterDoc>,
    pub takes_record: bool,
    pub responses: Seq<ResponseModel>,
}

/// The responses as mathematical values.
pub open spec fn response_models(responses: Seq<ResponseDoc>) -> Seq<ResponseModel> {
    responses.map_values(|r: ResponseDoc| r@)
}

impl View for OperationDoc {
    type V = OperationModel;

    open spec fn view(&self) -> OperationModel {
        OperationModel {
            method: self.method,
            summary: self.summary@,
            operation_id: self.operation_id@,
            tag: self.tag@,
            parameters: self.parameters@,
            takes_record: self.takes_record,
            responses: response_models(self.responses@),
        }
    }
}

/// A path of the API with its operations.
#[derive(Debug, Clone, PartialEq, Eq)]
pub struct PathDoc {
    pub path: String,
    pub operations: Vec<OperationDoc>,
}

/// A path as a mathematical value.
pub struct PathModel {
    pub path: Seq<char>,
    pub operations: Seq<OperationModel>,
}

/// The operations as mathematical values.
pub open spec fn operation_models(operations: Seq<OperationDoc>) -> Seq<OperationModel> {
    operations.map_values(|o: OperationDoc| o@)
}

impl View for PathDoc {
    type V = PathModel;

    open spec fn view(&self) -> PathModel {
        PathModel { path: self.path@, operations: operation_models(self.operations@) }
    }
}

/// A parameter of a query that need not be given.
pub open spec fn query_parameter(
    name: ParameterName,
    schema_type: ParameterType,
    default: Option<u64>,
) -> ParameterDoc {
    ParameterDoc { name, location: ParameterLocation::Query, required: false, schema_type, default }
}

/// The parameter that names a record in a path.
pub open spec fn id_parameter() -> ParameterDoc {
    ParameterDoc {
        name: ParameterName::Id,
        location: ParameterLocation::Path,
        required: true,
        schema_type: ParameterType::Text,
        default: None,
    }
}

/// The parameters of a listing: `limit` with a default of 100, `offset`
/// with a default of 0, `select` and `order`.
pub open spec fn list_parameters() -> Seq<ParameterDoc> {
    seq![
        query_parameter(ParameterName::Limit, ParameterType::Integer, Some(100)),
        query_parameter(ParameterName::Offset, ParameterType::Integer, Some(0)),
        query_parameter(ParameterName::Select, ParameterType::Text, None),
        query_parameter(ParameterName::Order, ParameterType::Text, None),
    ]
}

/// A response without a body.
pub open spec fn plain_response(status: u16, description: Seq<char>) -> ResponseModel {
    ResponseModel { status, description, body: ResponseBody::Empty }
}

/// The operation that lists the records of a collection.
pub open spec fn list_operation(c: Seq<char>) -> OperationModel {
    OperationModel {
        method: Method::Get,
        summary: "List all "@ + c,
        operation_id: "list_"@ + c,
        tag: c,
        parameters: list_parameters(),
        takes_record: false,
        responses: seq![
            ResponseModel {
                status: 200,
                description: "List of "@ + c,
                body: ResponseBody::RecordList,
            },
            plain_response(401, "Unauthorized"@),
            plain_response(403, "Forbidden"@),
        ],
    }
}

/// The operation that creates a record of a collection.
pub open spec fn create_operation(c: Seq<char>) -> OperationModel {
    OperationModel {
        method: Method::Post,
        summary: "Create new "@ + c + " record"@,
        operation_id: "create_"@ + c,
        tag: c,
        parameters: Seq::<ParameterDoc>::empty(),
        takes_record: true,
        responses: seq![
            ResponseModel { status: 201, description: "Created"@, body: ResponseBody::CreatedRecord },
            plain_response(400, "Bad Request"@),
            plain_response(401, "Unauthorized"@),
            plain_response(403, "Forbidden"@),
        ],
    }
}

/// The operation that gets a record of a collection.
pub open spec fn get_operation(c: Seq<char>) -> OperationModel {
    OperationModel {
        method: Method::Get,
        summary: "Get "@ + c + " by ID"@,
        operation_id: "get_"@ + c,
        tag: c,
        parameters: seq![id_parameter()],
        takes_record: false,
        responses: seq![
            ResponseModel {
                status: 200,
                description: "Single "@ + c + " record"@,
                body: ResponseBody::Record,
            },
            plain_response(404, "Not Found"@),
            plain_response(401, "Unauthorized"@),
            plain_response(403, "Forbidden"@),
        ],
    }
}

/// The operation that updates a record of a collection.
pub open spec fn update_operation(c: Seq<char>) -> OperationModel {
    OperationModel {
        method: Method::Patch,
        summary: "Update "@ + c + " by ID"@,
        operation_id: "update_"@ + c,
        tag: c,
        parameters: seq![id_parameter()],
        takes_record: true,
        responses: seq![
            ResponseModel { status: 200, description: "Updated"@, body: ResponseBody::Record },
            plain_response(404, "Not Found"@),
            plain_response(400, "Bad Request"@),
            plain_response(401, "Unauthorized"@),
            plain_response(403, "Forbidden"@),
        ],
    }
}

/// The operation that deletes a record of a collection.
pub open spec fn delete_operation(c: Seq<char>) -> OperationModel {
    OperationModel {
        method: Method::Delete,
        summary: "Delete "@ + c + " by ID"@,
        operation_id: "delete_"@ + c,
        tag: c,
        parameters: seq![id_parameter()],
        takes_record: false,
        responses: seq![
            ResponseModel { status: 200, description: "Deleted"@, body: ResponseBody::Deleted },
            plain_response(404, "Not Found"@),
            plain_response(401, "Unauthorized"@),
            plain_response(403, "Forbidden"@),
        ],
    }
}

/// The path of a collection's list: listing and creating.
pub open spec fn list_path_model(c: Seq<char>) -> PathModel {
    PathModel { path: list_path_text(c), operations: seq![list_operation(c), create_operation(c)] }
}

/// The path of a record of a collection: getting, updating and deleting.
pub open spec fn item_path_model(c: Seq<char>) -> PathModel {
    PathModel {
        path: item_path_text(c),
        operations: seq![get_operation(c), update_operation(c), delete_operation(c)],
    }
}

fn joined3(before: &str, middle: &str, after: &str) -> (r: String)
    ensures
        r@ == before@ + middle@ + after@,
{
    let mut out = owned(before);
    out.append(middle);
    out.append(after);
    out
}

fn plain(status: u16, description: &str) -> (r: ResponseDoc)
    ensures
        r@ == plain_response(status, description@),
{
    ResponseDoc { status, description: owned(description), body: ResponseBody::Empty }
}

fn id_parameters() -> (r: Vec<ParameterDoc>)
    ensures
        r@ == seq![id_parameter()],
{
    let mut out: Vec<ParameterDoc> = Vec::new();
    out.push(
        ParameterDoc {
            name: ParameterName::Id,
            location: ParameterLocation::Path,
            required: true,
            schema_type: ParameterType::Text,
            default: None,
        },
    );
    assert(out@ =~= seq![id_parameter()]);
    out
}

fn query(name: ParameterName, schema_type: ParameterType, default: Option<u64>) -> (r:
    ParameterDoc)
    ensures
        r == query_parameter(name, schema_type, default),
{
    ParameterDoc { name, location: ParameterLocation::Query, required: false, schema_type, default }
}

fn operation_list(collection: &str) -> (r: OperationDoc)
    ensures
        r@ == list_operation(collection@),
{
    let mut parameters: Vec<ParameterDoc> = Vec::new();
    parameters.push(query(ParameterName::Limit, ParameterType::Integer, Some(100)));
    parameters.push(query(ParameterName::Offset, ParameterType::Integer, Some(0)));
    parameters.push(query(ParameterName::Select, ParameterType::Text, None));
    parameters.push(query(ParameterName::Order, ParameterType::Text, None));
    assert(parameters@ =~= list_parameters());
    let mut responses: Vec<ResponseDoc> = Vec::new();
    responses.push(
        ResponseDoc {
            status: 200,
            description: joined3("List of ", collection, ""),
            body: ResponseBody::RecordList,
        },
    );
    responses.push(plain(401, "Unauthorized"));
    responses.push(plain(403, "Forbidden"));
    proof {
        reveal_strlit("");
        assert("List of "@ + collection@ + ""@ =~= "List of "@ + collection@);
        assert(response_models(responses@) =~= list_operation(collection@).responses);
    }
    let r = OperationDoc {
        method: Method::Get,
        summary: joined3("List all ", collection, ""),
        operation_id: joined3("list_", collection, ""),
        tag: owned(collection),
        parameters,
        takes_record: false,
        responses,
    };
    proof {
        assert("List all "@ + collection@ + ""@ =~= "List all "@ + collection@);
        assert("list_"@ + collection@ + ""@ =~= "list_"@ + collection@);
    }
    r
}

fn operation_create(collection: &str) -> (r: OperationDoc)
    ensures
        r@ == create_operation(collection@),
{
    let mut responses: Vec<ResponseDoc> = Vec::new();
    responses.push(
        ResponseDoc {
            status: 201,
            description: owned("Created"),
            body: ResponseBody::CreatedRecord,
        },
    );
    responses.push(plain(400, "Bad Request"));
    responses.push(plain(401, "Unauthorized"));
    responses.push(plain(403, "Forbidden"));
    proof {
        reveal_strlit("");
        assert(response_models(responses@) =~= create_operation(collection@).responses);
        assert("create_"@ + collection@ + ""@ =~= "create_"@ + collection@);
    }
    OperationDoc {
        method: Method::Post,
        summary: joined3("Create new ", collection, " record"),
        operation_id: joined3("create_", collection, ""),
        tag: owned(collection),
        parameters: Vec::new(),
        takes_record: true,
        responses,
    }
}

fn operation_get(collection: &str) -> (r: OperationDoc)
    ensures
        r@ == get_operation(collection@),
{
    let mut responses: Vec<ResponseDoc> = Vec::new();
    responses.push(
        ResponseDoc {
            status: 200,
            description: joined3("Single ", collection, " record"),
            body: ResponseBody::Record,
        },
    );
    responses.push(plain(404, "Not Found"));
    responses.push(plain(401, "Unauthorized"));
    responses.push(plain(403, "Forbidden"));
    proof {
        reveal_strlit("");
        assert(response_models(responses@) =~= get_operation(collection@).responses);
        assert("get_"@ + collection@ + ""@ =~= "get_"@ + collection@);
    }
    OperationDoc {
        method: Method::Get,
        summary: joined3("Get ", collection, " by ID"),
        operation_id: joined3("get_", collection, ""),
        tag: owned(collection),
        parameters: id_parameters(),
        takes_record: false,
        responses,
    }
}

fn operation_update(collection: &str) -> (r: OperationDoc)
    ensures
        r@ == update_operation(collection@),
{
    let mut responses: Vec<ResponseDoc> = Vec::new();
    responses.push(
        ResponseDoc { status: 200, description: owned("Updated"), body: ResponseBody::Record },
    );
    responses.push(plain(404, "Not Found"));
    responses.push(plain(400, "Bad Request"));
    responses.push(plain(401, "Unauthorized"));
    responses.push(plain(403, "Forbidden"));
    proof {
        reveal_strlit("");
        assert(response_models(responses@) =~= update_operation(collection@).responses);
        assert("update_"@ + collection@ + ""@ =~= "update_"@ + collection@);
    }
    OperationDoc {
        method: Method::Patch,
        summary: joined3("Update ", collection, " by ID"),
        operation_id: joined3("update_", collection, ""),
        tag: owned(collection),
        parameters: id_parameters(),
        takes_record: true,
        responses,
    }
}

fn operation_delete(collection: &str) -> (r: OperationDoc)
    ensures
        r@ == delete_operation(collection@),
{
    let mut responses: Vec<ResponseDoc> = Vec::new();
    responses.push(
        ResponseDoc { status: 200, description: owned("Deleted"), body: ResponseBody::Deleted },
    );
    responses.push(plain(404, "Not Found"));
    responses.push(plain(401, "Unauthorized"));
    responses.push(plain(403, "Forbidden"));
    proof {
        reveal_strlit("");
        assert(response_models(responses@) =~= delete_operation(collection@).responses);
        assert("delete_"@ + collection@ + ""@ =~= "delete_"@ + collection@);
    }
    OperationDoc {
        method: Method::Delete,
        summary: joined3("Delete ", collection, " by ID"),
        operation_id: joined3("delete_", collection, ""),
        tag: owned(collection),
        parameters: id_parameters(),
        takes_record: false,
        responses,
    }
}

/// A property of a JSON Schema.
#[derive(Debug, Clone, PartialEq, Eq)]
pub struct PropertyDoc {
    pub name: String,
    pub field_type: FieldType,
}

/// The JSON Schema of a collection: an object with a property for each
/// field's name, and the names of the fields that a record has to hold.
#[derive(Debug, Clone, PartialEq, Eq)]
pub struct JsonSchemaDoc {
    pub properties: Vec<PropertyDoc>,
    pub required: Vec<String>,
}

/// The type of the property of a name: that of the last field with the
/// name, if there is one.
pub open spec fn property_type(fields: Seq<FieldModel>, name: Seq<char>) -> Option<FieldType>
    decreases fields.len(),
{
    if fields.len() == 0 {
        None
    } else if fields.last().name == name {
        Some(fields.last().field_type)
    } else {
        property_type(fields.drop_last(), name)
    }
}

/// The names of the fields that a record has to hold, in the order of the
/// fields.
pub open spec fn required_names(fields: Seq<FieldModel>) -> Seq<Seq<char>>
    decreases fields.len(),
{
    if fields.len() == 0 {
        Seq::<Seq<char>>::empty()
    } else if fields.last().required {
        required_names(fields.drop_last()).push(fields.last().name)
    } else {
        required_names(fields.drop_last())
    }
}

/// Whether the properties are those of the fields: one for each name that a
/// field has, with the type of the last field of the name.
pub open spec fn are_properties_of(properties: Seq<PropertyDoc>, fields: Seq<FieldModel>) -> bool {
    &&& forall|i: int, j: int|
        0 <= i < j < properties.len() ==> properties[i].name@ != properties[j].name@
    &&& forall|i: int|
        0 <= i < properties.len() ==> property_type(fields, (#[trigger] properties[i]).name@)
            == Some(properties[i].field_type)
    &&& forall|k: int| 0 <= k < fields.len() ==> has_property(properties, #[trigger] fields[k].name)
}

/// Whether a property has the name given.
pub open spec fn has_property(properties: Seq<PropertyDoc>, name: Seq<char>) -> bool {
    exists|i: int| 0 <= i < properties.len() && (#[trigger] properties[i]).name@ == name
}

/// The texts of some strings.
pub open spec fn name_texts(names: Seq<String>) -> Seq<Seq<char>> {
    names.map_values(|n: String| n@)
}

impl OpenApiGenerator {
    /// Generate the paths of a collection: that of its list and that of its
    /// records.
    pub fn generate_collection_paths(&self, collection: &str) -> (r: (PathDoc, PathDoc))
        ensures
            r.0@ == list_path_model(collection@),
            r.1@ == item_path_model(collection@),
    {
        let mut list_operations: Vec<OperationDoc> = Vec::new();
        list_operations.push(operation_list(collection));
        list_operations.push(operation_create(collection));
        assert(operation_models(list_operations@) =~= list_path_model(collection@).operations);
        let mut item_operations: Vec<OperationDoc> = Vec::new();
        item_operations.push(operation_get(collection));
        item_operations.push(operation_update(collection));
        item_operations.push(operation_delete(collection));
        assert(operation_models(item_operations@) =~= item_path_model(collection@).operations);
        (
            PathDoc { path: OpenApiGenerator::list_path(collection), operations: list_operations },
            PathDoc { path: OpenApiGenerator::item_path(collection), operations: item_operations },
        )
    }

    /// Convert a schema to its JSON Schema.
    pub fn field_type_to_json_schema(&self, schema: &SchemaDef) -> (r: JsonSchemaDoc)
        ensures
            are_properties_of(r.properties@, field_models(schema.fields@)),
            name_texts(r.required@) == required_names(field_models(schema.fields@)),
    {
        let ghost all = field_models(schema.fields@);
        let mut properties: Vec<PropertyDoc> = Vec::new();
        let mut required: Vec<String> = Vec::new();
        let mut i: usize = 0;
        proof {
            assert(all.take(0) =~= Seq::<FieldModel>::empty());
            assert(name_texts(required@) =~= Seq::<Seq<char>>::empty());
        }
        while i < schema.fields.len()
            invariant
                i <= schema.fields@.len(),
                all == field_models(schema.fields@),
                are_properties_of(properties@, all.take(i as int)),
                name_texts(required@) == required_names(all.take(i as int)),
            decreases schema.fields@.len() - i,
        {
            let field = &schema.fields[i];
            let ghost before = properties@;
            let ghost upto = all.take(i as int);
            let ghost next = all.take(i + 1);
            proof {
                assert(next.drop_last() =~= upto);
                assert(next.last() == field@);
            }
            let mut found: Option<usize> = None;
            let mut k: usize = 0;
            while k < properties.len()
                invariant
                    k <= properties@.len(),
                    properties@ == before,
                    match found {
                        Some(at) => at < k && before[at as int].name@ == field.name@,
                        None => forall|j: int| 0 <= j < k ==> (#[trigger] before[j]).name@
                            != field.name@,
                    },
                decreases properties@.len() - k,
            {
                if found.is_none() && same_text(properties[k].name.as_str(), field.name.as_str()) {
                    found = Some(k);
                }
                k = k + 1;
            }
            match found {
                Some(at) => {
                    properties.set(
                        at,
                        PropertyDoc { name: field.name.clone(), field_type: field.field_type },
                    );
                    proof {
                        let now = properties@;
                        assert forall|a: int, b: int| 0 <= a < b < now.len() implies now[a].name@
                            != now[b].name@ by {
                            assert(now[a].name@ == before[a].name@);
                            assert(now[b].name@ == before[b].name@);
                        }
                        assert forall|a: int| 0 <= a < now.len() implies property_type(
                            next,
                            (#[trigger] now[a]).name@,
                        ) == Some(now[a].field_type) by {
                            if a != at {
                                assert(now[a] == before[a]);
                                assert(before[a].name@ != before[at as int].name@);
                            }
                        }
                        assert forall|m: int| 0 <= m < next.len() implies has_property(
                            now,
                            #[trigger] next[m].name,
                        ) by {
                            if m < upto.len() {
                                assert(next[m] == upto[m]);
                                assert(has_property(before, upto[m].name));
                                let a = choose|a: int|
                                    0 <= a < before.len() && (#[trigger] before[a]).name@
                                        == upto[m].name;
                                assert(now[a].name@ == before[a].name@);
                            } else {
                                assert(now[at as int].name@ == next[m].name);
                            }
                        }
                    }
                },
                None => {
                    properties.push(
                        PropertyDoc { name: field.name.clone(), field_type: field.field_type },
                    );
                    proof {
                        let now = properties@;
                        let last = now.len() - 1;
                        assert forall|a: int, b: int| 0 <= a < b < now.len() implies now[a].name@
                            != now[b].name@ by {
                            assert(now[a] == before[a]);
                            if b < last {
                                assert(now[b] == before[b]);
                            }
                        }
                        assert forall|a: int| 0 <= a < now.len() implies property_type(
                            next,
                            (#[trigger] now[a]).name@,
                        ) == Some(now[a].field_type) by {
                            if a < last {
                                assert(now[a] == before[a]);
                            }
                        }
                        assert forall|m: int| 0 <= m < next.len() implies has_property(
                            now,
                            #[trigger] next[m].name,
                        ) by {
                            if m < upto.len() {
                                assert(next[m] == upto[m]);
                                assert(has_property(before, upto[m].name));
                                let a = choose|a: int|
                                    0 <= a < before.len() && (#[trigger] before[a]).name@
                                        == upto[m].name;
                                assert(now[a] == before[a]);
                            } else {
                                assert(now[last].name@ == next[m].name);
                            }
                        }
                    }
                },
            }
            if field.required {
                let ghost names = required@;
                required.push(field.name.clone());
                assert(name_texts(required@) =~= name_texts(names).push(field.name@));
            }
            i = i + 1;
        }
        assert(all.take(schema.fields@.len() as int) =~= all);
        JsonSchemaDoc { properties, required }
    }
}

/// The description of the API: what stands above the paths, and the paths.
#[derive(Debug, Clone, PartialEq, Eq)]
pub struct ApiDoc {
    pub openapi: &'static str,
    pub title: String,
    pub version: String,
    pub description: &'static str,
    pub server_url: String,
    pub server_description: &'static str,
    /// The paths: for each collection that of its list, then that of its
    /// records.
    pub paths: Vec<PathDoc>,
    /// The JSON Schema of each collection, in the order of the collections.
    pub schemas: Vec<JsonSchemaDoc>,
}

/// The paths as mathematical values.
pub open spec fn path_models(paths: Seq<PathDoc>) -> Seq<PathModel> {
    paths.map_values(|p: PathDoc| p@)
}

impl OpenApiGenerator {
    /// Generate the description of the API for the collections with the
    /// schemas given: two paths and a JSON Schema for each collection, in
    /// the order of the schemas.
    pub fn generate(&self, schemas: &Vec<SchemaDef>) -> (r: ApiDoc)
        ensures
            r.openapi@ == OPENAPI_VERSION@,
            r.title@ == self.spec_title(),
            r.version@ == self.spec_version(),
            r.description@ == API_DESCRIPTION@,
            r.server_url@ == self.spec_base_url(),
            r.server_description@ == SERVER_DESCRIPTION@,
            r.paths@.len() == 2 * schemas@.len(),
            r.schemas@.len() == schemas@.len(),
            forall|i: int|
                0 <= i < schemas@.len() ==> {
                    &&& r.paths@[2 * i]@ == list_path_model((#[trigger] schemas@[i]).name@)
                    &&& r.paths@[2 * i + 1]@ == item_path_model(schemas@[i].name@)
                    &&& are_properties_of(
                        r.schemas@[i].properties@,
                        field_models(schemas@[i].fields@),
                    )
                    &&& name_texts(r.schemas@[i].required@) == required_names(
                        field_models(schemas@[i].fields@),
                    )
                },
    {
        let mut paths: Vec<PathDoc> = Vec::new();
        let mut docs: Vec<JsonSchemaDoc> = Vec::new();
        let mut i: usize = 0;
        while i < schemas.len()
            invariant
                i <= schemas@.len(),
                paths@.len() == 2 * i,
                docs@.len() == i,
                forall|k: int|
                    0 <= k < i ==> {
                        &&& paths@[2 * k]@ == list_path_model((#[trigger] schemas@[k]).name@)
                        &&& paths@[2 * k + 1]@ == item_path_model(schemas@[k].name@)
                        &&& are_properties_of(
                            docs@[k].properties@,
                            field_models(schemas@[k].fields@),
                        )
                        &&& name_texts(docs@[k].required@) == required_names(
                            field_models(schemas@[k].fields@),
                        )
                    },
            decreases schemas@.len() - i,
        {
            let schema = &schemas[i];
            let both = self.generate_collection_paths(schema.name.as_str());
            let doc = self.field_type_to_json_schema(schema);
            let ghost paths_before = paths@;
            let ghost docs_before = docs@;
            paths.push(both.0);
            paths.push(both.1);
            docs.push(doc);
            proof {
                assert forall|k: int| 0 <= k < i + 1 implies {
                    &&& paths@[2 * k]@ == list_path_model((#[trigger] schemas@[k]).name@)
                    &&& paths@[2 * k + 1]@ == item_path_model(schemas@[k].name@)
                    &&& are_properties_of(docs@[k].properties@, field_models(schemas@[k].fields@))
                    &&& name_texts(docs@[k].required@) == required_names(
                        field_models(schemas@[k].fields@),
                    )
                } by {
                    if k < i {
                        assert(paths@[2 * k] == paths_before[2 * k]);
                        assert(paths@[2 * k + 1] == paths_before[2 * k + 1]);
                        assert(docs@[k] == docs_before[k]);
                    }
                }
            }
            i = i + 1;
        }
        ApiDoc {
            openapi: OPENAPI_VERSION,
            title: owned(self.title()),
            version: owned(self.version()),
            description: API_DESCRIPTION,
            server_url: owned(self.base_url()),
            server_description: SERVER_DESCRIPTION,
            paths,
            schemas: docs,
        }
    }
}

} // verus!
