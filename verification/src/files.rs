//! Stored files: attachments and profile pictures.

use vstd::prelude::*;
use crate::db::{Statement, Value};
use crate::ids::FileId;
use crate::routing::{endpoint, route, Endpoint, Method};

verus! {

/// How many bytes of an upload are read, at most (ten megabytes); a longer
/// body is cut at this length.
pub const UPLOAD_LIMIT: u64 = 10000000;

/// Reads a file by id and name.
pub const ATTACHMENT_WITH_NAME_SQL: &'static str = "
            SELECT contents FROM files WHERE file_id=:id AND file_name=:name
        ";

/// Reads a file by id.
pub const ATTACHMENT_SQL: &'static str = "
            SELECT contents FROM files WHERE file_id=:id
        ";

/// Stores a file.
pub const UPLOAD_SQL: &'static str = "
            INSERT INTO files (file_name, contents)
            VALUES (:name, :data)
            RETURNING file_id
        ";

/// The statement that reads file `id` under `name`.
pub fn attachment_with_name(id: FileId, name: String) -> (r: Statement)
    ensures
        r.sql == ATTACHMENT_WITH_NAME_SQL,
        r.params@ == seq![(":id", Value::Int(id.0)), (":name", Value::Text(name))],
{
    Statement {
        sql: ATTACHMENT_WITH_NAME_SQL,
        params: vec![(":id", Value::Int(id.0)), (":name", Value::Text(name))],
    }
}

/// The statement that reads file `id`.
pub fn attachment(id: FileId) -> (r: Statement)
    ensures
        r.sql == ATTACHMENT_SQL,
        r.params@ == seq![(":id", Value::Int(id.0))],
{
    Statement { sql: ATTACHMENT_SQL, params: vec![(":id", Value::Int(id.0))] }
}

/// The statement that stores `data` as file `name`.
pub fn upload(name: String, data: Vec<u8>) -> (r: Statement)
    ensures
        r.sql == UPLOAD_SQL,
        r.params@ == seq![(":name", Value::Text(name)), (":data", Value::Blob(data))],
{
    Statement { sql: UPLOAD_SQL, params: vec![(":name", Value::Text(name)), (":data", Value::Blob(data))] }
}

/// The endpoints of the files module.
pub open spec fn file_routes_spec() -> Seq<Endpoint> {
    seq![
        endpoint(Method::Get, "/attachments/<id>/<name>"),
        endpoint(Method::Get, "/attachments/<id>"),
        endpoint(Method::Post, "/upload_file/<name>"),
    ]
}

/// The endpoints this module mounts.
pub fn routes() -> (r: Vec<Endpoint>)
    ensures
        r@ == file_routes_spec(),
{
    vec![
        route(Method::Get, "/attachments/<id>/<name>"),
        route(Method::Get, "/attachments/<id>"),
        route(Method::Post, "/upload_file/<name>"),
    ]
}

/// The files module mounts, in order: reading a file by id and name and by id (GET), and uploading one (POST).
pub proof fn law_file_endpoints()
    ensures
        file_routes_spec().len() == 3,
        file_routes_spec()[0] == (Endpoint { method: Method::Get, path: "/attachments/<id>/<name>", rank: None }),
        file_routes_spec()[1] == (Endpoint { method: Method::Get, path: "/attachments/<id>", rank: None }),
        file_routes_spec()[2] == (Endpoint { method: Method::Post, path: "/upload_file/<name>", rank: None }),
{
}

} // verus!
