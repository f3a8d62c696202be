//! A versioned key-value store kept in a DynamoDB table, and the request handling in front of it.

pub mod clock;
pub mod dynamodb_store;
pub mod items;
pub mod list;
pub mod list_laws;
pub mod octets;
pub mod put;
pub mod put_laws;
pub mod records;
pub mod request_laws;
pub mod requests;
pub mod route_laws;
pub mod routes;
pub mod server;
pub mod table;
pub mod text;
pub mod types;
