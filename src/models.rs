use vstd::prelude::*;

verus! {

/// What the server reported about itself when the connection was made.
#[derive(Debug, Clone)]
pub struct ServerInfo {
    pub host: String,
    pub version: String,
}

/// Summary of one database on the server.
#[derive(Debug, Clone)]
pub struct DatabaseInfo {
    pub name: String,
    pub size_on_disk: u64,
    pub collection_count: usize,
}

/// Summary of one collection of a database.
#[derive(Debug, Clone)]
pub struct CollectionInfo {
    pub name: String,
    pub document_count: u64,
    pub indexes: Vec<String>,
}

} // verus!
