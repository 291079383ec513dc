//! The messages that are exchanged with the meta service, as plain values.
//!
//! A map of a message is held as its pairs, in the order in which it is walked.

use std::collections::HashMap;
use vstd::prelude::*;

verus! {

#[derive(Debug)]
pub struct RequestHeader {
    pub node: String,
    pub cluster_name: String,
}

#[derive(Debug)]
pub struct AllocSchemaIdRequest {
    pub header: Option<RequestHeader>,
    pub name: String,
}

#[derive(Debug)]
pub struct AllocSchemaIdResponse {
    pub name: String,
    pub id: u32,
}

#[derive(Debug)]
pub struct CreateTableRequest {
    pub header: Option<RequestHeader>,
    pub schema_name: String,
    pub name: String,
    pub encoded_schema: Vec<u8>,
    pub engine: String,
    pub create_if_not_exist: bool,
    pub options: HashMap<String, String>,
}

#[derive(Debug)]
pub struct TableInfo {
    pub id: u64,
    pub name: String,
    pub schema_id: u32,
    pub schema_name: String,
}

#[derive(Debug)]
pub struct CreateTableResponse {
    pub created_table: Option<TableInfo>,
    pub shard_info: Option<ShardInfo>,
}

#[derive(Debug)]
pub struct GetTablesOfShardsRequest {
    pub header: Option<RequestHeader>,
    pub shard_ids: Vec<u32>,
}

#[derive(Debug)]
pub struct TablesOfShard {
    pub shard_info: Option<ShardInfo>,
    pub tables: Vec<TableInfo>,
}

#[derive(Debug)]
pub struct GetTablesOfShardsResponse {
    pub tables_by_shard: Vec<(u32, TablesOfShard)>,
}

#[derive(Debug)]
pub struct RouteTablesRequest {
    pub header: Option<RequestHeader>,
    pub schema_name: String,
    pub table_names: Vec<String>,
}

#[derive(Debug)]
pub struct NodeShard {
    pub endpoint: String,
    pub shard_info: Option<ShardInfo>,
}

#[derive(Debug)]
pub struct RouteEntry {
    pub table: Option<TableInfo>,
    pub node_shards: Vec<NodeShard>,
}

#[derive(Debug)]
pub struct RouteTablesResponse {
    pub cluster_topology_version: u64,
    pub entries: Vec<(String, RouteEntry)>,
}

#[derive(Debug)]
pub struct GetNodesRequest {
    pub header: Option<RequestHeader>,
}

#[derive(Debug)]
pub struct GetNodesResponse {
    pub cluster_topology_version: u64,
    pub node_shards: Vec<NodeShard>,
}

#[derive(Debug)]
pub struct DropTableRequest {
    pub header: Option<RequestHeader>,
    pub schema_name: String,
    pub name: String,
}

#[derive(Debug)]
pub struct DropTableResponse {
    pub dropped_table: Option<TableInfo>,
}

#[derive(Debug)]
pub struct ShardInfo {
    pub id: u32,

    /// The number of a role.
    pub role: i32,
    pub version: u64,
}

#[derive(Debug)]
pub struct NodeInfo {
    /// `ip:port`
    pub endpoint: String,
    pub lease: u32,
    pub zone: String,
    pub binary_version: String,
    pub shard_infos: Vec<ShardInfo>,
}

} // verus!
