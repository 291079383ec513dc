//! The types of the meta client.

use crate::meta_client::endpoint::{endpoint_text, format_endpoint};
use crate::meta_client::route_entries::RouteEntries;
use std::collections::HashMap;
use std::sync::Arc;
use vstd::prelude::*;

verus! {

pub type ShardId = u32;

pub type ShardVersion = u64;

pub type SchemaId = u32;

pub type SchemaName = String;

pub type TableId = u64;

pub type TableName = String;

pub type ClusterNodesRef = Arc<Vec<NodeShard>>;

#[derive(Clone, Debug)]
pub struct RequestHeader {
    pub node: String,
    pub cluster_name: String,
}

#[derive(Debug)]
pub struct AllocSchemaIdRequest {
    pub name: String,
}

#[derive(Debug)]
pub struct AllocSchemaIdResponse {
    pub name: String,
    pub id: SchemaId,
}

#[derive(Clone, Debug)]
pub struct CreateTableRequest {
    pub schema_name: String,
    pub name: String,
    pub encoded_schema: Vec<u8>,
    pub engine: String,
    pub create_if_not_exist: bool,
    pub options: HashMap<String, String>,
}

#[derive(Clone, Debug)]
pub struct CreateTableResponse {
    pub created_table: TableInfo,
    pub shard_info: ShardInfo,
}

#[derive(Clone, Debug)]
pub struct DropTableRequest {
    pub schema_name: String,
    pub name: String,
}

#[derive(Clone, Debug)]
pub struct DropTableResponse {
    /// The dropped table, none where there was no such table.
    pub dropped_table: Option<TableInfo>,
}

#[derive(Clone, Debug)]
pub struct GetTablesOfShardsRequest {
    pub shard_ids: Vec<ShardId>,
}

#[derive(Clone, Debug)]
pub struct GetTablesOfShardsResponse {
    pub tables_by_shard: HashMap<ShardId, TablesOfShard>,
}

#[derive(Debug)]
pub struct TableInfo {
    pub id: TableId,
    pub name: String,
    pub schema_id: SchemaId,
    pub schema_name: String,
}

impl Clone for TableInfo {
    fn clone(&self) -> (info: Self)
        ensures
            info == *self,
    {
        TableInfo {
            id: self.id,
            name: self.name.clone(),
            schema_id: self.schema_id,
            schema_name: self.schema_name.clone(),
        }
    }
}

#[derive(Clone, Debug)]
pub struct TablesOfShard {
    pub shard_info: ShardInfo,
    pub tables: Vec<TableInfo>,
}

/// A [`TablesOfShard`] with its tables as a sequence.
pub struct TablesOfShardView {
    pub shard_info: ShardInfo,
    pub tables: Seq<TableInfo>,
}

impl View for TablesOfShard {
    type V = TablesOfShardView;

    open spec fn view(&self) -> TablesOfShardView {
        TablesOfShardView { shard_info: self.shard_info, tables: self.tables@ }
    }
}

impl View for GetTablesOfShardsResponse {
    type V = Map<ShardId, TablesOfShardView>;

    open spec fn view(&self) -> Map<ShardId, TablesOfShardView> {
        self.tables_by_shard@.map_values(|tables: TablesOfShard| tables@)
    }
}

impl View for CreateTableResponse {
    type V = CreateTableResponse;

    open spec fn view(&self) -> CreateTableResponse {
        *self
    }
}

#[derive(Clone, Debug)]
pub struct NodeMetaInfo {
    pub addr: String,
    pub port: u16,
    pub zone: String,
    pub idc: String,
    pub binary_version: String,
}

impl Default for NodeMetaInfo {
    fn default() -> (info: Self)
        ensures
            info.addr@ == Seq::<char>::empty(),
            info.port == 0,
            info.zone@ == Seq::<char>::empty(),
            info.idc@ == Seq::<char>::empty(),
            info.binary_version@ == Seq::<char>::empty(),
    {
        NodeMetaInfo {
            addr: String::new(),
            port: 0,
            zone: String::new(),
            idc: String::new(),
            binary_version: String::new(),
        }
    }
}

impl NodeMetaInfo {
    /// Where the node is reached.
    pub fn endpoint(&self) -> (endpoint: String)
        ensures
            endpoint@ == endpoint_text(self.addr@, self.port),
    {
        format_endpoint(&self.addr, self.port)
    }
}

#[derive(Clone, Debug)]
pub struct NodeInfo {
    pub node_meta_info: NodeMetaInfo,
    pub shard_infos: Vec<ShardInfo>,
}

#[derive(Debug, PartialEq, Eq, Structural)]
pub struct ShardInfo {
    pub id: ShardId,
    pub role: ShardRole,
    pub version: ShardVersion,
}

impl Clone for ShardInfo {
    fn clone(&self) -> (info: Self)
        ensures
            info == *self,
    {
        ShardInfo { id: self.id, role: self.role, version: self.version }
    }
}

impl Default for ShardInfo {
    fn default() -> (info: Self)
        ensures
            info == (ShardInfo { id: 0, role: ShardRole::Leader, version: 0 }),
    {
        ShardInfo { id: 0, role: ShardRole::Leader, version: 0 }
    }
}

impl ShardInfo {
    /// Whether the shard is the leader.
    pub fn is_leader(&self) -> (b: bool)
        ensures
            b == (self.role == ShardRole::Leader),
    {
        self.role == ShardRole::Leader
    }
}

#[derive(Clone, Copy, Debug, PartialEq, Eq, Structural)]
pub enum ShardRole {
    Leader,
    Follower,
    PendingLeader,
    PendingFollower,
}

impl Default for ShardRole {
    fn default() -> (role: Self)
        ensures
            role == ShardRole::Leader,
    {
        ShardRole::Leader
    }
}

/// A span of time: whole seconds and the nanoseconds of the last one.
#[derive(Clone, Copy, Debug, PartialEq, Eq, Structural)]
pub struct ReadableDuration {
    pub secs: u64,
    pub nanos: u32,
}

impl ReadableDuration {
    /// The nanoseconds make up less than a second.
    pub open spec fn wf(self) -> bool {
        self.nanos < 1_000_000_000
    }

    /// `secs` seconds.
    pub fn secs(secs: u64) -> (duration: Self)
        ensures
            duration == (ReadableDuration { secs, nanos: 0 }),
            duration.wf(),
    {
        ReadableDuration { secs, nanos: 0 }
    }
}

#[derive(Clone, Debug)]
pub struct MetaClientConfig {
    pub cluster_name: String,
    pub meta_addr: String,
    pub meta_members_url: String,
    pub lease: ReadableDuration,
    pub timeout: ReadableDuration,
    pub cq_count: usize,
}

impl Default for MetaClientConfig {
    fn default() -> (config: Self)
        ensures
            config.cluster_name@ == Seq::<char>::empty(),
            config.meta_addr@ == "127.0.0.1:8080"@,
            config.meta_members_url@ == "ceresmeta/members"@,
            config.lease == (ReadableDuration { secs: 10, nanos: 0 }),
            config.timeout == (ReadableDuration { secs: 5, nanos: 0 }),
            config.cq_count == 8,
    {
        MetaClientConfig {
            cluster_name: String::new(),
            meta_addr: "127.0.0.1:8080".to_string(),
            meta_members_url: "ceresmeta/members".to_string(),
            lease: ReadableDuration::secs(10),
            timeout: ReadableDuration::secs(5),
            cq_count: 8,
        }
    }
}

#[derive(Clone, Debug)]
pub struct RouteTablesRequest {
    pub schema_name: SchemaName,
    pub table_names: Vec<String>,
}

#[derive(Debug, PartialEq, Eq)]
pub struct NodeShard {
    pub endpoint: String,
    pub shard_info: ShardInfo,
}

impl Clone for NodeShard {
    fn clone(&self) -> (node_shard: Self)
        ensures
            node_shard == *self,
    {
        NodeShard { endpoint: self.endpoint.clone(), shard_info: self.shard_info.clone() }
    }
}

impl View for NodeShard {
    type V = NodeShard;

    open spec fn view(&self) -> NodeShard {
        *self
    }
}

#[derive(Debug)]
pub struct RouteEntry {
    pub table: TableInfo,
    pub node_shards: Vec<NodeShard>,
}

impl Clone for RouteEntry {
    fn clone(&self) -> (entry: Self)
        ensures
            entry@ == self@,
    {
        let node_shards = self.node_shards.clone();
        assert(node_shards@ =~= self.node_shards@);
        RouteEntry { table: self.table.clone(), node_shards }
    }
}

/// A [`RouteEntry`] with its shards as a sequence.
pub struct RouteEntryView {
    pub table: TableInfo,
    pub node_shards: Seq<NodeShard>,
}

impl View for RouteEntry {
    type V = RouteEntryView;

    open spec fn view(&self) -> RouteEntryView {
        RouteEntryView { table: self.table, node_shards: self.node_shards@ }
    }
}

#[derive(Debug)]
pub struct RouteTablesResponse {
    pub cluster_topology_version: u64,
    pub entries: RouteEntries,
}

impl Clone for RouteTablesResponse {
    fn clone(&self) -> (response: Self)
        ensures
            response@ == self@,
    {
        let entries = self.entries.clone();
        assert(entries@.map_values(|entry: RouteEntry| entry@) =~= self.entries@.map_values(
            |entry: RouteEntry| entry@,
        ));
        RouteTablesResponse { cluster_topology_version: self.cluster_topology_version, entries }
    }
}

/// A [`RouteTablesResponse`] with its entries as a map from the texts of their names.
pub struct RouteTablesResponseView {
    pub cluster_topology_version: u64,
    pub entries: Map<Seq<char>, RouteEntryView>,
}

impl RouteTablesResponseView {
    /// There is an entry for each of `tables`.
    pub open spec fn has_each(self, tables: Seq<TableName>) -> bool {
        forall|i: int|
            0 <= i < tables.len() ==> self.entries.contains_key(#[trigger] tables[i]@)
    }
}

impl View for RouteTablesResponse {
    type V = RouteTablesResponseView;

    open spec fn view(&self) -> RouteTablesResponseView {
        RouteTablesResponseView {
            cluster_topology_version: self.cluster_topology_version,
            entries: self.entries@.map_values(|entry: RouteEntry| entry@),
        }
    }
}

impl RouteTablesResponse {
    /// Whether there is an entry for each of the queried tables.
    pub fn contains_all_tables(&self, queried_tables: &[TableName]) -> (b: bool)
        ensures
            b == self@.has_each(queried_tables@),
    {
        for i in 0..queried_tables.len()
            invariant
                forall|j: int|
                    0 <= j < i ==> self@.entries.contains_key(#[trigger] queried_tables@[j]@),
        {
            if !self.entries.contains_key(&queried_tables[i]) {
                assert(!self@.entries.contains_key(queried_tables@[i as int]@));
                return false;
            }
        }
        true
    }
}

#[derive(Clone, Debug)]
pub struct GetNodesRequest {}

impl Default for GetNodesRequest {
    fn default() -> (request: Self)
        ensures
            request == (GetNodesRequest {  }),
    {
        GetNodesRequest {  }
    }
}

pub struct GetNodesResponse {
    pub cluster_topology_version: u64,
    pub node_shards: Vec<NodeShard>,
}

/// A [`GetNodesResponse`] with its shards as a sequence.
pub struct GetNodesResponseView {
    pub cluster_topology_version: u64,
    pub node_shards: Seq<NodeShard>,
}

impl View for GetNodesResponse {
    type V = GetNodesResponseView;

    open spec fn view(&self) -> GetNodesResponseView {
        GetNodesResponseView {
            cluster_topology_version: self.cluster_topology_version,
            node_shards: self.node_shards@,
        }
    }
}

} // verus!
