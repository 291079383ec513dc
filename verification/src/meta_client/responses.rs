//! What the meta client receives, read from messages.

use crate::meta_client::cluster;
use crate::meta_client::cluster::{code_role, decode_role};
use crate::meta_client::error::{result_view, Error, ErrorView, Result};
use crate::meta_client::meta_service;
use crate::meta_client::route_entries::RouteEntries;
use crate::meta_client::types::{
    AllocSchemaIdResponse, CreateTableResponse, DropTableResponse, GetNodesResponse,
    GetNodesResponseView, GetTablesOfShardsResponse, NodeShard, RouteEntry, RouteEntryView,
    RouteTablesResponse, RouteTablesResponseView, ShardId, ShardInfo, ShardRole, TableInfo,
    TablesOfShard, TablesOfShardView,
};
use std::collections::HashMap;
use vstd::prelude::*;
use vstd::std_specs::convert::{FromSpecImpl, TryFromSpecImpl};

verus! {

broadcast use vstd::std_specs::hash::group_hash_axioms;

/// The role that `pb_role` stands for.
pub open spec fn read_role(pb_role: cluster::ShardRole) -> ShardRole {
    match pb_role {
        cluster::ShardRole::Leader => ShardRole::Leader,
        cluster::ShardRole::Follower => ShardRole::Follower,
        cluster::ShardRole::PendingLeader => ShardRole::PendingLeader,
        cluster::ShardRole::PendingFollower => ShardRole::PendingFollower,
    }
}

impl From<cluster::ShardRole> for ShardRole {
    fn from(pb_role: cluster::ShardRole) -> Self {
        match pb_role {
            cluster::ShardRole::Leader => ShardRole::Leader,
            cluster::ShardRole::Follower => ShardRole::Follower,
            cluster::ShardRole::PendingLeader => ShardRole::PendingLeader,
            cluster::ShardRole::PendingFollower => ShardRole::PendingFollower,
        }
    }
}

impl FromSpecImpl<cluster::ShardRole> for ShardRole {
    open spec fn obeys_from_spec() -> bool {
        true
    }

    open spec fn from_spec(pb_role: cluster::ShardRole) -> Self {
        read_role(pb_role)
    }
}

/// The shard that a message speaks of.
pub open spec fn read_shard_info(pb_shard_info: meta_service::ShardInfo) -> ShardInfo {
    ShardInfo {
        id: pb_shard_info.id,
        role: read_role(code_role(pb_shard_info.role)),
        version: pb_shard_info.version,
    }
}

impl From<meta_service::ShardInfo> for ShardInfo {
    fn from(pb_shard_info: meta_service::ShardInfo) -> Self {
        ShardInfo {
            id: pb_shard_info.id,
            role: ShardRole::from(decode_role(pb_shard_info.role)),
            version: pb_shard_info.version,
        }
    }
}

impl FromSpecImpl<meta_service::ShardInfo> for ShardInfo {
    open spec fn obeys_from_spec() -> bool {
        true
    }

    open spec fn from_spec(pb_shard_info: meta_service::ShardInfo) -> Self {
        read_shard_info(pb_shard_info)
    }
}

/// The table that a message speaks of.
pub open spec fn read_table_info(pb_table_info: meta_service::TableInfo) -> TableInfo {
    TableInfo {
        id: pb_table_info.id,
        name: pb_table_info.name,
        schema_id: pb_table_info.schema_id,
        schema_name: pb_table_info.schema_name,
    }
}

impl From<meta_service::TableInfo> for TableInfo {
    fn from(pb_table_info: meta_service::TableInfo) -> Self {
        TableInfo {
            id: pb_table_info.id,
            name: pb_table_info.name,
            schema_id: pb_table_info.schema_id,
            schema_name: pb_table_info.schema_name,
        }
    }
}

impl FromSpecImpl<meta_service::TableInfo> for TableInfo {
    open spec fn obeys_from_spec() -> bool {
        true
    }

    open spec fn from_spec(pb_table_info: meta_service::TableInfo) -> Self {
        read_table_info(pb_table_info)
    }
}

impl From<meta_service::AllocSchemaIdResponse> for AllocSchemaIdResponse {
    fn from(pb_resp: meta_service::AllocSchemaIdResponse) -> Self {
        AllocSchemaIdResponse {
            name: pb_resp.name,
            id: pb_resp.id,
        }
    }
}

impl FromSpecImpl<meta_service::AllocSchemaIdResponse> for AllocSchemaIdResponse {
    open spec fn obeys_from_spec() -> bool {
        true
    }

    open spec fn from_spec(pb_resp: meta_service::AllocSchemaIdResponse) -> Self {
        AllocSchemaIdResponse {
            name: pb_resp.name,
            id: pb_resp.id,
        }
    }
}

impl From<meta_service::DropTableResponse> for DropTableResponse {
    fn from(pb_resp: meta_service::DropTableResponse) -> Self {
        DropTableResponse {
            dropped_table: match pb_resp.dropped_table {
                Some(table) => Some(TableInfo::from(table)),
                None => None,
            },
        }
    }
}

impl FromSpecImpl<meta_service::DropTableResponse> for DropTableResponse {
    open spec fn obeys_from_spec() -> bool {
        true
    }

    open spec fn from_spec(pb_resp: meta_service::DropTableResponse) -> Self {
        DropTableResponse {
            dropped_table: match pb_resp.dropped_table {
                Some(table) => Some(read_table_info(table)),
                None => None,
            },
        }
    }
}

/// The answer to the creation of a table, which has to tell of the table and of the shard
/// that it is in.
pub open spec fn read_create_table_response(
    pb_resp: meta_service::CreateTableResponse,
) -> std::result::Result<CreateTableResponse, ErrorView> {
    match (pb_resp.created_table, pb_resp.shard_info) {
        (None, _) => Err(
            ErrorView::MissingTableInfo {
                msg: "created table is not found in the create table response"@,
            },
        ),
        (Some(_), None) => Err(
            ErrorView::MissingShardInfo {
                msg: "shard info is not found in the create table response"@,
            },
        ),
        (Some(table), Some(shard)) => Ok(
            CreateTableResponse {
                created_table: read_table_info(table),
                shard_info: read_shard_info(shard),
            },
        ),
    }
}

impl TryFrom<meta_service::CreateTableResponse> for CreateTableResponse {
    type Error = Error;

    fn try_from(pb_resp: meta_service::CreateTableResponse) -> (r: Result<Self>)
        ensures
            result_view(r) == read_create_table_response(pb_resp),
    {
        let pb_table_info = match pb_resp.created_table {
            Some(table) => table,
            None => {
                return Err(
                    Error::MissingTableInfo {
                        msg: "created table is not found in the create table response".to_string(),
                    },
                );
            },
        };
        let pb_shard_info = match pb_resp.shard_info {
            Some(shard) => shard,
            None => {
                return Err(
                    Error::MissingShardInfo {
                        msg: "shard info is not found in the create table response".to_string(),
                    },
                );
            },
        };

        Ok(
            CreateTableResponse {
                created_table: TableInfo::from(pb_table_info),
                shard_info: ShardInfo::from(pb_shard_info),
            },
        )
    }
}

impl TryFromSpecImpl<meta_service::CreateTableResponse> for CreateTableResponse {
    open spec fn obeys_try_from_spec() -> bool {
        false
    }

    open spec fn try_from_spec(pb_resp: meta_service::CreateTableResponse) -> Result<Self> {
        arbitrary()
    }
}

/// A shard on a node, which has to be told of.
pub open spec fn read_node_shard(pb: meta_service::NodeShard) -> std::result::Result<
    NodeShard,
    ErrorView,
> {
    match pb.shard_info {
        Some(shard) => Ok(
            NodeShard { endpoint: pb.endpoint, shard_info: read_shard_info(shard) },
        ),
        None => Err(ErrorView::MissingShardInfo { msg: "in meta_service_pb::NodeShard"@ }),
    }
}

impl TryFrom<meta_service::NodeShard> for NodeShard {
    type Error = Error;

    fn try_from(pb: meta_service::NodeShard) -> (r: Result<Self>)
        ensures
            result_view(r) == read_node_shard(pb),
    {
        match pb.shard_info {
            Some(shard) => Ok(
                NodeShard { endpoint: pb.endpoint, shard_info: ShardInfo::from(shard) },
            ),
            None => Err(
                Error::MissingShardInfo { msg: "in meta_service_pb::NodeShard".to_string() },
            ),
        }
    }
}

impl TryFromSpecImpl<meta_service::NodeShard> for NodeShard {
    open spec fn obeys_try_from_spec() -> bool {
        false
    }

    open spec fn try_from_spec(pb: meta_service::NodeShard) -> Result<Self> {
        arbitrary()
    }
}

/// Shards on nodes in their order, all of which have to be told of.
pub open spec fn read_node_shards(pbs: Seq<meta_service::NodeShard>) -> std::result::Result<
    Seq<NodeShard>,
    ErrorView,
> {
    if forall|i: int| 0 <= i < pbs.len() ==> (#[trigger] pbs[i]).shard_info is Some {
        Ok(pbs.map_values(|pb: meta_service::NodeShard| read_node_shard(pb)->Ok_0))
    } else {
        Err(ErrorView::MissingShardInfo { msg: "in meta_service_pb::NodeShard"@ })
    }
}

/// Reads shards on nodes in their order.
fn node_shards(pb_node_shards: Vec<meta_service::NodeShard>) -> (r: Result<Vec<NodeShard>>)
    ensures
        result_view(r) == read_node_shards(pb_node_shards@),
{
    let mut node_shards: Vec<NodeShard> = Vec::with_capacity(pb_node_shards.len());
    let ghost all = pb_node_shards@;
    let ghost read = |pb: meta_service::NodeShard| read_node_shard(pb)->Ok_0;
    for pb_node_shard in iter: pb_node_shards.into_iter()
        invariant
            iter.seq() == all,
            read == (|pb: meta_service::NodeShard| read_node_shard(pb)->Ok_0),
            forall|i: int| 0 <= i < iter.index() ==> (#[trigger] all[i]).shard_info is Some,
            node_shards@ == all.take(iter.index()).map_values(read),
    {
        assert(pb_node_shard == all[iter.index()]);
        match NodeShard::try_from(pb_node_shard) {
            Ok(node_shard) => node_shards.push(node_shard),
            Err(error) => return Err(error),
        }
        assert(node_shards@ =~= all.take(iter.index() + 1).map_values(read));
    }
    assert(all.take(all.len() as int) =~= all);
    Ok(node_shards)
}

/// Where a table is: the table and the shards that it is in, all of which have to be
/// told of. A missing shard is found before a missing table.
pub open spec fn read_route_entry(pb_entry: meta_service::RouteEntry) -> std::result::Result<
    RouteEntryView,
    ErrorView,
> {
    match (read_node_shards(pb_entry.node_shards@), pb_entry.table) {
        (Err(error), _) => Err(error),
        (Ok(_), None) => Err(
            ErrorView::MissingTableInfo { msg: "table info is missing in route entry"@ },
        ),
        (Ok(node_shards), Some(table)) => Ok(
            RouteEntryView { table: read_table_info(table), node_shards },
        ),
    }
}

impl TryFrom<meta_service::RouteEntry> for RouteEntry {
    type Error = Error;

    fn try_from(pb_entry: meta_service::RouteEntry) -> (r: Result<Self>)
        ensures
            result_view(r) == read_route_entry(pb_entry),
    {
        let node_shards = match node_shards(pb_entry.node_shards) {
            Ok(node_shards) => node_shards,
            Err(error) => return Err(error),
        };

        match pb_entry.table {
            Some(table) => Ok(RouteEntry { table: TableInfo::from(table), node_shards }),
            None => Err(
                Error::MissingTableInfo {
                    msg: "table info is missing in route entry".to_string(),
                },
            ),
        }
    }
}

impl TryFromSpecImpl<meta_service::RouteEntry> for RouteEntry {
    open spec fn obeys_try_from_spec() -> bool {
        false
    }

    open spec fn try_from_spec(pb_entry: meta_service::RouteEntry) -> Result<Self> {
        arbitrary()
    }
}

/// The entries by the names of their tables. The first entry that cannot be read decides.
pub open spec fn read_route_entries(
    pairs: Seq<(String, meta_service::RouteEntry)>,
) -> std::result::Result<Map<Seq<char>, RouteEntryView>, ErrorView>
    decreases pairs.len(),
{
    if pairs.len() == 0 {
        Ok(Map::empty())
    } else {
        match (read_route_entries(pairs.drop_last()), read_route_entry(pairs.last().1)) {
            (Err(error), _) => Err(error),
            (Ok(_), Err(error)) => Err(error),
            (Ok(entries), Ok(entry)) => Ok(entries.insert(pairs.last().0@, entry)),
        }
    }
}

/// Where the tables of a query are.
pub open spec fn read_route_tables_response(
    pb_resp: meta_service::RouteTablesResponse,
) -> std::result::Result<RouteTablesResponseView, ErrorView> {
    match read_route_entries(pb_resp.entries@) {
        Ok(entries) => Ok(
            RouteTablesResponseView {
                cluster_topology_version: pb_resp.cluster_topology_version,
                entries,
            },
        ),
        Err(error) => Err(error),
    }
}

/// Once an entry cannot be read, those after it change nothing.
proof fn lemma_route_error_stays(pairs: Seq<(String, meta_service::RouteEntry)>, n: int)
    requires
        0 <= n <= pairs.len(),
        read_route_entries(pairs.take(n)) is Err,
    ensures
        read_route_entries(pairs) == read_route_entries(pairs.take(n)),
    decreases pairs.len(),
{
    if n == pairs.len() {
        assert(pairs.take(n) =~= pairs);
    } else {
        assert(pairs.drop_last().take(n) =~= pairs.take(n));
        lemma_route_error_stays(pairs.drop_last(), n);
    }
}

impl TryFrom<meta_service::RouteTablesResponse> for RouteTablesResponse {
    type Error = Error;

    fn try_from(pb_resp: meta_service::RouteTablesResponse) -> (r: Result<Self>)
        ensures
            result_view(r) == read_route_tables_response(pb_resp),
    {
        let mut entries = RouteEntries::with_capacity(pb_resp.entries.len());
        let ghost all = pb_resp.entries@;
        let ghost view = |entry: RouteEntry| entry@;
        assert(entries@.map_values(view) =~= Map::empty());
        for pair in iter: pb_resp.entries.into_iter()
            invariant
                iter.seq() == all,
                view == (|entry: RouteEntry| entry@),
                read_route_entries(all.take(iter.index())) == Ok::<_, ErrorView>(
                    entries@.map_values(view),
                ),
        {
            let ghost n = iter.index();
            let ghost before = entries@;
            assert(pair == all[n]);
            assert(all.take(n + 1).drop_last() =~= all.take(n));
            let (table_name, entry) = pair;
            match RouteEntry::try_from(entry) {
                Ok(route_entry) => {
                    entries.insert(table_name, route_entry);
                    assert(entries@.map_values(view) =~= before.map_values(view).insert(
                        table_name@,
                        route_entry@,
                    ));
                },
                Err(error) => {
                    proof {
                        lemma_route_error_stays(all, n + 1);
                    }
                    return Err(error);
                },
            }
        }
        assert(all.take(all.len() as int) =~= all);

        Ok(
            RouteTablesResponse {
                cluster_topology_version: pb_resp.cluster_topology_version,
                entries,
            },
        )
    }
}

impl TryFromSpecImpl<meta_service::RouteTablesResponse> for RouteTablesResponse {
    open spec fn obeys_try_from_spec() -> bool {
        false
    }

    open spec fn try_from_spec(pb_resp: meta_service::RouteTablesResponse) -> Result<Self> {
        arbitrary()
    }
}

/// The tables of a shard in their order; the shard has to be told of.
pub open spec fn read_tables_of_shard(
    pb_tables_of_shard: meta_service::TablesOfShard,
) -> std::result::Result<TablesOfShardView, ErrorView> {
    match pb_tables_of_shard.shard_info {
        Some(shard) => Ok(
            TablesOfShardView {
                shard_info: read_shard_info(shard),
                tables: pb_tables_of_shard.tables@.map_values(
                    |table: meta_service::TableInfo| read_table_info(table),
                ),
            },
        ),
        None => Err(ErrorView::MissingShardInfo { msg: "in meta_service_pb::TablesOfShard"@ }),
    }
}

impl TryFrom<meta_service::TablesOfShard> for TablesOfShard {
    type Error = Error;

    fn try_from(pb_tables_of_shard: meta_service::TablesOfShard) -> (r: Result<Self>)
        ensures
            result_view(r) == read_tables_of_shard(pb_tables_of_shard),
    {
        let shard_info = match pb_tables_of_shard.shard_info {
            Some(shard) => shard,
            None => {
                return Err(
                    Error::MissingShardInfo {
                        msg: "in meta_service_pb::TablesOfShard".to_string(),
                    },
                );
            },
        };
        let mut tables: Vec<TableInfo> = Vec::new();
        let ghost all = pb_tables_of_shard.tables@;
        let ghost read = |table: meta_service::TableInfo| read_table_info(table);
        for table in iter: pb_tables_of_shard.tables.into_iter()
            invariant
                iter.seq() == all,
                read == (|table: meta_service::TableInfo| read_table_info(table)),
                tables@ == all.take(iter.index()).map_values(read),
        {
            assert(table == all[iter.index()]);
            tables.push(TableInfo::from(table));
            assert(tables@ =~= all.take(iter.index() + 1).map_values(read));
        }
        assert(all.take(all.len() as int) =~= all);

        Ok(TablesOfShard { shard_info: ShardInfo::from(shard_info), tables })
    }
}

impl TryFromSpecImpl<meta_service::TablesOfShard> for TablesOfShard {
    open spec fn obeys_try_from_spec() -> bool {
        false
    }

    open spec fn try_from_spec(pb_tables_of_shard: meta_service::TablesOfShard) -> Result<Self> {
        arbitrary()
    }
}

/// The tables by the ids of their shards. The first shard that cannot be read decides.
pub open spec fn read_tables_by_shard(
    pairs: Seq<(ShardId, meta_service::TablesOfShard)>,
) -> std::result::Result<Map<ShardId, TablesOfShardView>, ErrorView>
    decreases pairs.len(),
{
    if pairs.len() == 0 {
        Ok(Map::empty())
    } else {
        match (read_tables_by_shard(pairs.drop_last()), read_tables_of_shard(pairs.last().1)) {
            (Err(error), _) => Err(error),
            (Ok(_), Err(error)) => Err(error),
            (Ok(tables_by_shard), Ok(tables)) => Ok(
                tables_by_shard.insert(pairs.last().0, tables),
            ),
        }
    }
}

/// The tables of the shards of a query.
pub open spec fn read_get_tables_of_shards_response(
    pb_resp: meta_service::GetTablesOfShardsResponse,
) -> std::result::Result<Map<ShardId, TablesOfShardView>, ErrorView> {
    read_tables_by_shard(pb_resp.tables_by_shard@)
}

/// Once a shard cannot be read, those after it change nothing.
proof fn lemma_shard_error_stays(pairs: Seq<(ShardId, meta_service::TablesOfShard)>, n: int)
    requires
        0 <= n <= pairs.len(),
        read_tables_by_shard(pairs.take(n)) is Err,
    ensures
        read_tables_by_shard(pairs) == read_tables_by_shard(pairs.take(n)),
    decreases pairs.len(),
{
    if n == pairs.len() {
        assert(pairs.take(n) =~= pairs);
    } else {
        assert(pairs.drop_last().take(n) =~= pairs.take(n));
        lemma_shard_error_stays(pairs.drop_last(), n);
    }
}

impl TryFrom<meta_service::GetTablesOfShardsResponse> for GetTablesOfShardsResponse {
    type Error = Error;

    fn try_from(pb_resp: meta_service::GetTablesOfShardsResponse) -> (r: Result<Self>)
        ensures
            result_view(r) == read_get_tables_of_shards_response(pb_resp),
    {
        let mut tables_by_shard: HashMap<ShardId, TablesOfShard> = HashMap::new();
        let ghost all = pb_resp.tables_by_shard@;
        let ghost view = |tables: TablesOfShard| tables@;
        assert(tables_by_shard@.map_values(view) =~= Map::empty());
        for pair in iter: pb_resp.tables_by_shard.into_iter()
            invariant
                iter.seq() == all,
                view == (|tables: TablesOfShard| tables@),
                read_tables_by_shard(all.take(iter.index())) == Ok::<_, ErrorView>(
                    tables_by_shard@.map_values(view),
                ),
        {
            let ghost n = iter.index();
            let ghost before = tables_by_shard@;
            assert(pair == all[n]);
            assert(all.take(n + 1).drop_last() =~= all.take(n));
            let (shard_id, pb_tables_of_shard) = pair;
            match TablesOfShard::try_from(pb_tables_of_shard) {
                Ok(tables_of_shard) => {
                    tables_by_shard.insert(shard_id, tables_of_shard);
                    assert(tables_by_shard@.map_values(view) =~= before.map_values(view).insert(
                        shard_id,
                        tables_of_shard@,
                    ));
                },
                Err(error) => {
                    proof {
                        lemma_shard_error_stays(all, n + 1);
                    }
                    return Err(error);
                },
            }
        }
        assert(all.take(all.len() as int) =~= all);

        Ok(GetTablesOfShardsResponse { tables_by_shard })
    }
}

impl TryFromSpecImpl<meta_service::GetTablesOfShardsResponse> for GetTablesOfShardsResponse {
    open spec fn obeys_try_from_spec() -> bool {
        false
    }

    open spec fn try_from_spec(pb_resp: meta_service::GetTablesOfShardsResponse) -> Result<Self> {
        arbitrary()
    }
}

/// The shards of the cluster and the nodes that they are on.
pub open spec fn read_get_nodes_response(
    pb_resp: meta_service::GetNodesResponse,
) -> std::result::Result<GetNodesResponseView, ErrorView> {
    match read_node_shards(pb_resp.node_shards@) {
        Ok(node_shards) => Ok(
            GetNodesResponseView {
                cluster_topology_version: pb_resp.cluster_topology_version,
                node_shards,
            },
        ),
        Err(error) => Err(error),
    }
}

impl TryFrom<meta_service::GetNodesResponse> for GetNodesResponse {
    type Error = Error;

    fn try_from(pb_resp: meta_service::GetNodesResponse) -> (r: Result<Self>)
        ensures
            result_view(r) == read_get_nodes_response(pb_resp),
    {
        match node_shards(pb_resp.node_shards) {
            Ok(node_shards) => Ok(
                GetNodesResponse {
                    cluster_topology_version: pb_resp.cluster_topology_version,
                    node_shards,
                },
            ),
            Err(error) => Err(error),
        }
    }
}

impl TryFromSpecImpl<meta_service::GetNodesResponse> for GetNodesResponse {
    open spec fn obeys_try_from_spec() -> bool {
        false
    }

    open spec fn try_from_spec(pb_resp: meta_service::GetNodesResponse) -> Result<Self> {
        arbitrary()
    }
}

} // verus!
