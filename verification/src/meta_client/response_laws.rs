//! What the client takes an answer of the meta service to say, whatever the answer is.

use crate::meta_client::cluster;
use crate::meta_client::error::{Error, Result};
use crate::meta_client::laws::{
    law_first_unreadable_entry_decides, law_routing_is_read_when_all_entries_are,
    law_routing_knows_the_named_tables, law_tables_are_read_when_all_shards_are_told_of,
};
use crate::meta_client::meta_service;
use crate::meta_client::responses::{
    read_node_shards, read_route_entries, read_route_entry, read_route_tables_response,
    read_tables_by_shard, read_tables_of_shard,
};
use crate::meta_client::route_entries::RouteEntries;
use crate::meta_client::types::{
    AllocSchemaIdResponse, CreateTableResponse, DropTableResponse, GetNodesResponse,
    GetTablesOfShardsResponse, NodeShard, RouteEntry, RouteTablesResponse, ShardId, ShardInfo,
    ShardRole, TableInfo, TableName, TablesOfShard,
};
use vstd::prelude::*;

verus! {

/// Each role of a message is read as the role of the same name.
pub proof fn law_role_is_read_by_its_name(message: cluster::ShardRole, role: ShardRole)
    requires
        call_ensures(<ShardRole as From<cluster::ShardRole>>::from, (message,), role),
    ensures
        role is Leader <==> message is Leader,
        role is Follower <==> message is Follower,
        role is PendingLeader <==> message is PendingLeader,
        role is PendingFollower <==> message is PendingFollower,
{
}

/// A shard is read with the id and the version of its message and with the role whose number
/// the message gives. It is the leader unless the number is that of another role.
pub proof fn law_shard_is_read_as_told(
    message: meta_service::ShardInfo,
    shard_info: ShardInfo,
    is_leader: bool,
)
    requires
        call_ensures(<ShardInfo as From<meta_service::ShardInfo>>::from, (message,), shard_info),
        call_ensures(ShardInfo::is_leader, (&shard_info,), is_leader),
    ensures
        shard_info.id == message.id,
        shard_info.version == message.version,
        shard_info.role is Follower <==> message.role == 1,
        shard_info.role is PendingLeader <==> message.role == 2,
        shard_info.role is PendingFollower <==> message.role == 3,
        is_leader <==> shard_info.role is Leader,
        is_leader <==> !(1 <= message.role <= 3),
{
}

/// A shard that has been read is told of by the message that it was read from, if its role is
/// one of the protocol, and a shard that has been told of is read as it was.
pub proof fn law_shard_goes_there_and_back(
    message: meta_service::ShardInfo,
    shard_info: ShardInfo,
    message_again: meta_service::ShardInfo,
    shard_info_again: ShardInfo,
)
    requires
        call_ensures(<ShardInfo as From<meta_service::ShardInfo>>::from, (message,), shard_info),
        call_ensures(
            <meta_service::ShardInfo as From<ShardInfo>>::from,
            (shard_info,),
            message_again,
        ),
        call_ensures(
            <ShardInfo as From<meta_service::ShardInfo>>::from,
            (message_again,),
            shard_info_again,
        ),
    ensures
        0 <= message.role <= 3 ==> message_again == message,
        shard_info_again == shard_info,
{
}

/// A shard that nothing is said of is read as the default one.
pub proof fn law_default_shard_is_that_of_an_empty_message(
    message: meta_service::ShardInfo,
    shard_info: ShardInfo,
    default: ShardInfo,
    default_role: ShardRole,
)
    requires
        message.id == 0,
        message.role == 0,
        message.version == 0,
        call_ensures(<ShardInfo as From<meta_service::ShardInfo>>::from, (message,), shard_info),
        call_ensures(<ShardInfo as Default>::default, (), default),
        call_ensures(<ShardRole as Default>::default, (), default_role),
    ensures
        default == shard_info,
        default_role == shard_info.role,
{
}

/// A table is read with the ids and the names of its message.
pub proof fn law_table_is_read_as_told(message: meta_service::TableInfo, table: TableInfo)
    requires
        call_ensures(<TableInfo as From<meta_service::TableInfo>>::from, (message,), table),
    ensures
        table.id == message.id,
        table.name@ == message.name@,
        table.schema_id == message.schema_id,
        table.schema_name@ == message.schema_name@,
{
}

/// The id of a schema is read as it was given, under the name that it was given for.
pub proof fn law_schema_id_is_read_as_told(
    message: meta_service::AllocSchemaIdResponse,
    response: AllocSchemaIdResponse,
)
    requires
        call_ensures(
            <AllocSchemaIdResponse as From<meta_service::AllocSchemaIdResponse>>::from,
            (message,),
            response,
        ),
    ensures
        response.id == message.id,
        response.name@ == message.name@,
{
}

/// The table that has been dropped is the one that the answer tells of, and there is none
/// exactly when the answer tells of none.
pub proof fn law_dropped_table_is_read_as_told(
    message: meta_service::DropTableResponse,
    response: DropTableResponse,
)
    requires
        call_ensures(
            <DropTableResponse as From<meta_service::DropTableResponse>>::from,
            (message,),
            response,
        ),
    ensures
        response.dropped_table is None <==> message.dropped_table is None,
        response.dropped_table matches Some(table) ==> {
            let told = message.dropped_table->Some_0;
            &&& table.id == told.id
            &&& table.name@ == told.name@
            &&& table.schema_id == told.schema_id
            &&& table.schema_name@ == told.schema_name@
        },
{
}

/// The table that has been created and its shard are those that the answer tells of. An answer
/// that does not tell of both is refused, a missing table before a missing shard.
pub proof fn law_created_table_is_read_as_told(
    message: meta_service::CreateTableResponse,
    r: Result<CreateTableResponse>,
)
    requires
        call_ensures(
            <CreateTableResponse as TryFrom<meta_service::CreateTableResponse>>::try_from,
            (message,),
            r,
        ),
    ensures
        r is Ok <==> message.created_table is Some && message.shard_info is Some,
        r matches Ok(response) ==> {
            let table = message.created_table->Some_0;
            let shard = message.shard_info->Some_0;
            &&& response.created_table.id == table.id
            &&& response.created_table.name@ == table.name@
            &&& response.created_table.schema_id == table.schema_id
            &&& response.created_table.schema_name@ == table.schema_name@
            &&& response.shard_info.id == shard.id
            &&& response.shard_info.version == shard.version
            &&& response.shard_info.role is Follower <==> shard.role == 1
            &&& response.shard_info.role is PendingLeader <==> shard.role == 2
            &&& response.shard_info.role is PendingFollower <==> shard.role == 3
        },
        message.created_table is None ==> (r matches Err(Error::MissingTableInfo { msg }) && msg@
            == "created table is not found in the create table response"@),
        message.created_table is Some && message.shard_info is None ==> (r matches Err(
            Error::MissingShardInfo { msg },
        ) && msg@ == "shard info is not found in the create table response"@),
{
}

/// A shard on a node is read under the endpoint of its message and as the message tells of it,
/// and is refused when the message does not tell of it.
pub proof fn law_node_shard_is_read_as_told(message: meta_service::NodeShard, r: Result<NodeShard>)
    requires
        call_ensures(
            <NodeShard as TryFrom<meta_service::NodeShard>>::try_from,
            (message,),
            r,
        ),
    ensures
        r is Ok <==> message.shard_info is Some,
        r matches Ok(node_shard) ==> {
            let shard = message.shard_info->Some_0;
            &&& node_shard.endpoint@ == message.endpoint@
            &&& node_shard.shard_info.id == shard.id
            &&& node_shard.shard_info.version == shard.version
            &&& node_shard.shard_info.role is Follower <==> shard.role == 1
            &&& node_shard.shard_info.role is PendingLeader <==> shard.role == 2
            &&& node_shard.shard_info.role is PendingFollower <==> shard.role == 3
        },
        message.shard_info is None ==> (r matches Err(Error::MissingShardInfo { msg }) && msg@
            == "in meta_service_pb::NodeShard"@),
{
}

/// The route of a table is read as it was told: the table of the message, and each of its
/// shards, in their order, under its own endpoint and with its own id, version and role. A route
/// that leaves out a shard is refused, and so is one that leaves out only the table.
pub proof fn law_route_is_read_as_told(message: meta_service::RouteEntry, r: Result<RouteEntry>)
    requires
        call_ensures(
            <RouteEntry as TryFrom<meta_service::RouteEntry>>::try_from,
            (message,),
            r,
        ),
    ensures
        r is Ok <==> message.table is Some && forall|i: int|
            0 <= i < message.node_shards@.len() ==> (
            #[trigger] message.node_shards@[i]).shard_info is Some,
        r matches Ok(entry) ==> {
            let table = message.table->Some_0;
            &&& entry.table.id == table.id
            &&& entry.table.name@ == table.name@
            &&& entry.table.schema_id == table.schema_id
            &&& entry.table.schema_name@ == table.schema_name@
            &&& entry.node_shards@.len() == message.node_shards@.len()
            &&& forall|i: int|
                0 <= i < message.node_shards@.len() ==> {
                    let node_shard = #[trigger] entry.node_shards@[i];
                    let shard = message.node_shards@[i].shard_info->Some_0;
                    &&& node_shard.endpoint@ == message.node_shards@[i].endpoint@
                    &&& node_shard.shard_info.id == shard.id
                    &&& node_shard.shard_info.version == shard.version
                    &&& node_shard.shard_info.role is Follower <==> shard.role == 1
                    &&& node_shard.shard_info.role is PendingLeader <==> shard.role == 2
                    &&& node_shard.shard_info.role is PendingFollower <==> shard.role == 3
                }
        },
        (exists|i: int|
            0 <= i < message.node_shards@.len() && (
            #[trigger] message.node_shards@[i]).shard_info is None) ==> (r matches Err(
            Error::MissingShardInfo { msg },
        ) && msg@ == "in meta_service_pb::NodeShard"@),
        message.table is None && (forall|i: int|
            0 <= i < message.node_shards@.len() ==> (
            #[trigger] message.node_shards@[i]).shard_info is Some) ==> (r matches Err(
            Error::MissingTableInfo { msg },
        ) && msg@ == "table info is missing in route entry"@),
{
}

/// The tables of a shard are read as they were told: the shard of the message with its own id,
/// version and role, and each of the tables in their order. Without the shard they are refused.
pub proof fn law_tables_of_shard_are_read_as_told(
    message: meta_service::TablesOfShard,
    r: Result<TablesOfShard>,
)
    requires
        call_ensures(
            <TablesOfShard as TryFrom<meta_service::TablesOfShard>>::try_from,
            (message,),
            r,
        ),
    ensures
        r is Ok <==> message.shard_info is Some,
        r matches Ok(tables_of_shard) ==> {
            let shard = message.shard_info->Some_0;
            &&& tables_of_shard.shard_info.id == shard.id
            &&& tables_of_shard.shard_info.version == shard.version
            &&& tables_of_shard.shard_info.role is Follower <==> shard.role == 1
            &&& tables_of_shard.shard_info.role is PendingLeader <==> shard.role == 2
            &&& tables_of_shard.shard_info.role is PendingFollower <==> shard.role == 3
            &&& tables_of_shard.tables@.len() == message.tables@.len()
            &&& forall|i: int|
                0 <= i < message.tables@.len() ==> {
                    let table = #[trigger] tables_of_shard.tables@[i];
                    let told = message.tables@[i];
                    &&& table.id == told.id
                    &&& table.name@ == told.name@
                    &&& table.schema_id == told.schema_id
                    &&& table.schema_name@ == told.schema_name@
                }
        },
        message.shard_info is None ==> (r matches Err(Error::MissingShardInfo { msg }) && msg@
            == "in meta_service_pb::TablesOfShard"@),
{
}

/// The shard of tables that have been read is told of by the shard info of their message, if its
/// role is one of the protocol.
pub proof fn law_shard_of_tables_goes_back(
    message: meta_service::TablesOfShard,
    tables_of_shard: TablesOfShard,
    told: meta_service::ShardInfo,
)
    requires
        call_ensures(
            <TablesOfShard as TryFrom<meta_service::TablesOfShard>>::try_from,
            (message,),
            Ok(tables_of_shard),
        ),
        call_ensures(
            <meta_service::ShardInfo as From<ShardInfo>>::from,
            (tables_of_shard.shard_info,),
            told,
        ),
    ensures
        message.shard_info matches Some(shard) && (0 <= shard.role <= 3 ==> told == shard),
{
}

/// The shards of the cluster are read as they were told, in their order: each under the endpoint
/// of its own message and with its own id, version and role. Nothing is read when one of them is
/// left out.
pub proof fn law_nodes_are_read_as_told(
    message: meta_service::GetNodesResponse,
    r: Result<GetNodesResponse>,
)
    requires
        call_ensures(
            <GetNodesResponse as TryFrom<meta_service::GetNodesResponse>>::try_from,
            (message,),
            r,
        ),
    ensures
        r is Ok <==> forall|i: int|
            0 <= i < message.node_shards@.len() ==> (
            #[trigger] message.node_shards@[i]).shard_info is Some,
        r matches Ok(response) ==> {
            &&& response.cluster_topology_version == message.cluster_topology_version
            &&& response.node_shards@.len() == message.node_shards@.len()
            &&& forall|i: int|
                0 <= i < message.node_shards@.len() ==> {
                    let node_shard = #[trigger] response.node_shards@[i];
                    let shard = message.node_shards@[i].shard_info->Some_0;
                    &&& node_shard.endpoint@ == message.node_shards@[i].endpoint@
                    &&& node_shard.shard_info.id == shard.id
                    &&& node_shard.shard_info.version == shard.version
                    &&& node_shard.shard_info.role is Follower <==> shard.role == 1
                    &&& node_shard.shard_info.role is PendingLeader <==> shard.role == 2
                    &&& node_shard.shard_info.role is PendingFollower <==> shard.role == 3
                }
        },
        r matches Err(error) ==> error matches Error::MissingShardInfo { msg } && msg@
            == "in meta_service_pb::NodeShard"@,
{
}

/// A routing answer is read exactly when each of its routes tells of its table and of all its
/// shards, and it then holds the version of the cluster that the answer gives.
pub proof fn law_routing_is_read_when_complete(
    message: meta_service::RouteTablesResponse,
    r: Result<RouteTablesResponse>,
)
    requires
        call_ensures(
            <RouteTablesResponse as TryFrom<meta_service::RouteTablesResponse>>::try_from,
            (message,),
            r,
        ),
    ensures
        r is Ok <==> forall|n: int|
            0 <= n < message.entries@.len() ==> {
                let told = (#[trigger] message.entries@[n]).1;
                told.table is Some && forall|i: int|
                    0 <= i < told.node_shards@.len() ==> (
                    #[trigger] told.node_shards@[i]).shard_info is Some
            },
        r matches Ok(response) ==> response.cluster_topology_version
            == message.cluster_topology_version,
{
    law_routing_is_read_when_all_entries_are(message.entries@);
}

/// The first route that is not complete decides why a routing answer is refused: for one of its
/// shards, or else for its table.
pub proof fn law_first_incomplete_route_is_refused(
    message: meta_service::RouteTablesResponse,
    r: Result<RouteTablesResponse>,
    n: int,
)
    requires
        call_ensures(
            <RouteTablesResponse as TryFrom<meta_service::RouteTablesResponse>>::try_from,
            (message,),
            r,
        ),
        0 <= n < message.entries@.len(),
        forall|m: int|
            0 <= m < n ==> {
                let told = (#[trigger] message.entries@[m]).1;
                told.table is Some && forall|i: int|
                    0 <= i < told.node_shards@.len() ==> (
                    #[trigger] told.node_shards@[i]).shard_info is Some
            },
    ensures
        ({
            let told = message.entries@[n].1;
            &&& (exists|i: int|
                0 <= i < told.node_shards@.len() && (
                #[trigger] told.node_shards@[i]).shard_info is None) ==> (r matches Err(
                Error::MissingShardInfo { msg },
            ) && msg@ == "in meta_service_pb::NodeShard"@)
            &&& told.table is None && (forall|i: int|
                0 <= i < told.node_shards@.len() ==> (
                #[trigger] told.node_shards@[i]).shard_info is Some) ==> (r matches Err(
                Error::MissingTableInfo { msg },
            ) && msg@ == "table info is missing in route entry"@)
        }),
{
    let pairs = message.entries@;
    assert forall|m: int| 0 <= m < n implies read_route_entry((#[trigger] pairs[m]).1) is Ok by {
        assert(read_node_shards(pairs[m].1.node_shards@) is Ok);
    }
    if read_route_entry(pairs[n].1) is Err {
        law_first_unreadable_entry_decides(pairs, n);
    }
}

/// Of several entries for a name the last one is read.
proof fn lemma_last_entry_is_read(pairs: Seq<(String, meta_service::RouteEntry)>, n: int)
    requires
        0 <= n < pairs.len(),
        forall|j: int| n < j < pairs.len() ==> (#[trigger] pairs[j]).0@ != pairs[n].0@,
        read_route_entries(pairs) is Ok,
    ensures
        read_route_entries(pairs)->Ok_0.contains_key(pairs[n].0@),
        read_route_entry(pairs[n].1) is Ok,
        read_route_entry(pairs[n].1)->Ok_0 == read_route_entries(pairs)->Ok_0[pairs[n].0@],
    decreases pairs.len(),
{
    let init = pairs.drop_last();
    if n < init.len() {
        assert forall|j: int| n < j < init.len() implies (#[trigger] init[j]).0@
            != init[n].0@ by {
            assert(init[j] == pairs[j]);
        }
        lemma_last_entry_is_read(init, n);
        assert(pairs[pairs.len() - 1].0@ != pairs[n].0@);
    }
}

/// What is found for a table is the route that the answer gives under its name: the table of that
/// route, and each of its shards, in their order, under its own endpoint and with its own id,
/// version and role. Where a name occurs more than once, its last route counts.
pub proof fn law_route_is_found_as_told(
    message: meta_service::RouteTablesResponse,
    response: RouteTablesResponse,
    name: String,
    found: Option<&RouteEntry>,
    n: int,
)
    requires
        call_ensures(
            <RouteTablesResponse as TryFrom<meta_service::RouteTablesResponse>>::try_from,
            (message,),
            Ok(response),
        ),
        call_ensures(RouteEntries::get, (&response.entries, &name), found),
        0 <= n < message.entries@.len(),
        message.entries@[n].0@ == name@,
        forall|j: int|
            n < j < message.entries@.len() ==> (#[trigger] message.entries@[j]).0@ != name@,
    ensures
        found matches Some(entry) && {
            let told = message.entries@[n].1;
            let table = told.table->Some_0;
            &&& entry.table.id == table.id
            &&& entry.table.name@ == table.name@
            &&& entry.table.schema_id == table.schema_id
            &&& entry.table.schema_name@ == table.schema_name@
            &&& entry.node_shards@.len() == told.node_shards@.len()
            &&& forall|i: int|
                0 <= i < told.node_shards@.len() ==> {
                    let node_shard = #[trigger] entry.node_shards@[i];
                    let shard = told.node_shards@[i].shard_info->Some_0;
                    &&& node_shard.endpoint@ == told.node_shards@[i].endpoint@
                    &&& node_shard.shard_info.id == shard.id
                    &&& node_shard.shard_info.version == shard.version
                    &&& node_shard.shard_info.role is Follower <==> shard.role == 1
                    &&& node_shard.shard_info.role is PendingLeader <==> shard.role == 2
                    &&& node_shard.shard_info.role is PendingFollower <==> shard.role == 3
                }
        },
{
    lemma_last_entry_is_read(message.entries@, n);
    let told = message.entries@[n].1;
    let entry = read_route_entry(told)->Ok_0;
    assert(response@.entries.contains_key(name@));
    assert(response.entries@.contains_key(name@));
    assert(response.entries@[name@]@ == response@.entries[name@]);
    assert(entry == response.entries@[name@]@);
    assert(read_node_shards(told.node_shards@) is Ok);
}

/// Nothing is found for a table that the answer does not name.
pub proof fn law_unnamed_table_is_not_found(
    message: meta_service::RouteTablesResponse,
    response: RouteTablesResponse,
    name: String,
    found: Option<&RouteEntry>,
)
    requires
        call_ensures(
            <RouteTablesResponse as TryFrom<meta_service::RouteTablesResponse>>::try_from,
            (message,),
            Ok(response),
        ),
        call_ensures(RouteEntries::get, (&response.entries, &name), found),
        forall|n: int|
            0 <= n < message.entries@.len() ==> (#[trigger] message.entries@[n]).0@ != name@,
    ensures
        found is None,
{
    law_routing_knows_the_named_tables(message);
    let read = read_route_tables_response(message)->Ok_0;
    assert(read == response@);
    assert(!read.entries.contains_key(name@));
    assert(response@.entries.contains_key(name@) == response.entries@.contains_key(name@));
}

/// A routing answer covers a query exactly when it names each of the queried tables.
pub proof fn law_query_is_covered_by_the_named_tables(
    message: meta_service::RouteTablesResponse,
    response: RouteTablesResponse,
    queried: &[TableName],
    covered: bool,
)
    requires
        call_ensures(
            <RouteTablesResponse as TryFrom<meta_service::RouteTablesResponse>>::try_from,
            (message,),
            Ok(response),
        ),
        call_ensures(RouteTablesResponse::contains_all_tables, (&response, queried), covered),
    ensures
        covered <==> forall|i: int|
            0 <= i < queried@.len() ==> exists|n: int|
                0 <= n < message.entries@.len() && (#[trigger] message.entries@[n]).0@
                    == (#[trigger] queried@[i])@,
{
    law_routing_knows_the_named_tables(message);
    let read = read_route_tables_response(message)->Ok_0;
    assert(read == response@);
    if covered {
        assert forall|i: int| 0 <= i < queried@.len() implies exists|n: int|
            0 <= n < message.entries@.len() && (#[trigger] message.entries@[n]).0@
                == (#[trigger] queried@[i])@ by {
            assert(response@.entries.contains_key(queried@[i]@));
            let name = queried@[i]@;
            assert(read.entries.contains_key(name));
        }
    } else {
        let i = choose|i: int|
            0 <= i < queried@.len() && !response@.entries.contains_key(#[trigger] queried@[i]@);
        let name = queried@[i]@;
        assert(!read.entries.contains_key(name));
        assert(queried@[i]@ == name);
    }
}

/// A walk over the entries comes by each name once, with the entry that is found for it, and by
/// every name for which there is an entry.
pub proof fn law_walk_comes_by_each_entry_once(
    entries: RouteEntries,
    pairs: &[(String, RouteEntry)],
    len: usize,
    name: String,
    found: Option<&RouteEntry>,
    known: bool,
)
    requires
        call_ensures(RouteEntries::as_slice, (&entries,), pairs),
        call_ensures(RouteEntries::len, (&entries,), len),
        call_ensures(RouteEntries::get, (&entries, &name), found),
        call_ensures(RouteEntries::contains_key, (&entries, &name), known),
    ensures
        len == pairs@.len(),
        known <==> found is Some,
        found is Some <==> exists|i: int|
            0 <= i < pairs@.len() && (#[trigger] pairs@[i]).0@ == name@,
        forall|i: int|
            0 <= i < pairs@.len() && (#[trigger] pairs@[i]).0@ == name@ ==> found == Some(
                &pairs@[i].1,
            ),
        forall|i: int, j: int|
            0 <= i < pairs@.len() && 0 <= j < pairs@.len() && (#[trigger] pairs@[i]).0@ == name@ && (
            #[trigger] pairs@[j]).0@ == name@ ==> i == j,
{
}

/// A clone of a routing answer finds for each name what the answer itself finds.
pub proof fn law_cloned_routing_finds_the_same(
    response: RouteTablesResponse,
    clone: RouteTablesResponse,
    name: String,
    found: Option<&RouteEntry>,
    found_in_clone: Option<&RouteEntry>,
)
    requires
        call_ensures(<RouteTablesResponse as Clone>::clone, (&response,), clone),
        call_ensures(RouteEntries::get, (&response.entries, &name), found),
        call_ensures(RouteEntries::get, (&clone.entries, &name), found_in_clone),
    ensures
        clone.cluster_topology_version == response.cluster_topology_version,
        found_in_clone is Some <==> found is Some,
        found matches Some(entry) ==> {
            let same = found_in_clone->Some_0;
            &&& same.table == entry.table
            &&& same.node_shards@ == entry.node_shards@
        },
{
    assert(response@.entries.contains_key(name@) == clone@.entries.contains_key(name@));
    assert(response@.entries.contains_key(name@) == response.entries@.contains_key(name@));
    assert(clone@.entries.contains_key(name@) == clone.entries@.contains_key(name@));
    if found is Some {
        assert(response@.entries[name@] == response.entries@[name@]@);
        assert(clone@.entries[name@] == clone.entries@[name@]@);
    }
}

/// A clone of a table, of a shard or of a shard on a node is the same table or shard.
pub proof fn law_clone_is_the_same(
    table: TableInfo,
    cloned_table: TableInfo,
    node_shard: NodeShard,
    cloned_node_shard: NodeShard,
    shard_info: ShardInfo,
    cloned_shard_info: ShardInfo,
)
    requires
        call_ensures(<TableInfo as Clone>::clone, (&table,), cloned_table),
        call_ensures(<NodeShard as Clone>::clone, (&node_shard,), cloned_node_shard),
        call_ensures(<ShardInfo as Clone>::clone, (&shard_info,), cloned_shard_info),
    ensures
        cloned_table == table,
        cloned_node_shard == node_shard,
        cloned_shard_info == shard_info,
{
}

/// The tables of shards are read exactly when the answer tells of each of the shards. They are
/// refused for a missing shard.
pub proof fn law_tables_by_shard_are_read_when_complete(
    message: meta_service::GetTablesOfShardsResponse,
    r: Result<GetTablesOfShardsResponse>,
)
    requires
        call_ensures(
            <GetTablesOfShardsResponse as TryFrom<
                meta_service::GetTablesOfShardsResponse,
            >>::try_from,
            (message,),
            r,
        ),
    ensures
        r is Ok <==> forall|n: int|
            0 <= n < message.tables_by_shard@.len() ==> (
            #[trigger] message.tables_by_shard@[n]).1.shard_info is Some,
        r matches Err(error) ==> error matches Error::MissingShardInfo { msg } && msg@
            == "in meta_service_pb::TablesOfShard"@,
{
    let pairs = message.tables_by_shard@;
    law_tables_are_read_when_all_shards_are_told_of(pairs);
    if r is Err {
        let n = choose|n: int| 0 <= n < pairs.len() && (#[trigger] pairs[n]).1.shard_info is None;
        assert(read_tables_of_shard(pairs[n].1) is Err);
    }
}

/// Of several answers for a shard the last one is read.
proof fn lemma_last_tables_are_read(pairs: Seq<(ShardId, meta_service::TablesOfShard)>, n: int)
    requires
        0 <= n < pairs.len(),
        forall|j: int| n < j < pairs.len() ==> (#[trigger] pairs[j]).0 != pairs[n].0,
        read_tables_by_shard(pairs) is Ok,
    ensures
        read_tables_by_shard(pairs)->Ok_0.contains_key(pairs[n].0),
        read_tables_of_shard(pairs[n].1) is Ok,
        read_tables_of_shard(pairs[n].1)->Ok_0 == read_tables_by_shard(pairs)->Ok_0[pairs[n].0],
    decreases pairs.len(),
{
    let init = pairs.drop_last();
    if n < init.len() {
        assert forall|j: int| n < j < init.len() implies (#[trigger] init[j]).0 != init[n].0 by {
            assert(init[j] == pairs[j]);
        }
        lemma_last_tables_are_read(init, n);
        assert(pairs[pairs.len() - 1].0 != pairs[n].0);
    }
}

/// Only the ids of the pairs are read.
proof fn lemma_read_shards_are_named(
    pairs: Seq<(ShardId, meta_service::TablesOfShard)>,
    id: ShardId,
)
    requires
        read_tables_by_shard(pairs) is Ok,
        read_tables_by_shard(pairs)->Ok_0.contains_key(id),
    ensures
        exists|n: int| 0 <= n < pairs.len() && (#[trigger] pairs[n]).0 == id,
    decreases pairs.len(),
{
    if pairs.len() > 0 {
        if pairs.last().0 == id {
            assert(pairs[pairs.len() - 1].0 == id);
        } else {
            let init = pairs.drop_last();
            lemma_read_shards_are_named(init, id);
            let n = choose|n: int| 0 <= n < init.len() && (#[trigger] init[n]).0 == id;
            assert(pairs[n].0 == id);
        }
    }
}

/// What is found for a shard is what the answer gives under its id: the shard with its own id,
/// version and role, and each of the tables in their order. Where an id occurs more than once,
/// what comes last counts.
pub proof fn law_tables_are_found_as_told(
    message: meta_service::GetTablesOfShardsResponse,
    response: GetTablesOfShardsResponse,
    n: int,
)
    requires
        call_ensures(
            <GetTablesOfShardsResponse as TryFrom<
                meta_service::GetTablesOfShardsResponse,
            >>::try_from,
            (message,),
            Ok(response),
        ),
        0 <= n < message.tables_by_shard@.len(),
        forall|j: int|
            n < j < message.tables_by_shard@.len() ==> (#[trigger] message.tables_by_shard@[j]).0
                != message.tables_by_shard@[n].0,
    ensures
        ({
            let id = message.tables_by_shard@[n].0;
            let told = message.tables_by_shard@[n].1;
            let shard = told.shard_info->Some_0;
            let found = response.tables_by_shard@[id];
            &&& response.tables_by_shard@.contains_key(id)
            &&& found.shard_info.id == shard.id
            &&& found.shard_info.version == shard.version
            &&& found.shard_info.role is Follower <==> shard.role == 1
            &&& found.shard_info.role is PendingLeader <==> shard.role == 2
            &&& found.shard_info.role is PendingFollower <==> shard.role == 3
            &&& found.tables@.len() == told.tables@.len()
            &&& forall|i: int|
                0 <= i < told.tables@.len() ==> {
                    let table = #[trigger] found.tables@[i];
                    &&& table.id == told.tables@[i].id
                    &&& table.name@ == told.tables@[i].name@
                    &&& table.schema_id == told.tables@[i].schema_id
                    &&& table.schema_name@ == told.tables@[i].schema_name@
                }
        }),
{
    let pairs = message.tables_by_shard@;
    let id = pairs[n].0;
    lemma_last_tables_are_read(pairs, n);
    assert(response@.contains_key(id));
    assert(response.tables_by_shard@.contains_key(id));
    assert(response@[id] == response.tables_by_shard@[id]@);
}

/// Nothing is found for a shard that the answer does not name.
pub proof fn law_unnamed_shard_is_not_found(
    message: meta_service::GetTablesOfShardsResponse,
    response: GetTablesOfShardsResponse,
    id: ShardId,
)
    requires
        call_ensures(
            <GetTablesOfShardsResponse as TryFrom<
                meta_service::GetTablesOfShardsResponse,
            >>::try_from,
            (message,),
            Ok(response),
        ),
        forall|n: int|
            0 <= n < message.tables_by_shard@.len() ==> (#[trigger] message.tables_by_shard@[n]).0
                != id,
    ensures
        !response.tables_by_shard@.contains_key(id),
{
    if response.tables_by_shard@.contains_key(id) {
        assert(response@.contains_key(id));
        lemma_read_shards_are_named(message.tables_by_shard@, id);
    }
}

} // verus!
