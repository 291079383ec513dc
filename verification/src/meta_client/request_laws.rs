//! What the meta service is told, whatever the client sends.

use crate::meta_client::cluster;
use crate::meta_client::endpoint::{decimal, law_decimal_has_its_value, place_value};
use crate::meta_client::meta_service;
use crate::meta_client::types::{
    AllocSchemaIdRequest, CreateTableRequest, DropTableRequest, GetNodesRequest,
    GetTablesOfShardsRequest, NodeInfo, NodeMetaInfo, RequestHeader, RouteTablesRequest, ShardInfo,
    ShardRole,
};
use vstd::prelude::*;

verus! {

/// Each role has a role of the same name in messages, and no two roles share one.
pub proof fn law_role_is_told_by_its_name(role: ShardRole, message: cluster::ShardRole)
    requires
        call_ensures(<cluster::ShardRole as From<ShardRole>>::from, (role,), message),
    ensures
        message is Leader <==> role is Leader,
        message is Follower <==> role is Follower,
        message is PendingLeader <==> role is PendingLeader,
        message is PendingFollower <==> role is PendingFollower,
{
}

/// The meta service is told of a shard with its own id and version, and with the number that
/// the protocol gives to its role.
pub proof fn law_shard_is_told_as_it_is(shard_info: ShardInfo, message: meta_service::ShardInfo)
    requires
        call_ensures(
            <meta_service::ShardInfo as From<ShardInfo>>::from,
            (shard_info,),
            message,
        ),
    ensures
        message.id == shard_info.id,
        message.version == shard_info.version,
        message.role == 0 <==> shard_info.role is Leader,
        message.role == 1 <==> shard_info.role is Follower,
        message.role == 2 <==> shard_info.role is PendingLeader,
        message.role == 3 <==> shard_info.role is PendingFollower,
{
}

/// Two shards that differ in anything are told of differently.
pub proof fn law_shards_are_told_apart(
    first: ShardInfo,
    first_message: meta_service::ShardInfo,
    second: ShardInfo,
    second_message: meta_service::ShardInfo,
)
    requires
        call_ensures(
            <meta_service::ShardInfo as From<ShardInfo>>::from,
            (first,),
            first_message,
        ),
        call_ensures(
            <meta_service::ShardInfo as From<ShardInfo>>::from,
            (second,),
            second_message,
        ),
        first_message == second_message,
    ensures
        first == second,
{
}

/// The endpoint of a node is its address, a colon and its port: what follows the colon is a
/// number in decimal notation, without leading zeros, whose value is the port.
pub proof fn law_endpoint_gives_addr_and_port(info: NodeMetaInfo, endpoint: String)
    requires
        call_ensures(NodeMetaInfo::endpoint, (&info,), endpoint),
    ensures
        endpoint@.len() > info.addr@.len() + 1,
        endpoint@.take(info.addr@.len() as int) == info.addr@,
        endpoint@[info.addr@.len() as int] == ':',
        forall|i: int|
            info.addr@.len() < i < endpoint@.len() ==> '0' <= #[trigger] endpoint@[i] && endpoint@[i]
                <= '9',
        endpoint@.len() > info.addr@.len() + 2 ==> endpoint@[info.addr@.len() as int + 1] != '0',
        place_value(endpoint@.skip(info.addr@.len() as int + 1)) == info.port,
{
    let n = info.addr@.len() as int;
    law_decimal_has_its_value(info.port as nat);
    let digits = endpoint@.skip(n + 1);
    assert(digits =~= decimal(info.port as nat));
    assert(endpoint@.take(n) =~= info.addr@);
    assert forall|i: int| n < i < endpoint@.len() implies '0' <= #[trigger] endpoint@[i]
        && endpoint@[i] <= '9' by {
        assert(endpoint@[i] == digits[i - n - 1]);
    }
    assert(endpoint@[n + 1] == digits[0]);
}

/// The meta service is told of a node under its endpoint, with its zone and its version and
/// with each of its shards, in their order, as the shard is. The lease is left open.
pub proof fn law_node_is_told_as_it_is(
    node_info: NodeInfo,
    message: meta_service::NodeInfo,
    endpoint: String,
)
    requires
        call_ensures(<meta_service::NodeInfo as From<NodeInfo>>::from, (node_info,), message),
        call_ensures(NodeMetaInfo::endpoint, (&node_info.node_meta_info,), endpoint),
    ensures
        message.endpoint@ == endpoint@,
        message.zone@ == node_info.node_meta_info.zone@,
        message.binary_version@ == node_info.node_meta_info.binary_version@,
        message.lease == 0,
        message.shard_infos@.len() == node_info.shard_infos@.len(),
        forall|i: int|
            0 <= i < node_info.shard_infos@.len() ==> {
                let shard = node_info.shard_infos@[i];
                let told = #[trigger] message.shard_infos@[i];
                &&& told.id == shard.id
                &&& told.version == shard.version
                &&& told.role == 0 <==> shard.role is Leader
                &&& told.role == 1 <==> shard.role is Follower
                &&& told.role == 2 <==> shard.role is PendingLeader
                &&& told.role == 3 <==> shard.role is PendingFollower
            },
{
}

/// A header names the node and the cluster that it was made for.
pub proof fn law_header_is_told_as_it_is(
    header: RequestHeader,
    message: meta_service::RequestHeader,
)
    requires
        call_ensures(
            <meta_service::RequestHeader as From<RequestHeader>>::from,
            (header,),
            message,
        ),
    ensures
        message.node@ == header.node@,
        message.cluster_name@ == header.cluster_name@,
{
}

/// An id is asked for under the name of the schema, and without a header.
pub proof fn law_schema_is_asked_for_by_name(
    req: AllocSchemaIdRequest,
    message: meta_service::AllocSchemaIdRequest,
)
    requires
        call_ensures(
            <meta_service::AllocSchemaIdRequest as From<AllocSchemaIdRequest>>::from,
            (req,),
            message,
        ),
    ensures
        message.header is None,
        message.name@ == req.name@,
{
}

/// The tables of exactly the given shards are asked for, in their order and without a header.
pub proof fn law_tables_are_asked_for_by_shard(
    req: GetTablesOfShardsRequest,
    message: meta_service::GetTablesOfShardsRequest,
)
    requires
        call_ensures(
            <meta_service::GetTablesOfShardsRequest as From<GetTablesOfShardsRequest>>::from,
            (req,),
            message,
        ),
    ensures
        message.header is None,
        message.shard_ids@.len() == req.shard_ids@.len(),
        forall|i: int|
            0 <= i < req.shard_ids@.len() ==> #[trigger] message.shard_ids@[i] == req.shard_ids@[i],
{
}

/// The table that is asked to be created is the one of the request: its names, its schema, its
/// engine and its options, and whether it may exist already. There is no header.
pub proof fn law_table_is_created_as_asked(
    req: CreateTableRequest,
    message: meta_service::CreateTableRequest,
)
    requires
        call_ensures(
            <meta_service::CreateTableRequest as From<CreateTableRequest>>::from,
            (req,),
            message,
        ),
    ensures
        message.header is None,
        message.schema_name@ == req.schema_name@,
        message.name@ == req.name@,
        message.encoded_schema@ == req.encoded_schema@,
        message.engine@ == req.engine@,
        message.create_if_not_exist <==> req.create_if_not_exist,
        message.options == req.options,
{
}

/// Two requests for the creation of a table that differ in anything never go out as the same
/// message.
pub proof fn law_create_requests_are_told_apart(
    first: CreateTableRequest,
    first_message: meta_service::CreateTableRequest,
    second: CreateTableRequest,
    second_message: meta_service::CreateTableRequest,
)
    requires
        call_ensures(
            <meta_service::CreateTableRequest as From<CreateTableRequest>>::from,
            (first,),
            first_message,
        ),
        call_ensures(
            <meta_service::CreateTableRequest as From<CreateTableRequest>>::from,
            (second,),
            second_message,
        ),
        first_message == second_message,
    ensures
        first == second,
{
}

/// The table that is asked to be dropped is the one of the request. There is no header.
pub proof fn law_table_is_dropped_as_asked(
    req: DropTableRequest,
    message: meta_service::DropTableRequest,
)
    requires
        call_ensures(
            <meta_service::DropTableRequest as From<DropTableRequest>>::from,
            (req,),
            message,
        ),
    ensures
        message.header is None,
        message.schema_name@ == req.schema_name@,
        message.name@ == req.name@,
{
}

/// Exactly the given tables of the given schema are asked for, in their order and without a
/// header.
pub proof fn law_routes_are_asked_for_by_name(
    req: RouteTablesRequest,
    message: meta_service::RouteTablesRequest,
)
    requires
        call_ensures(
            <meta_service::RouteTablesRequest as From<RouteTablesRequest>>::from,
            (req,),
            message,
        ),
    ensures
        message.header is None,
        message.schema_name@ == req.schema_name@,
        message.table_names@.len() == req.table_names@.len(),
        forall|i: int|
            0 <= i < req.table_names@.len() ==> (#[trigger] message.table_names@[i])@
                == req.table_names@[i]@,
{
}

/// The nodes are asked for without a header.
pub proof fn law_nodes_are_asked_for_without_header(
    req: GetNodesRequest,
    message: meta_service::GetNodesRequest,
)
    requires
        call_ensures(
            <meta_service::GetNodesRequest as From<GetNodesRequest>>::from,
            (req,),
            message,
        ),
    ensures
        message.header is None,
{
}

} // verus!
