//! What the meta client sends, as messages.

use crate::meta_client::cluster;
use crate::meta_client::cluster::{encode_role, role_code};
use crate::meta_client::endpoint::endpoint_text;
use crate::meta_client::meta_service;
use crate::meta_client::types::{
    AllocSchemaIdRequest, CreateTableRequest, DropTableRequest, GetNodesRequest,
    GetTablesOfShardsRequest, NodeInfo, RequestHeader, RouteTablesRequest, ShardInfo, ShardRole,
};
use vstd::prelude::*;
use vstd::std_specs::convert::FromSpecImpl;

verus! {

/// The role that stands for `role` in a message.
pub open spec fn wire_role(role: ShardRole) -> cluster::ShardRole {
    match role {
        ShardRole::Leader => cluster::ShardRole::Leader,
        ShardRole::Follower => cluster::ShardRole::Follower,
        ShardRole::PendingLeader => cluster::ShardRole::PendingLeader,
        ShardRole::PendingFollower => cluster::ShardRole::PendingFollower,
    }
}

impl From<ShardRole> for cluster::ShardRole {
    fn from(shard_role: ShardRole) -> Self {
        match shard_role {
            ShardRole::Leader => cluster::ShardRole::Leader,
            ShardRole::Follower => cluster::ShardRole::Follower,
            ShardRole::PendingLeader => cluster::ShardRole::PendingLeader,
            ShardRole::PendingFollower => cluster::ShardRole::PendingFollower,
        }
    }
}

impl FromSpecImpl<ShardRole> for cluster::ShardRole {
    open spec fn obeys_from_spec() -> bool {
        true
    }

    open spec fn from_spec(shard_role: ShardRole) -> Self {
        wire_role(shard_role)
    }
}

/// `shard_info` as a message.
pub open spec fn wire_shard_info(shard_info: ShardInfo) -> meta_service::ShardInfo {
    meta_service::ShardInfo {
        id: shard_info.id,
        role: role_code(wire_role(shard_info.role)),
        version: shard_info.version,
    }
}

impl From<ShardInfo> for meta_service::ShardInfo {
    fn from(shard_info: ShardInfo) -> Self {
        let role = cluster::ShardRole::from(shard_info.role);

        meta_service::ShardInfo {
            id: shard_info.id,
            role: encode_role(role),
            version: shard_info.version,
        }
    }
}

impl FromSpecImpl<ShardInfo> for meta_service::ShardInfo {
    open spec fn obeys_from_spec() -> bool {
        true
    }

    open spec fn from_spec(shard_info: ShardInfo) -> Self {
        wire_shard_info(shard_info)
    }
}

/// `message` tells the meta service of the node `node_info`: where it is reached, and its
/// shards in their order. The lease is left to the meta service.
pub open spec fn tells_of_node(message: meta_service::NodeInfo, node_info: NodeInfo) -> bool {
    let meta = node_info.node_meta_info;
    &&& message.endpoint@ == endpoint_text(meta.addr@, meta.port)
    &&& message.zone == meta.zone
    &&& message.binary_version == meta.binary_version
    &&& message.shard_infos@ == node_info.shard_infos@.map_values(
        |shard_info: ShardInfo| wire_shard_info(shard_info),
    )
    &&& message.lease == 0
}

impl From<NodeInfo> for meta_service::NodeInfo {
    fn from(node_info: NodeInfo) -> (message: Self)
        ensures
            tells_of_node(message, node_info),
    {
        let mut shard_infos: Vec<meta_service::ShardInfo> = Vec::new();
        let ghost all = node_info.shard_infos@;
        let ghost wire = |shard_info: ShardInfo| wire_shard_info(shard_info);
        for shard_info in iter: node_info.shard_infos.into_iter()
            invariant
                iter.seq() == all,
                wire == (|shard_info: ShardInfo| wire_shard_info(shard_info)),
                shard_infos@ == all.take(iter.index()).map_values(wire),
        {
            shard_infos.push(meta_service::ShardInfo::from(shard_info));
            assert(shard_infos@ =~= all.take(iter.index() + 1).map_values(wire));
        }
        assert(all.take(all.len() as int) =~= all);

        meta_service::NodeInfo {
            endpoint: node_info.node_meta_info.endpoint(),
            zone: node_info.node_meta_info.zone,
            binary_version: node_info.node_meta_info.binary_version,
            shard_infos,
            lease: 0,
        }
    }
}

impl FromSpecImpl<NodeInfo> for meta_service::NodeInfo {
    open spec fn obeys_from_spec() -> bool {
        false
    }

    open spec fn from_spec(node_info: NodeInfo) -> Self {
        arbitrary()
    }
}

impl From<RequestHeader> for meta_service::RequestHeader {
    fn from(req: RequestHeader) -> Self {
        meta_service::RequestHeader {
            node: req.node,
            cluster_name: req.cluster_name,
        }
    }
}

impl FromSpecImpl<RequestHeader> for meta_service::RequestHeader {
    open spec fn obeys_from_spec() -> bool {
        true
    }

    open spec fn from_spec(req: RequestHeader) -> Self {
        meta_service::RequestHeader {
            node: req.node,
            cluster_name: req.cluster_name,
        }
    }
}

impl From<AllocSchemaIdRequest> for meta_service::AllocSchemaIdRequest {
    fn from(req: AllocSchemaIdRequest) -> Self {
        meta_service::AllocSchemaIdRequest {
            header: None,
            name: req.name,
        }
    }
}

impl FromSpecImpl<AllocSchemaIdRequest> for meta_service::AllocSchemaIdRequest {
    open spec fn obeys_from_spec() -> bool {
        true
    }

    open spec fn from_spec(req: AllocSchemaIdRequest) -> Self {
        meta_service::AllocSchemaIdRequest {
            header: None,
            name: req.name,
        }
    }
}

impl From<GetTablesOfShardsRequest> for meta_service::GetTablesOfShardsRequest {
    fn from(req: GetTablesOfShardsRequest) -> Self {
        meta_service::GetTablesOfShardsRequest {
            header: None,
            shard_ids: req.shard_ids,
        }
    }
}

impl FromSpecImpl<GetTablesOfShardsRequest> for meta_service::GetTablesOfShardsRequest {
    open spec fn obeys_from_spec() -> bool {
        true
    }

    open spec fn from_spec(req: GetTablesOfShardsRequest) -> Self {
        meta_service::GetTablesOfShardsRequest {
            header: None,
            shard_ids: req.shard_ids,
        }
    }
}

impl From<CreateTableRequest> for meta_service::CreateTableRequest {
    fn from(req: CreateTableRequest) -> Self {
        meta_service::CreateTableRequest {
            header: None,
            schema_name: req.schema_name,
            name: req.name,
            encoded_schema: req.encoded_schema,
            engine: req.engine,
            create_if_not_exist: req.create_if_not_exist,
            options: req.options,
        }
    }
}

impl FromSpecImpl<CreateTableRequest> for meta_service::CreateTableRequest {
    open spec fn obeys_from_spec() -> bool {
        true
    }

    open spec fn from_spec(req: CreateTableRequest) -> Self {
        meta_service::CreateTableRequest {
            header: None,
            schema_name: req.schema_name,
            name: req.name,
            encoded_schema: req.encoded_schema,
            engine: req.engine,
            create_if_not_exist: req.create_if_not_exist,
            options: req.options,
        }
    }
}

impl From<DropTableRequest> for meta_service::DropTableRequest {
    fn from(req: DropTableRequest) -> Self {
        meta_service::DropTableRequest {
            header: None,
            schema_name: req.schema_name,
            name: req.name,
        }
    }
}

impl FromSpecImpl<DropTableRequest> for meta_service::DropTableRequest {
    open spec fn obeys_from_spec() -> bool {
        true
    }

    open spec fn from_spec(req: DropTableRequest) -> Self {
        meta_service::DropTableRequest {
            header: None,
            schema_name: req.schema_name,
            name: req.name,
        }
    }
}

impl From<RouteTablesRequest> for meta_service::RouteTablesRequest {
    fn from(req: RouteTablesRequest) -> Self {
        meta_service::RouteTablesRequest {
            header: None,
            schema_name: req.schema_name,
            table_names: req.table_names,
        }
    }
}

impl FromSpecImpl<RouteTablesRequest> for meta_service::RouteTablesRequest {
    open spec fn obeys_from_spec() -> bool {
        true
    }

    open spec fn from_spec(req: RouteTablesRequest) -> Self {
        meta_service::RouteTablesRequest {
            header: None,
            schema_name: req.schema_name,
            table_names: req.table_names,
        }
    }
}

impl From<GetNodesRequest> for meta_service::GetNodesRequest {
    fn from(_req: GetNodesRequest) -> Self {
        meta_service::GetNodesRequest {
            header: None,
        }
    }
}

impl FromSpecImpl<GetNodesRequest> for meta_service::GetNodesRequest {
    open spec fn obeys_from_spec() -> bool {
        true
    }

    open spec fn from_spec(_req: GetNodesRequest) -> Self {
        meta_service::GetNodesRequest {
            header: None,
        }
    }
}

} // verus!
