use ceresdb::meta_client::cluster;
use ceresdb::meta_client::error::Error;
use ceresdb::meta_client::meta_service;
use ceresdb::meta_client::route_entries::RouteEntries;
use ceresdb::meta_client::types::{
    AllocSchemaIdRequest, AllocSchemaIdResponse, CreateTableRequest, CreateTableResponse,
    DropTableRequest, DropTableResponse, GetNodesRequest, GetNodesResponse,
    GetTablesOfShardsRequest, GetTablesOfShardsResponse, MetaClientConfig, NodeInfo, NodeMetaInfo,
    NodeShard, ReadableDuration, RequestHeader, RouteEntry, RouteTablesRequest,
    RouteTablesResponse, ShardInfo, ShardRole, TableInfo, TablesOfShard,
};
use std::collections::HashMap;

fn pb_table(id: u64, name: &str) -> meta_service::TableInfo {
    meta_service::TableInfo {
        id,
        name: name.to_string(),
        schema_id: 7,
        schema_name: "public".to_string(),
    }
}

fn pb_shard(id: u32, role: i32, version: u64) -> meta_service::ShardInfo {
    meta_service::ShardInfo { id, role, version }
}

fn pb_node_shard(endpoint: &str, id: u32) -> meta_service::NodeShard {
    meta_service::NodeShard {
        endpoint: endpoint.to_string(),
        shard_info: Some(pb_shard(id, 1, 3)),
    }
}

fn pb_entry(name: &str, endpoints: &[&str]) -> meta_service::RouteEntry {
    let mut node_shards = Vec::new();
    for endpoint in endpoints {
        node_shards.push(pb_node_shard(endpoint, 5));
    }
    meta_service::RouteEntry { table: Some(pb_table(11, name)), node_shards }
}

fn shard_msg(error: Error) -> String {
    match error {
        Error::MissingShardInfo { msg } => msg,
        Error::MissingTableInfo { msg } => panic!("{}", msg),
    }
}

fn table_msg(error: Error) -> String {
    match error {
        Error::MissingTableInfo { msg } => msg,
        Error::MissingShardInfo { msg } => panic!("{}", msg),
    }
}

#[test]
fn endpoint_is_addr_and_port() {
    let mut info = NodeMetaInfo::default();
    info.addr = "127.0.0.1".to_string();
    for port in [0u16, 7, 10, 80, 101, 8831, 65535] {
        info.port = port;
        assert_eq!(info.endpoint(), format!("127.0.0.1:{}", port));
    }
    info.addr = "::1".to_string();
    info.port = 100;
    assert_eq!(info.endpoint(), "::1:100");
}

#[test]
fn endpoints_of_different_nodes_differ() {
    let mut a = NodeMetaInfo::default();
    a.addr = "a:1".to_string();
    a.port = 2;
    let mut b = NodeMetaInfo::default();
    b.addr = "a".to_string();
    b.port = 12;
    assert_ne!(a.endpoint(), b.endpoint());
}

#[test]
fn node_meta_info_is_empty_by_default() {
    let info = NodeMetaInfo::default();
    assert_eq!(info.addr, "");
    assert_eq!(info.port, 0);
    assert_eq!(info.zone, "");
    assert_eq!(info.idc, "");
    assert_eq!(info.binary_version, "");
    assert_eq!(info.endpoint(), ":0");
}

#[test]
fn config_has_its_defaults() {
    let config = MetaClientConfig::default();
    assert_eq!(config.cluster_name, "");
    assert_eq!(config.meta_addr, "127.0.0.1:8080");
    assert_eq!(config.meta_members_url, "ceresmeta/members");
    assert_eq!(config.lease, ReadableDuration { secs: 10, nanos: 0 });
    assert_eq!(config.timeout, ReadableDuration::secs(5));
    assert_eq!(config.cq_count, 8);
}

#[test]
fn only_the_leader_is_leader() {
    assert_eq!(ShardRole::default(), ShardRole::Leader);
    assert!(ShardInfo::default().is_leader());
    for role in [ShardRole::Follower, ShardRole::PendingLeader, ShardRole::PendingFollower] {
        assert!(!ShardInfo { id: 1, role, version: 2 }.is_leader());
    }
}

#[test]
fn shard_info_survives_exchange() {
    let roles = [
        (ShardRole::Leader, 0),
        (ShardRole::Follower, 1),
        (ShardRole::PendingLeader, 2),
        (ShardRole::PendingFollower, 3),
    ];
    for (role, code) in roles {
        let info = ShardInfo { id: 9, role, version: 41 };
        let message = meta_service::ShardInfo::from(info.clone());
        assert_eq!(message.id, 9);
        assert_eq!(message.role, code);
        assert_eq!(message.version, 41);
        assert_eq!(ShardInfo::from(message), info);
    }
}

#[test]
fn roles_survive_exchange() {
    for role in [
        cluster::ShardRole::Leader,
        cluster::ShardRole::Follower,
        cluster::ShardRole::PendingLeader,
        cluster::ShardRole::PendingFollower,
    ] {
        assert_eq!(cluster::ShardRole::from(ShardRole::from(role)), role);
    }
}

#[test]
fn unknown_role_is_taken_for_the_leader() {
    for code in [-1, 4, 100, i32::MAX, i32::MIN] {
        let info = ShardInfo::from(pb_shard(1, code, 2));
        assert_eq!(info, ShardInfo { id: 1, role: ShardRole::Leader, version: 2 });
    }
}

#[test]
fn node_info_tells_of_node() {
    let node_info = NodeInfo {
        node_meta_info: NodeMetaInfo {
            addr: "10.0.0.3".to_string(),
            port: 8831,
            zone: "z".to_string(),
            idc: "i".to_string(),
            binary_version: "v1".to_string(),
        },
        shard_infos: vec![
            ShardInfo { id: 1, role: ShardRole::PendingFollower, version: 5 },
            ShardInfo { id: 2, role: ShardRole::Leader, version: 6 },
        ],
    };
    let message = meta_service::NodeInfo::from(node_info.clone());
    assert_eq!(message.endpoint, "10.0.0.3:8831");
    assert_eq!(message.zone, "z");
    assert_eq!(message.binary_version, "v1");
    assert_eq!(message.lease, 0);
    assert_eq!(message.shard_infos[0].role, 3);
    let mut read = Vec::new();
    for shard_info in message.shard_infos {
        read.push(ShardInfo::from(shard_info));
    }
    assert_eq!(read, node_info.shard_infos);
}

#[test]
fn requests_go_out_without_header() {
    let header = meta_service::RequestHeader::from(RequestHeader {
        node: "n".to_string(),
        cluster_name: "c".to_string(),
    });
    assert_eq!((header.node.as_str(), header.cluster_name.as_str()), ("n", "c"));

    let alloc = meta_service::AllocSchemaIdRequest::from(AllocSchemaIdRequest {
        name: "s".to_string(),
    });
    assert!(alloc.header.is_none());
    assert_eq!(alloc.name, "s");

    let tables = meta_service::GetTablesOfShardsRequest::from(GetTablesOfShardsRequest {
        shard_ids: vec![3, 1, 2],
    });
    assert!(tables.header.is_none());
    assert_eq!(tables.shard_ids, vec![3, 1, 2]);

    let mut options = HashMap::new();
    options.insert("ttl".to_string(), "7d".to_string());
    let create = meta_service::CreateTableRequest::from(CreateTableRequest {
        schema_name: "public".to_string(),
        name: "t".to_string(),
        encoded_schema: vec![1, 2],
        engine: "Analytic".to_string(),
        create_if_not_exist: true,
        options: options.clone(),
    });
    assert!(create.header.is_none());
    assert_eq!(create.schema_name, "public");
    assert_eq!(create.name, "t");
    assert_eq!(create.encoded_schema, vec![1, 2]);
    assert_eq!(create.engine, "Analytic");
    assert!(create.create_if_not_exist);
    assert_eq!(create.options, options);

    let drop = meta_service::DropTableRequest::from(DropTableRequest {
        schema_name: "public".to_string(),
        name: "t".to_string(),
    });
    assert!(drop.header.is_none());
    assert_eq!((drop.schema_name.as_str(), drop.name.as_str()), ("public", "t"));

    let route = meta_service::RouteTablesRequest::from(RouteTablesRequest {
        schema_name: "public".to_string(),
        table_names: vec!["b".to_string(), "a".to_string()],
    });
    assert!(route.header.is_none());
    assert_eq!(route.schema_name, "public");
    assert_eq!(route.table_names, vec!["b".to_string(), "a".to_string()]);

    let nodes = meta_service::GetNodesRequest::from(GetNodesRequest::default());
    assert!(nodes.header.is_none());
}

#[test]
fn plain_answers_are_read_as_they_are() {
    let alloc = AllocSchemaIdResponse::from(meta_service::AllocSchemaIdResponse {
        name: "s".to_string(),
        id: 12,
    });
    assert_eq!((alloc.name.as_str(), alloc.id), ("s", 12));

    let table = TableInfo::from(pb_table(4, "t"));
    assert_eq!(table.id, 4);
    assert_eq!(table.name, "t");
    assert_eq!(table.schema_id, 7);
    assert_eq!(table.schema_name, "public");

    let dropped = DropTableResponse::from(meta_service::DropTableResponse {
        dropped_table: Some(pb_table(4, "t")),
    });
    assert_eq!(dropped.dropped_table.unwrap().id, 4);
    let none = DropTableResponse::from(meta_service::DropTableResponse { dropped_table: None });
    assert!(none.dropped_table.is_none());
}

#[test]
fn create_table_response_needs_table_and_shard() {
    let response = CreateTableResponse::try_from(meta_service::CreateTableResponse {
        created_table: Some(pb_table(4, "t")),
        shard_info: Some(pb_shard(2, 2, 8)),
    })
    .unwrap();
    assert_eq!(response.created_table.name, "t");
    assert_eq!(
        response.shard_info,
        ShardInfo { id: 2, role: ShardRole::PendingLeader, version: 8 }
    );

    let error = CreateTableResponse::try_from(meta_service::CreateTableResponse {
        created_table: None,
        shard_info: None,
    })
    .unwrap_err();
    assert_eq!(table_msg(error), "created table is not found in the create table response");

    let error = CreateTableResponse::try_from(meta_service::CreateTableResponse {
        created_table: Some(pb_table(4, "t")),
        shard_info: None,
    })
    .unwrap_err();
    assert_eq!(shard_msg(error), "shard info is not found in the create table response");
}

#[test]
fn node_shard_needs_its_shard() {
    let shard = NodeShard::try_from(pb_node_shard("e:1", 5)).unwrap();
    assert_eq!(
        shard,
        NodeShard {
            endpoint: "e:1".to_string(),
            shard_info: ShardInfo { id: 5, role: ShardRole::Follower, version: 3 },
        }
    );
    let error = NodeShard::try_from(meta_service::NodeShard {
        endpoint: "e:1".to_string(),
        shard_info: None,
    })
    .unwrap_err();
    assert_eq!(shard_msg(error), "in meta_service_pb::NodeShard");
}

#[test]
fn tables_of_shard_need_their_shard() {
    let tables = TablesOfShard::try_from(meta_service::TablesOfShard {
        shard_info: Some(pb_shard(1, 0, 2)),
        tables: vec![pb_table(1, "a"), pb_table(2, "b")],
    })
    .unwrap();
    assert!(tables.shard_info.is_leader());
    assert_eq!(tables.tables.len(), 2);
    assert_eq!(tables.tables[0].name, "a");
    assert_eq!(tables.tables[1].name, "b");

    let error = TablesOfShard::try_from(meta_service::TablesOfShard {
        shard_info: None,
        tables: vec![pb_table(1, "a")],
    })
    .unwrap_err();
    assert_eq!(shard_msg(error), "in meta_service_pb::TablesOfShard");
}

#[test]
fn tables_are_found_by_shard() {
    let good = |id: u32| meta_service::TablesOfShard {
        shard_info: Some(pb_shard(id, 0, 2)),
        tables: vec![pb_table(id as u64, "t")],
    };
    let response = GetTablesOfShardsResponse::try_from(meta_service::GetTablesOfShardsResponse {
        tables_by_shard: vec![(3, good(3)), (8, good(8))],
    })
    .unwrap();
    assert_eq!(response.tables_by_shard.len(), 2);
    assert_eq!(response.tables_by_shard[&3].tables[0].id, 3);
    assert_eq!(response.tables_by_shard[&8].shard_info.id, 8);

    let bad = meta_service::TablesOfShard { shard_info: None, tables: vec![] };
    let error = GetTablesOfShardsResponse::try_from(meta_service::GetTablesOfShardsResponse {
        tables_by_shard: vec![(3, good(3)), (4, bad)],
    })
    .unwrap_err();
    assert_eq!(shard_msg(error), "in meta_service_pb::TablesOfShard");

    let empty = GetTablesOfShardsResponse::try_from(meta_service::GetTablesOfShardsResponse {
        tables_by_shard: vec![],
    })
    .unwrap();
    assert!(empty.tables_by_shard.is_empty());
}

#[test]
fn route_entry_misses_shard_before_table() {
    let entry = RouteEntry::try_from(pb_entry("t", &["a:1", "b:2"])).unwrap();
    assert_eq!(entry.table.name, "t");
    assert_eq!(entry.node_shards.len(), 2);
    assert_eq!(entry.node_shards[0].endpoint, "a:1");
    assert_eq!(entry.node_shards[1].endpoint, "b:2");

    let mut no_table = pb_entry("t", &["a:1"]);
    no_table.table = None;
    let error = RouteEntry::try_from(no_table).unwrap_err();
    assert_eq!(table_msg(error), "table info is missing in route entry");

    let mut neither = pb_entry("t", &["a:1", "b:2"]);
    neither.table = None;
    neither.node_shards[1].shard_info = None;
    let error = RouteEntry::try_from(neither).unwrap_err();
    assert_eq!(shard_msg(error), "in meta_service_pb::NodeShard");
}

#[test]
fn routing_knows_the_named_tables() {
    let response = RouteTablesResponse::try_from(meta_service::RouteTablesResponse {
        cluster_topology_version: 99,
        entries: vec![
            ("a".to_string(), pb_entry("a", &["x:1"])),
            ("b".to_string(), pb_entry("b", &[])),
        ],
    })
    .unwrap();
    assert_eq!(response.cluster_topology_version, 99);
    assert_eq!(response.entries.len(), 2);
    let entry = |name: &str| response.entries.get(&name.to_string());
    assert_eq!(entry("a").unwrap().node_shards[0].endpoint, "x:1");
    assert_eq!(entry("b").unwrap().table.name, "b");
    assert!(entry("c").is_none());

    assert!(response.contains_all_tables(&[]));
    assert!(response.contains_all_tables(&["b".to_string(), "a".to_string()]));
    assert!(!response.contains_all_tables(&["a".to_string(), "c".to_string()]));
}

#[test]
fn routing_can_be_walked_and_cloned() {
    let response = RouteTablesResponse::try_from(meta_service::RouteTablesResponse {
        cluster_topology_version: 4,
        entries: vec![
            ("a".to_string(), pb_entry("a", &["x:1"])),
            ("b".to_string(), pb_entry("b", &["y:2", "z:3"])),
            ("a".to_string(), pb_entry("c", &["w:4"])),
        ],
    })
    .unwrap();
    for response in [response.clone(), response] {
        assert_eq!(response.cluster_topology_version, 4);
        let mut walked = Vec::new();
        for (name, entry) in response.entries.as_slice() {
            let mut endpoints = Vec::new();
            for node_shard in &entry.node_shards {
                endpoints.push(node_shard.endpoint.as_str());
            }
            walked.push((name.as_str(), entry.table.name.as_str(), endpoints));
        }
        walked.sort();
        assert_eq!(walked, vec![("a", "c", vec!["w:4"]), ("b", "b", vec!["y:2", "z:3"])]);
        assert!(format!("{:?}", response).contains("z:3"));
    }
}

#[test]
fn entry_replaces_one_with_the_same_name() {
    let entry = |id: u64| {
        let mut pb = pb_entry("t", &["x:1"]);
        pb.table = Some(pb_table(id, "t"));
        RouteEntry::try_from(pb).unwrap()
    };
    let mut entries = RouteEntries::with_capacity(2);
    assert_eq!(entries.len(), 0);
    assert!(!entries.contains_key(&"t".to_string()));
    entries.insert("t".to_string(), entry(1));
    entries.insert("u".to_string(), entry(2));
    entries.insert("t".to_string(), entry(3));
    assert_eq!(entries.len(), 2);
    assert!(entries.contains_key(&"t".to_string()));
    assert_eq!(entries.get(&"t".to_string()).unwrap().table.id, 3);
    assert_eq!(entries.get(&"u".to_string()).unwrap().table.id, 2);
}

#[test]
fn first_unreadable_entry_decides() {
    let mut no_table = pb_entry("b", &["x:1"]);
    no_table.table = None;
    let mut no_shard = pb_entry("c", &["x:1"]);
    no_shard.node_shards[0].shard_info = None;
    let result = RouteTablesResponse::try_from(meta_service::RouteTablesResponse {
        cluster_topology_version: 1,
        entries: vec![
            ("a".to_string(), pb_entry("a", &["x:1"])),
            ("b".to_string(), no_table),
            ("c".to_string(), no_shard),
        ],
    });
    match result {
        Ok(_) => panic!("read"),
        Err(error) => assert_eq!(table_msg(error), "table info is missing in route entry"),
    }
}

#[test]
fn nodes_are_read_in_order() {
    let response = GetNodesResponse::try_from(meta_service::GetNodesResponse {
        cluster_topology_version: 6,
        node_shards: vec![pb_node_shard("b:1", 1), pb_node_shard("a:1", 2)],
    });
    match response {
        Ok(response) => {
            assert_eq!(response.cluster_topology_version, 6);
            assert_eq!(response.node_shards[0].endpoint, "b:1");
            assert_eq!(response.node_shards[1].shard_info.id, 2);
        }
        Err(error) => panic!("{:?}", error),
    }
    let response = GetNodesResponse::try_from(meta_service::GetNodesResponse {
        cluster_topology_version: 6,
        node_shards: vec![meta_service::NodeShard { endpoint: "b:1".to_string(), shard_info: None }],
    });
    match response {
        Ok(_) => panic!("read"),
        Err(error) => assert_eq!(shard_msg(error), "in meta_service_pb::NodeShard"),
    }
}
