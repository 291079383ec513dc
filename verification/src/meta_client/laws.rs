//! What holds of everything that is exchanged with the meta service.

use crate::meta_client::cluster::{code_role, role_code};
use crate::meta_client::error::ErrorView;
use crate::meta_client::meta_service;
use crate::meta_client::requests::{tells_of_node, wire_role, wire_shard_info};
use crate::meta_client::responses::{
    read_node_shard, read_node_shards, read_role, read_route_entries, read_route_entry,
    read_route_tables_response, read_shard_info, read_tables_by_shard, read_tables_of_shard,
};
use crate::meta_client::types::{
    NodeInfo, NodeShard, ReadableDuration, RouteEntryView, ShardId, ShardInfo, ShardRole,
    TablesOfShardView,
};
use vstd::prelude::*;

verus! {

/// A role survives the way into a message and back.
pub proof fn law_role_survives_exchange(role: ShardRole)
    ensures
        read_role(code_role(role_code(wire_role(role)))) == role,
{
}

/// A shard survives the way into a message and back.
pub proof fn law_shard_info_survives_exchange(shard_info: ShardInfo)
    ensures
        read_shard_info(wire_shard_info(shard_info)) == shard_info,
{
}

/// A message about a shard survives the way through the client, unless its role is a number
/// that stands for no role. Such a shard is taken for the leader.
pub proof fn law_shard_message_survives_exchange(message: meta_service::ShardInfo)
    ensures
        0 <= message.role <= 3 ==> wire_shard_info(read_shard_info(message)) == message,
        !(0 <= message.role <= 3) ==> read_shard_info(message).role == ShardRole::Leader,
{
}

/// The meta service can read off the message about a node the shards of the node, in
/// their order.
pub proof fn law_node_message_keeps_shards(message: meta_service::NodeInfo, node_info: NodeInfo)
    requires
        tells_of_node(message, node_info),
    ensures
        message.shard_infos@.map_values(
            |shard_info: meta_service::ShardInfo| read_shard_info(shard_info),
        ) == node_info.shard_infos@,
{
    let read = message.shard_infos@.map_values(
        |shard_info: meta_service::ShardInfo| read_shard_info(shard_info),
    );
    assert forall|i: int| 0 <= i < read.len() implies read[i] == node_info.shard_infos@[i] by {
        law_shard_info_survives_exchange(node_info.shard_infos@[i]);
    }
    assert(read =~= node_info.shard_infos@);
}

/// Shards on nodes are read together exactly when each of them can be read, one by one and
/// in their order, and the error is that of one of them.
pub proof fn law_node_shards_are_read_one_by_one(pbs: Seq<meta_service::NodeShard>)
    ensures
        read_node_shards(pbs) is Ok <==> forall|i: int|
            0 <= i < pbs.len() ==> read_node_shard(#[trigger] pbs[i]) is Ok,
        read_node_shards(pbs) matches Ok(node_shards) ==> {
            &&& node_shards.len() == pbs.len()
            &&& forall|i: int|
                0 <= i < pbs.len() ==> read_node_shard(pbs[i]) == Ok::<NodeShard, ErrorView>(
                    #[trigger] node_shards[i],
                )
        },
        read_node_shards(pbs) matches Err(error) ==> exists|i: int|
            0 <= i < pbs.len() && read_node_shard(#[trigger] pbs[i]) == Err::<
                NodeShard,
                ErrorView,
            >(error),
{
    if read_node_shards(pbs) is Err {
        let i = choose|i: int| 0 <= i < pbs.len() && (#[trigger] pbs[i]).shard_info is None;
        let error = read_node_shards(pbs)->Err_0;
        assert(read_node_shard(pbs[i]) == Err::<NodeShard, ErrorView>(error));
    }
}

/// A routing answer is read exactly when each of its entries can be read.
pub proof fn law_routing_is_read_when_all_entries_are(
    pairs: Seq<(String, meta_service::RouteEntry)>,
)
    ensures
        read_route_entries(pairs) is Ok <==> forall|i: int|
            0 <= i < pairs.len() ==> read_route_entry((#[trigger] pairs[i]).1) is Ok,
    decreases pairs.len(),
{
    if pairs.len() > 0 {
        let init = pairs.drop_last();
        law_routing_is_read_when_all_entries_are(init);
        if read_route_entries(pairs) is Ok {
            assert forall|i: int| 0 <= i < pairs.len() implies read_route_entry(
                (#[trigger] pairs[i]).1,
            ) is Ok by {
                if i < init.len() {
                    assert(init[i] == pairs[i]);
                }
            }
        } else if read_route_entries(init) is Err {
            let i = choose|i: int|
                0 <= i < init.len() && read_route_entry((#[trigger] init[i]).1) is Err;
            assert(init[i] == pairs[i]);
        } else {
            assert(read_route_entry(pairs[pairs.len() - 1].1) is Err);
        }
    }
}

/// A routing answer that cannot be read fails with the error of its first entry that
/// cannot be read.
pub proof fn law_first_unreadable_entry_decides(
    pairs: Seq<(String, meta_service::RouteEntry)>,
    n: int,
)
    requires
        0 <= n < pairs.len(),
        read_route_entry(pairs[n].1) is Err,
        forall|i: int| 0 <= i < n ==> read_route_entry((#[trigger] pairs[i]).1) is Ok,
    ensures
        read_route_entries(pairs) matches Err(error) && read_route_entry(pairs[n].1) == Err::<
            RouteEntryView,
            ErrorView,
        >(error),
    decreases pairs.len(),
{
    let init = pairs.drop_last();
    if n < init.len() {
        assert(init[n] == pairs[n]);
        assert forall|i: int| 0 <= i < n implies read_route_entry((#[trigger] init[i]).1) is Ok by {
            assert(init[i] == pairs[i]);
        }
        law_first_unreadable_entry_decides(init, n);
    } else {
        assert forall|i: int| 0 <= i < init.len() implies read_route_entry(
            (#[trigger] init[i]).1,
        ) is Ok by {
            assert(init[i] == pairs[i]);
        }
        law_routing_is_read_when_all_entries_are(init);
    }
}

/// What has been read of a routing answer has an entry for exactly the tables that the
/// answer names.
pub proof fn law_routing_knows_the_named_tables(pb_resp: meta_service::RouteTablesResponse)
    requires
        read_route_tables_response(pb_resp) is Ok,
    ensures
        forall|name: Seq<char>|
            read_route_tables_response(pb_resp)->Ok_0.entries.contains_key(name) <==> exists|
                i: int,
            |
                0 <= i < pb_resp.entries@.len() && (#[trigger] pb_resp.entries@[i]).0@ == name,
{
    lemma_routing_names(pb_resp.entries@);
}

/// What has been read of a routing answer covers a query exactly when the answer names each
/// of the queried tables.
pub proof fn law_routing_covers_the_named_tables(
    pb_resp: meta_service::RouteTablesResponse,
    queried: Seq<Seq<char>>,
)
    requires
        read_route_tables_response(pb_resp) is Ok,
    ensures
        (forall|i: int|
            0 <= i < queried.len() ==> read_route_tables_response(
                pb_resp,
            )->Ok_0.entries.contains_key(#[trigger] queried[i])) <==> (forall|i: int|
            0 <= i < queried.len() ==> exists|j: int|
                0 <= j < pb_resp.entries@.len() && (#[trigger] pb_resp.entries@[j]).0@
                    == #[trigger] queried[i]),
{
    law_routing_knows_the_named_tables(pb_resp);
}

/// The entries that have been read are those of the names in the pairs.
proof fn lemma_routing_names(pairs: Seq<(String, meta_service::RouteEntry)>)
    requires
        read_route_entries(pairs) is Ok,
    ensures
        forall|name: Seq<char>|
            read_route_entries(pairs)->Ok_0.contains_key(name) <==> exists|i: int|
                0 <= i < pairs.len() && (#[trigger] pairs[i]).0@ == name,
    decreases pairs.len(),
{
    if pairs.len() > 0 {
        let init = pairs.drop_last();
        lemma_routing_names(init);
        let entries = read_route_entries(pairs)->Ok_0;
        assert forall|name: Seq<char>| entries.contains_key(name) <==> exists|i: int|
            0 <= i < pairs.len() && (#[trigger] pairs[i]).0@ == name by {
            if entries.contains_key(name) {
                if name == pairs.last().0@ {
                    assert(pairs[pairs.len() - 1].0@ == name);
                } else {
                    let i = choose|i: int| 0 <= i < init.len() && (#[trigger] init[i]).0@ == name;
                    assert(pairs[i].0@ == name);
                }
            }
            if exists|i: int| 0 <= i < pairs.len() && (#[trigger] pairs[i]).0@ == name {
                let i = choose|i: int| 0 <= i < pairs.len() && (#[trigger] pairs[i]).0@ == name;
                if i < init.len() {
                    assert(init[i].0@ == name);
                }
            }
        }
    }
}

/// Where no table is named twice, the entry that is found for a table is the one that the
/// answer gives for it.
pub proof fn law_routing_finds_the_given_entry(
    pairs: Seq<(String, meta_service::RouteEntry)>,
    n: int,
)
    requires
        0 <= n < pairs.len(),
        forall|i: int, j: int|
            0 <= i < j < pairs.len() ==> (#[trigger] pairs[i]).0@ != (#[trigger] pairs[j]).0@,
        read_route_entries(pairs) is Ok,
    ensures
        read_route_entries(pairs)->Ok_0.contains_key(pairs[n].0@),
        read_route_entry(pairs[n].1) == Ok::<RouteEntryView, ErrorView>(
            read_route_entries(pairs)->Ok_0[pairs[n].0@],
        ),
    decreases pairs.len(),
{
    let init = pairs.drop_last();
    if n < init.len() {
        assert forall|i: int, j: int| 0 <= i < j < init.len() implies (#[trigger] init[i]).0@ != (
        #[trigger] init[j]).0@ by {
            assert(init[i] == pairs[i] && init[j] == pairs[j]);
        }
        law_routing_finds_the_given_entry(init, n);
        assert(init[n] == pairs[n]);
        assert(pairs[n].0@ != pairs[pairs.len() - 1].0@);
    }
}

/// The tables of shards are read exactly when each shard is told of, and the error is the
/// same for each shard that is not.
pub proof fn law_tables_are_read_when_all_shards_are_told_of(
    pairs: Seq<(ShardId, meta_service::TablesOfShard)>,
)
    ensures
        read_tables_by_shard(pairs) is Ok <==> forall|i: int|
            0 <= i < pairs.len() ==> (#[trigger] pairs[i]).1.shard_info is Some,
        read_tables_by_shard(pairs) matches Err(error) ==> forall|i: int|
            0 <= i < pairs.len() && (#[trigger] pairs[i]).1.shard_info is None
                ==> read_tables_of_shard(pairs[i].1) == Err::<TablesOfShardView, ErrorView>(error),
    decreases pairs.len(),
{
    if pairs.len() > 0 {
        let init = pairs.drop_last();
        law_tables_are_read_when_all_shards_are_told_of(init);
        if read_tables_by_shard(pairs) is Ok {
            assert forall|i: int| 0 <= i < pairs.len() implies (
            #[trigger] pairs[i]).1.shard_info is Some by {
                if i < init.len() {
                    assert(init[i] == pairs[i]);
                }
            }
        } else if read_tables_by_shard(init) is Err {
            let i = choose|i: int|
                0 <= i < init.len() && (#[trigger] init[i]).1.shard_info is None;
            assert(init[i] == pairs[i]);
        } else {
            assert(pairs[pairs.len() - 1].1.shard_info is None);
        }
    }
}

/// Where no shard is named twice, the tables that are found for a shard are those that the
/// answer gives for it, and only shards that the answer names are found.
pub proof fn law_tables_are_found_by_shard(pairs: Seq<(ShardId, meta_service::TablesOfShard)>)
    requires
        forall|i: int, j: int|
            0 <= i < j < pairs.len() ==> (#[trigger] pairs[i]).0 != (#[trigger] pairs[j]).0,
        read_tables_by_shard(pairs) is Ok,
    ensures
        forall|i: int|
            0 <= i < pairs.len() ==> {
                &&& read_tables_by_shard(pairs)->Ok_0.contains_key((#[trigger] pairs[i]).0)
                &&& read_tables_of_shard(pairs[i].1) == Ok::<TablesOfShardView, ErrorView>(
                    read_tables_by_shard(pairs)->Ok_0[pairs[i].0],
                )
            },
        forall|id: ShardId|
            read_tables_by_shard(pairs)->Ok_0.contains_key(id) ==> exists|i: int|
                0 <= i < pairs.len() && (#[trigger] pairs[i]).0 == id,
    decreases pairs.len(),
{
    if pairs.len() > 0 {
        let init = pairs.drop_last();
        let last = pairs.len() - 1;
        assert forall|i: int, j: int| 0 <= i < j < init.len() implies (#[trigger] init[i]).0 != (
        #[trigger] init[j]).0 by {
            assert(init[i] == pairs[i] && init[j] == pairs[j]);
        }
        law_tables_are_found_by_shard(init);
        let found = read_tables_by_shard(pairs)->Ok_0;
        assert forall|i: int| 0 <= i < pairs.len() implies {
            &&& found.contains_key((#[trigger] pairs[i]).0)
            &&& read_tables_of_shard(pairs[i].1) == Ok::<TablesOfShardView, ErrorView>(
                found[pairs[i].0],
            )
        } by {
            if i < last {
                assert(init[i] == pairs[i]);
                assert(pairs[i].0 != pairs[last].0);
            }
        }
        assert forall|id: ShardId| found.contains_key(id) implies exists|i: int|
            0 <= i < pairs.len() && (#[trigger] pairs[i]).0 == id by {
            if id == pairs[last].0 {
            } else {
                let i = choose|i: int| 0 <= i < init.len() && (#[trigger] init[i]).0 == id;
                assert(pairs[i].0 == id);
            }
        }
    }
}

/// A duration of whole seconds lasts exactly as many seconds.
pub proof fn law_duration_lasts_its_seconds(secs: u64, duration: ReadableDuration)
    requires
        call_ensures(ReadableDuration::secs, (secs,), duration),
    ensures
        duration.secs * 1_000_000_000 + duration.nanos == secs * 1_000_000_000,
        duration.nanos < 1_000_000_000,
{
}

} // verus!
