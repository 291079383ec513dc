//! The role of a shard as the messages of the meta service give it.

use ceresdbproto::cluster as cluster_pb;
use ceresdbproto::meta_service as meta_service_pb;
use vstd::prelude::*;

verus! {

/// The role of a shard in a message.
#[derive(Clone, Copy, Debug, PartialEq, Eq, Structural)]
pub enum ShardRole {
    Leader,
    Follower,
    PendingLeader,
    PendingFollower,
}

/// The number that stands for `role` in a message.
pub open spec fn role_code(role: ShardRole) -> i32 {
    match role {
        ShardRole::Leader => 0,
        ShardRole::Follower => 1,
        ShardRole::PendingLeader => 2,
        ShardRole::PendingFollower => 3,
    }
}

/// The role that `code` stands for. A number that stands for no role is read as the
/// first one.
pub open spec fn code_role(code: i32) -> ShardRole {
    if code == 1 {
        ShardRole::Follower
    } else if code == 2 {
        ShardRole::PendingLeader
    } else if code == 3 {
        ShardRole::PendingFollower
    } else {
        ShardRole::Leader
    }
}

/// The discriminant of `ceresdbproto::cluster::ShardRole`, taken with `as i32`: the numbers
/// that the protocol gives to the four roles, from zero in the order in which they are listed.
#[verifier::external_body]
pub(crate) fn encode_role(role: ShardRole) -> (code: i32)
    ensures
        code == role_code(role),
{
    let role = match role {
        ShardRole::Leader => cluster_pb::ShardRole::Leader,
        ShardRole::Follower => cluster_pb::ShardRole::Follower,
        ShardRole::PendingLeader => cluster_pb::ShardRole::PendingLeader,
        ShardRole::PendingFollower => cluster_pb::ShardRole::PendingFollower,
    };
    role as i32
}

/// `ceresdbproto::meta_service::ShardInfo::role` on a message whose role is `code`: the role
/// with that number, and the first role where no role has it.
#[verifier::external_body]
pub(crate) fn decode_role(code: i32) -> (role: ShardRole)
    ensures
        role == code_role(code),
{
    let message = meta_service_pb::ShardInfo { role: code, ..Default::default() };
    match message.role() {
        cluster_pb::ShardRole::Leader => ShardRole::Leader,
        cluster_pb::ShardRole::Follower => ShardRole::Follower,
        cluster_pb::ShardRole::PendingLeader => ShardRole::PendingLeader,
        cluster_pb::ShardRole::PendingFollower => ShardRole::PendingFollower,
    }
}

} // verus!
