//! Client side permission checks on group ranks.
//!
//! A lower rank means more privileges: `0` is the creator of a group. The
//! checks let a caller skip a request that the server would reject anyway;
//! the server enforces the same rules again.

use vstd::prelude::*;

use crate::error::SdkError;

verus! {

/// The weakest rank that may manage the members of a group.
pub const MEMBER_ADMIN_RANK: i32 = 2;

/// The weakest rank that may change the group itself.
pub const GROUP_ADMIN_RANK: i32 = 1;

/// Whether `rank` is at least as privileged as `limit`.
pub open spec fn rank_allows(rank: i32, limit: i32) -> bool {
    rank <= limit
}

/// What a check answers for a caller of rank `admin_rank` when the action
/// needs at least the rank `limit`.
pub open spec fn rank_check_result(admin_rank: i32, limit: i32) -> Result<(), SdkError> {
    if rank_allows(admin_rank, limit) {
        Ok(())
    } else {
        Err(SdkError::GroupPermission)
    }
}

/// What `check_kick_user` answers.
pub open spec fn kick_user_result(user_rank: i32, admin_rank: i32) -> Result<(), SdkError> {
    if !rank_allows(admin_rank, MEMBER_ADMIN_RANK) {
        Err(SdkError::GroupPermission)
    } else if !rank_allows(admin_rank, user_rank) {
        Err(SdkError::GroupUserKickRank)
    } else {
        Ok(())
    }
}

fn check_rank(admin_rank: i32, limit: i32) -> (res: Result<(), SdkError>)
    ensures
        res == rank_check_result(admin_rank, limit),
{
    if admin_rank > limit {
        return Err(SdkError::GroupPermission);
    }
    Ok(())
}

/// May a member of rank `admin_rank` remove a member of rank `user_rank`?
///
/// The caller must be a member admin, and the target must not outrank the
/// caller.
pub fn check_kick_user(user_rank: i32, admin_rank: i32) -> (res: Result<(), SdkError>)
    ensures
        res == kick_user_result(user_rank, admin_rank),
        res is Ok <==> admin_rank <= 2 && admin_rank <= user_rank,
{
    if admin_rank > MEMBER_ADMIN_RANK {
        return Err(SdkError::GroupPermission);
    }
    if admin_rank > user_rank {
        return Err(SdkError::GroupUserKickRank);
    }
    Ok(())
}

/// May a member of rank `admin_rank` delete the group?
pub fn check_group_delete(admin_rank: i32) -> (res: Result<(), SdkError>)
    ensures
        res == rank_check_result(admin_rank, GROUP_ADMIN_RANK),
        res is Ok <==> admin_rank <= 1,
{
    check_rank(admin_rank, GROUP_ADMIN_RANK)
}

/// May a member of rank `admin_rank` change the rank of another member?
pub fn check_delete_user_rank(admin_rank: i32) -> (res: Result<(), SdkError>)
    ensures
        res == rank_check_result(admin_rank, MEMBER_ADMIN_RANK),
        res is Ok <==> admin_rank <= 2,
{
    check_rank(admin_rank, MEMBER_ADMIN_RANK)
}

/// May a member of rank `admin_rank` list the join requests of the group?
pub fn check_get_join_reqs(admin_rank: i32) -> (res: Result<(), SdkError>)
    ensures
        res == rank_check_result(admin_rank, MEMBER_ADMIN_RANK),
        res is Ok <==> admin_rank <= 2,
{
    check_rank(admin_rank, MEMBER_ADMIN_RANK)
}

/// May a member of rank `admin_rank` invite a user?
pub fn check_make_invite_req(admin_rank: i32) -> (res: Result<(), SdkError>)
    ensures
        res == rank_check_result(admin_rank, MEMBER_ADMIN_RANK),
        res is Ok <==> admin_rank <= 2,
{
    check_rank(admin_rank, MEMBER_ADMIN_RANK)
}

/// May a member of rank `admin_rank` create a child group?
pub fn check_create_sub_group(admin_rank: i32) -> (res: Result<(), SdkError>)
    ensures
        res == rank_check_result(admin_rank, GROUP_ADMIN_RANK),
        res is Ok <==> admin_rank <= 1,
{
    check_rank(admin_rank, GROUP_ADMIN_RANK)
}

/// May a member of rank `admin_rank` list the join requests that the group
/// has sent to other groups?
pub fn check_sent_join_req_list(admin_rank: i32) -> (res: Result<(), SdkError>)
    ensures
        res == rank_check_result(admin_rank, GROUP_ADMIN_RANK),
        res is Ok <==> admin_rank <= 1,
{
    check_rank(admin_rank, GROUP_ADMIN_RANK)
}

} // verus!
