use sentc_crypto::error::SdkError;
use sentc_crypto::group_rank_check::{
    check_create_sub_group, check_delete_user_rank, check_get_join_reqs, check_group_delete,
    check_kick_user, check_make_invite_req, check_sent_join_req_list,
};

#[test]
fn kick_user_succeeds_for_admin_over_lower_member() {
    assert_eq!(check_kick_user(3, 2), Ok(()));
}

#[test]
fn kick_user_fails_when_target_outranks_admin() {
    assert_eq!(check_kick_user(1, 2), Err(SdkError::GroupUserKickRank));
}

#[test]
fn kick_user_fails_without_admin_rank() {
    assert_eq!(check_kick_user(4, 3), Err(SdkError::GroupPermission));
}

#[test]
fn kick_user_allows_equal_rank() {
    assert_eq!(check_kick_user(2, 2), Ok(()));
    assert_eq!(check_kick_user(0, 0), Ok(()));
}

#[test]
fn group_delete_needs_rank_one() {
    assert_eq!(check_group_delete(2), Err(SdkError::GroupPermission));
    assert_eq!(check_group_delete(1), Ok(()));
    assert_eq!(check_group_delete(0), Ok(()));
}

#[test]
fn member_admin_checks_need_rank_two() {
    assert_eq!(check_delete_user_rank(2), Ok(()));
    assert_eq!(check_delete_user_rank(3), Err(SdkError::GroupPermission));
    assert_eq!(check_get_join_reqs(2), Ok(()));
    assert_eq!(check_get_join_reqs(3), Err(SdkError::GroupPermission));
    assert_eq!(check_make_invite_req(2), Ok(()));
    assert_eq!(check_make_invite_req(3), Err(SdkError::GroupPermission));
}

#[test]
fn group_admin_checks_need_rank_one() {
    assert_eq!(check_create_sub_group(1), Ok(()));
    assert_eq!(check_create_sub_group(2), Err(SdkError::GroupPermission));
    assert_eq!(check_sent_join_req_list(1), Ok(()));
    assert_eq!(check_sent_join_req_list(2), Err(SdkError::GroupPermission));
}
