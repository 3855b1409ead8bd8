//! What each operation sends, parameter by parameter.

use vstd::prelude::*;

use crate::id::Uuid;
use crate::json::Json;
use crate::publish::PublishCollabItem;
use crate::sql::{
    CHANGE_WORKSPACE_ICON, DELETE_FROM_WORKSPACE, DELETE_PUBLISHED_COLLABS,
    DELETE_WORKSPACE_MEMBERS, GET_INVITATION_BY_ID, INSERT_OR_REPLACE_PUBLISH_COLLAB_METAS,
    INSERT_USER_WORKSPACE, INSERT_WORKSPACE_INVITATION, IS_WORKSPACE_EXIST, RENAME_WORKSPACE,
    SELECT_ALL_USER_WORKSPACES, SELECT_IS_WORKSPACE_OWNER_BY_EMAIL, SELECT_PERMISSION,
    SELECT_PERMISSION_FROM_ROLE_ID, SELECT_PUBLISHED_COLLAB_BLOB, SELECT_PUBLISHED_COLLAB_INFO,
    SELECT_PUBLISH_COLLAB_META, SELECT_USER_CAN_EDIT_COLLAB,
    SELECT_USER_IS_COLLAB_PUBLISHER_FOR_ALL_VIEWS, SELECT_USER_IS_WORKSPACE_OWNER,
    SELECT_USER_PROFILE, SELECT_USER_ROLE, SELECT_WORKSPACE,
    SELECT_WORKSPACE_INVITATIONS_FOR_USER, SELECT_WORKSPACE_MEMBER,
    SELECT_WORKSPACE_MEMBER_COUNT_FROM_WORKSPACE_ID, SELECT_WORKSPACE_MEMBER_LIST,
    SELECT_WORKSPACE_MEMBER_PERM_STREAM, SELECT_WORKSPACE_NAME_FROM_WORKSPACE_ID,
    SELECT_WORKSPACE_PENDING_INVITATIONS, SELECT_WORKSPACE_PUBLISH_NAMESPACE,
    SELECT_WORKSPACE_PUBLISH_NAMESPACE_EXISTS, SELECT_WORKSPACE_SETTINGS,
    SELECT_WORKSPACE_TOTAL_COLLAB_BYTES, UPDATE_UPDATED_AT_OF_WORKSPACE,
    UPDATE_WORKSPACE_INVITATION_SET_STATUS_ACCEPTED, UPDATE_WORKSPACE_PUBLISH_NAMESPACE,
    UPSERT_WORKSPACE_MEMBER, UPSERT_WORKSPACE_MEMBER_WITH_TXN, UPSERT_WORKSPACE_SETTINGS,
};
use crate::statement::{Bind, Statement};

verus! {

/// The statement takes `workspace_id` as its first parameter.
pub proof fn law_sent_by_delete_from_workspace(workspace_id: Uuid, statement: Statement)
    requires
        call_ensures(Statement::delete_from_workspace, (&workspace_id,), statement),
    ensures
        statement.sql@ == DELETE_FROM_WORKSPACE@,
        statement.binds@.len() == 1,
        statement.binds@[0] == Bind::Uuid(workspace_id),
{
    let binds = statement.deep_view().binds;
    assert(binds.len() == statement.binds@.len());
    assert(binds[0] == statement.binds@[0].deep_view());
}

/// The statement takes `user_uuid` as its first and `workspace_name` as its second parameter.
pub proof fn law_sent_by_insert_user_workspace(
    user_uuid: Uuid,
    workspace_name: &str,
    statement: Statement,
)
    requires
        call_ensures(Statement::insert_user_workspace, (&user_uuid, workspace_name), statement),
    ensures
        statement.sql@ == INSERT_USER_WORKSPACE@,
        statement.binds@.len() == 2,
        statement.binds@[0] == Bind::Uuid(user_uuid),
        statement.binds@[1] matches Bind::Text(text) && text@ == workspace_name@,
{
    let binds = statement.deep_view().binds;
    assert(binds.len() == statement.binds@.len());
    assert(binds[0] == statement.binds@[0].deep_view());
    assert(binds[1] == statement.binds@[1].deep_view());
}

/// The statement takes `new_workspace_name` as its first and `workspace_id` as its second
/// parameter.
pub proof fn law_sent_by_rename_workspace(
    workspace_id: Uuid,
    new_workspace_name: &str,
    statement: Statement,
)
    requires
        call_ensures(Statement::rename_workspace, (&workspace_id, new_workspace_name), statement),
    ensures
        statement.sql@ == RENAME_WORKSPACE@,
        statement.binds@.len() == 2,
        statement.binds@[0] matches Bind::Text(text) && text@ == new_workspace_name@,
        statement.binds@[1] == Bind::Uuid(workspace_id),
{
    let binds = statement.deep_view().binds;
    assert(binds.len() == statement.binds@.len());
    assert(binds[0] == statement.binds@[0].deep_view());
    assert(binds[1] == statement.binds@[1].deep_view());
}

/// The statement takes `icon` as its first and `workspace_id` as its second parameter.
pub proof fn law_sent_by_change_workspace_icon(workspace_id: Uuid, icon: &str, statement: Statement)
    requires
        call_ensures(Statement::change_workspace_icon, (&workspace_id, icon), statement),
    ensures
        statement.sql@ == CHANGE_WORKSPACE_ICON@,
        statement.binds@.len() == 2,
        statement.binds@[0] matches Bind::Text(text) && text@ == icon@,
        statement.binds@[1] == Bind::Uuid(workspace_id),
{
    let binds = statement.deep_view().binds;
    assert(binds.len() == statement.binds@.len());
    assert(binds[0] == statement.binds@[0].deep_view());
    assert(binds[1] == statement.binds@[1].deep_view());
}

/// The statement takes `workspace_uuid` as its first and `user_uuid` as its second parameter.
pub proof fn law_sent_by_select_user_is_workspace_owner(
    user_uuid: Uuid,
    workspace_uuid: Uuid,
    statement: Statement,
)
    requires
        call_ensures(
            Statement::select_user_is_workspace_owner,
            (&user_uuid, &workspace_uuid),
            statement,
        ),
    ensures
        statement.sql@ == SELECT_USER_IS_WORKSPACE_OWNER@,
        statement.binds@.len() == 2,
        statement.binds@[0] == Bind::Uuid(workspace_uuid),
        statement.binds@[1] == Bind::Uuid(user_uuid),
{
    let binds = statement.deep_view().binds;
    assert(binds.len() == statement.binds@.len());
    assert(binds[0] == statement.binds@[0].deep_view());
    assert(binds[1] == statement.binds@[1].deep_view());
}

/// The statement takes `workspace_uuid` as its first, `view_ids` as its second and `user_uuid` as
/// its third parameter.
pub proof fn law_sent_by_select_user_is_collab_publisher_for_all_views(
    user_uuid: Uuid,
    workspace_uuid: Uuid,
    view_ids: &[Uuid],
    statement: Statement,
)
    requires
        call_ensures(
            Statement::select_user_is_collab_publisher_for_all_views,
            (&user_uuid, &workspace_uuid, view_ids),
            statement,
        ),
    ensures
        statement.sql@ == SELECT_USER_IS_COLLAB_PUBLISHER_FOR_ALL_VIEWS@,
        statement.binds@.len() == 3,
        statement.binds@[0] == Bind::Uuid(workspace_uuid),
        statement.binds@[1] matches Bind::Uuids(ids) && ids@ == view_ids@,
        statement.binds@[2] == Bind::Uuid(user_uuid),
{
    let binds = statement.deep_view().binds;
    assert(binds.len() == statement.binds@.len());
    assert(binds[0] == statement.binds@[0].deep_view());
    assert(binds[1] == statement.binds@[1].deep_view());
    assert(binds[2] == statement.binds@[2].deep_view());
}

/// The statement takes `workspace_uuid` as its first and `uid` as its second parameter.
pub proof fn law_sent_by_select_user_role(uid: i64, workspace_uuid: Uuid, statement: Statement)
    requires
        call_ensures(Statement::select_user_role, (&uid, &workspace_uuid), statement),
    ensures
        statement.sql@ == SELECT_USER_ROLE@,
        statement.binds@.len() == 2,
        statement.binds@[0] == Bind::Uuid(workspace_uuid),
        statement.binds@[1] == Bind::BigInt(uid),
{
    let binds = statement.deep_view().binds;
    assert(binds.len() == statement.binds@.len());
    assert(binds[0] == statement.binds@[0].deep_view());
    assert(binds[1] == statement.binds@[1].deep_view());
}

/// The statement takes `user_uuid` as its first, `object_id` as its second and `workspace_id` as
/// its third parameter.
pub proof fn law_sent_by_select_user_can_edit_collab(
    user_uuid: Uuid,
    workspace_id: Uuid,
    object_id: &str,
    statement: Statement,
)
    requires
        call_ensures(
            Statement::select_user_can_edit_collab,
            (&user_uuid, &workspace_id, object_id),
            statement,
        ),
    ensures
        statement.sql@ == SELECT_USER_CAN_EDIT_COLLAB@,
        statement.binds@.len() == 3,
        statement.binds@[0] == Bind::Uuid(user_uuid),
        statement.binds@[1] matches Bind::Text(text) && text@ == object_id@,
        statement.binds@[2] == Bind::Uuid(workspace_id),
{
    let binds = statement.deep_view().binds;
    assert(binds.len() == statement.binds@.len());
    assert(binds[0] == statement.binds@[0].deep_view());
    assert(binds[1] == statement.binds@[1].deep_view());
    assert(binds[2] == statement.binds@[2].deep_view());
}

/// The statement takes `workspace_id` as its first, `member_email` as its second and `role_id` as
/// its third parameter.
pub proof fn law_sent_by_upsert_workspace_member_with_txn(
    workspace_id: Uuid,
    member_email: &str,
    role_id: i32,
    statement: Statement,
)
    requires
        call_ensures(
            Statement::upsert_workspace_member_with_txn,
            (&workspace_id, member_email, role_id),
            statement,
        ),
    ensures
        statement.sql@ == UPSERT_WORKSPACE_MEMBER_WITH_TXN@,
        statement.binds@.len() == 3,
        statement.binds@[0] == Bind::Uuid(workspace_id),
        statement.binds@[1] matches Bind::Text(text) && text@ == member_email@,
        statement.binds@[2] == Bind::Int(role_id),
{
    let binds = statement.deep_view().binds;
    assert(binds.len() == statement.binds@.len());
    assert(binds[0] == statement.binds@[0].deep_view());
    assert(binds[1] == statement.binds@[1].deep_view());
    assert(binds[2] == statement.binds@[2].deep_view());
}

/// The statement takes `invite_id` as its first, `workspace_id` as its second, `inviter_uuid` as
/// its third, `invitee_email` as its fourth and `role_id` as its fifth parameter.
pub proof fn law_sent_by_insert_workspace_invitation(
    invite_id: Uuid,
    workspace_id: Uuid,
    inviter_uuid: Uuid,
    invitee_email: &str,
    role_id: i32,
    statement: Statement,
)
    requires
        call_ensures(
            Statement::insert_workspace_invitation,
            (&invite_id, &workspace_id, &inviter_uuid, invitee_email, role_id),
            statement,
        ),
    ensures
        statement.sql@ == INSERT_WORKSPACE_INVITATION@,
        statement.binds@.len() == 5,
        statement.binds@[0] == Bind::Uuid(invite_id),
        statement.binds@[1] == Bind::Uuid(workspace_id),
        statement.binds@[2] == Bind::Uuid(inviter_uuid),
        statement.binds@[3] matches Bind::Text(text) && text@ == invitee_email@,
        statement.binds@[4] == Bind::Int(role_id),
{
    let binds = statement.deep_view().binds;
    assert(binds.len() == statement.binds@.len());
    assert(binds[0] == statement.binds@[0].deep_view());
    assert(binds[1] == statement.binds@[1].deep_view());
    assert(binds[2] == statement.binds@[2].deep_view());
    assert(binds[3] == statement.binds@[3].deep_view());
    assert(binds[4] == statement.binds@[4].deep_view());
}

/// The statement takes `invitee_uuid` as its first and `invite_id` as its second parameter.
pub proof fn law_sent_by_update_workspace_invitation_set_status_accepted(
    invitee_uuid: Uuid,
    invite_id: Uuid,
    statement: Statement,
)
    requires
        call_ensures(
            Statement::update_workspace_invitation_set_status_accepted,
            (&invitee_uuid, &invite_id),
            statement,
        ),
    ensures
        statement.sql@ == UPDATE_WORKSPACE_INVITATION_SET_STATUS_ACCEPTED@,
        statement.binds@.len() == 2,
        statement.binds@[0] == Bind::Uuid(invitee_uuid),
        statement.binds@[1] == Bind::Uuid(invite_id),
{
    let binds = statement.deep_view().binds;
    assert(binds.len() == statement.binds@.len());
    assert(binds[0] == statement.binds@[0].deep_view());
    assert(binds[1] == statement.binds@[1].deep_view());
}

/// The statement takes `invite_id` as its first parameter.
pub proof fn law_sent_by_get_invitation_by_id(invite_id: Uuid, statement: Statement)
    requires
        call_ensures(Statement::get_invitation_by_id, (&invite_id,), statement),
    ensures
        statement.sql@ == GET_INVITATION_BY_ID@,
        statement.binds@.len() == 1,
        statement.binds@[0] == Bind::Uuid(invite_id),
{
    let binds = statement.deep_view().binds;
    assert(binds.len() == statement.binds@.len());
    assert(binds[0] == statement.binds@[0].deep_view());
}

/// The statement takes `invitee_uuid` as its first and `status_filter` as its second parameter.
pub proof fn law_sent_by_select_workspace_invitations_for_user(
    invitee_uuid: Uuid,
    status_filter: Option<i16>,
    statement: Statement,
)
    requires
        call_ensures(
            Statement::select_workspace_invitations_for_user,
            (&invitee_uuid, status_filter),
            statement,
        ),
    ensures
        statement.sql@ == SELECT_WORKSPACE_INVITATIONS_FOR_USER@,
        statement.binds@.len() == 2,
        statement.binds@[0] == Bind::Uuid(invitee_uuid),
        statement.binds@[1] == Bind::SmallInt(status_filter),
{
    let binds = statement.deep_view().binds;
    assert(binds.len() == statement.binds@.len());
    assert(binds[0] == statement.binds@[0].deep_view());
    assert(binds[1] == statement.binds@[1].deep_view());
}

/// The statement takes `role_id` as its first, `workspace_id` as its second and `email` as its
/// third parameter.
pub proof fn law_sent_by_upsert_workspace_member(
    workspace_id: Uuid,
    email: &str,
    role_id: i32,
    statement: Statement,
)
    requires
        call_ensures(
            Statement::upsert_workspace_member,
            (&workspace_id, email, role_id),
            statement,
        ),
    ensures
        statement.sql@ == UPSERT_WORKSPACE_MEMBER@,
        statement.binds@.len() == 3,
        statement.binds@[0] == Bind::Int(role_id),
        statement.binds@[1] == Bind::Uuid(workspace_id),
        statement.binds@[2] matches Bind::Text(text) && text@ == email@,
{
    let binds = statement.deep_view().binds;
    assert(binds.len() == statement.binds@.len());
    assert(binds[0] == statement.binds@[0].deep_view());
    assert(binds[1] == statement.binds@[1].deep_view());
    assert(binds[2] == statement.binds@[2].deep_view());
}

/// The statement takes `workspace_id` as its first and `member_email` as its second parameter.
pub proof fn law_sent_by_select_is_workspace_owner_by_email(
    workspace_id: Uuid,
    member_email: &str,
    statement: Statement,
)
    requires
        call_ensures(
            Statement::select_is_workspace_owner_by_email,
            (&workspace_id, member_email),
            statement,
        ),
    ensures
        statement.sql@ == SELECT_IS_WORKSPACE_OWNER_BY_EMAIL@,
        statement.binds@.len() == 2,
        statement.binds@[0] == Bind::Uuid(workspace_id),
        statement.binds@[1] matches Bind::Text(text) && text@ == member_email@,
{
    let binds = statement.deep_view().binds;
    assert(binds.len() == statement.binds@.len());
    assert(binds[0] == statement.binds@[0].deep_view());
    assert(binds[1] == statement.binds@[1].deep_view());
}

/// The statement takes `workspace_id` as its first and `member_email` as its second parameter.
pub proof fn law_sent_by_delete_workspace_members(
    workspace_id: Uuid,
    member_email: &str,
    statement: Statement,
)
    requires
        call_ensures(Statement::delete_workspace_members, (&workspace_id, member_email), statement),
    ensures
        statement.sql@ == DELETE_WORKSPACE_MEMBERS@,
        statement.binds@.len() == 2,
        statement.binds@[0] == Bind::Uuid(workspace_id),
        statement.binds@[1] matches Bind::Text(text) && text@ == member_email@,
{
    let binds = statement.deep_view().binds;
    assert(binds.len() == statement.binds@.len());
    assert(binds[0] == statement.binds@[0].deep_view());
    assert(binds[1] == statement.binds@[1].deep_view());
}

/// The statement takes no parameter.
pub proof fn law_sent_by_select_workspace_member_perm_stream(statement: Statement)
    requires
        call_ensures(Statement::select_workspace_member_perm_stream, (), statement),
    ensures
        statement.sql@ == SELECT_WORKSPACE_MEMBER_PERM_STREAM@,
        statement.binds@.len() == 0,
{
    let binds = statement.deep_view().binds;
    assert(binds.len() == statement.binds@.len());
}

/// The statement takes `workspace_id` as its first parameter.
pub proof fn law_sent_by_select_workspace_member_list(workspace_id: Uuid, statement: Statement)
    requires
        call_ensures(Statement::select_workspace_member_list, (&workspace_id,), statement),
    ensures
        statement.sql@ == SELECT_WORKSPACE_MEMBER_LIST@,
        statement.binds@.len() == 1,
        statement.binds@[0] == Bind::Uuid(workspace_id),
{
    let binds = statement.deep_view().binds;
    assert(binds.len() == statement.binds@.len());
    assert(binds[0] == statement.binds@[0].deep_view());
}

/// The statement takes `workspace_id` as its first and `uid` as its second parameter.
pub proof fn law_sent_by_select_workspace_member(uid: i64, workspace_id: Uuid, statement: Statement)
    requires
        call_ensures(Statement::select_workspace_member, (&uid, &workspace_id), statement),
    ensures
        statement.sql@ == SELECT_WORKSPACE_MEMBER@,
        statement.binds@.len() == 2,
        statement.binds@[0] == Bind::Uuid(workspace_id),
        statement.binds@[1] == Bind::BigInt(uid),
{
    let binds = statement.deep_view().binds;
    assert(binds.len() == statement.binds@.len());
    assert(binds[0] == statement.binds@[0].deep_view());
    assert(binds[1] == statement.binds@[1].deep_view());
}

/// The statement takes `user_uuid` as its first parameter.
pub proof fn law_sent_by_select_user_profile(user_uuid: Uuid, statement: Statement)
    requires
        call_ensures(Statement::select_user_profile, (&user_uuid,), statement),
    ensures
        statement.sql@ == SELECT_USER_PROFILE@,
        statement.binds@.len() == 1,
        statement.binds@[0] == Bind::Uuid(user_uuid),
{
    let binds = statement.deep_view().binds;
    assert(binds.len() == statement.binds@.len());
    assert(binds[0] == statement.binds@[0].deep_view());
}

/// The statement takes `workspace_id` as its first parameter.
pub proof fn law_sent_by_select_workspace(workspace_id: Uuid, statement: Statement)
    requires
        call_ensures(Statement::select_workspace, (&workspace_id,), statement),
    ensures
        statement.sql@ == SELECT_WORKSPACE@,
        statement.binds@.len() == 1,
        statement.binds@[0] == Bind::Uuid(workspace_id),
{
    let binds = statement.deep_view().binds;
    assert(binds.len() == statement.binds@.len());
    assert(binds[0] == statement.binds@[0].deep_view());
}

/// The statement takes `user_uuid` as its first and `workspace_id` as its second parameter.
pub proof fn law_sent_by_update_updated_at_of_workspace(
    user_uuid: Uuid,
    workspace_id: Uuid,
    statement: Statement,
)
    requires
        call_ensures(
            Statement::update_updated_at_of_workspace,
            (&user_uuid, &workspace_id),
            statement,
        ),
    ensures
        statement.sql@ == UPDATE_UPDATED_AT_OF_WORKSPACE@,
        statement.binds@.len() == 2,
        statement.binds@[0] == Bind::Uuid(user_uuid),
        statement.binds@[1] == Bind::Uuid(workspace_id),
{
    let binds = statement.deep_view().binds;
    assert(binds.len() == statement.binds@.len());
    assert(binds[0] == statement.binds@[0].deep_view());
    assert(binds[1] == statement.binds@[1].deep_view());
}

/// The statement takes `user_uuid` as its first parameter.
pub proof fn law_sent_by_select_all_user_workspaces(user_uuid: Uuid, statement: Statement)
    requires
        call_ensures(Statement::select_all_user_workspaces, (&user_uuid,), statement),
    ensures
        statement.sql@ == SELECT_ALL_USER_WORKSPACES@,
        statement.binds@.len() == 1,
        statement.binds@[0] == Bind::Uuid(user_uuid),
{
    let binds = statement.deep_view().binds;
    assert(binds.len() == statement.binds@.len());
    assert(binds[0] == statement.binds@[0].deep_view());
}

/// The statement takes `permission_id` as its first parameter.
pub proof fn law_sent_by_select_permission(permission_id: i64, statement: Statement)
    requires
        call_ensures(Statement::select_permission, (&permission_id,), statement),
    ensures
        statement.sql@ == SELECT_PERMISSION@,
        statement.binds@.len() == 1,
        statement.binds@[0] == Bind::Int(permission_id as i32),
{
    let binds = statement.deep_view().binds;
    assert(binds.len() == statement.binds@.len());
    assert(binds[0] == statement.binds@[0].deep_view());
}

/// The statement takes `role_id` as its first parameter.
pub proof fn law_sent_by_select_permission_from_role_id(role_id: i64, statement: Statement)
    requires
        call_ensures(Statement::select_permission_from_role_id, (&role_id,), statement),
    ensures
        statement.sql@ == SELECT_PERMISSION_FROM_ROLE_ID@,
        statement.binds@.len() == 1,
        statement.binds@[0] == Bind::Int(role_id as i32),
{
    let binds = statement.deep_view().binds;
    assert(binds.len() == statement.binds@.len());
    assert(binds[0] == statement.binds@[0].deep_view());
}

/// The statement takes `workspace_id` as its first parameter.
pub proof fn law_sent_by_select_workspace_total_collab_bytes(
    workspace_id: Uuid,
    statement: Statement,
)
    requires
        call_ensures(Statement::select_workspace_total_collab_bytes, (&workspace_id,), statement),
    ensures
        statement.sql@ == SELECT_WORKSPACE_TOTAL_COLLAB_BYTES@,
        statement.binds@.len() == 1,
        statement.binds@[0] == Bind::Uuid(workspace_id),
{
    let binds = statement.deep_view().binds;
    assert(binds.len() == statement.binds@.len());
    assert(binds[0] == statement.binds@[0].deep_view());
}

/// The statement takes `workspace_id` as its first parameter.
pub proof fn law_sent_by_select_workspace_name_from_workspace_id(
    workspace_id: Uuid,
    statement: Statement,
)
    requires
        call_ensures(
            Statement::select_workspace_name_from_workspace_id,
            (&workspace_id,),
            statement,
        ),
    ensures
        statement.sql@ == SELECT_WORKSPACE_NAME_FROM_WORKSPACE_ID@,
        statement.binds@.len() == 1,
        statement.binds@[0] == Bind::Uuid(workspace_id),
{
    let binds = statement.deep_view().binds;
    assert(binds.len() == statement.binds@.len());
    assert(binds[0] == statement.binds@[0].deep_view());
}

/// The statement takes `workspace_id` as its first parameter.
pub proof fn law_sent_by_select_workspace_member_count_from_workspace_id(
    workspace_id: Uuid,
    statement: Statement,
)
    requires
        call_ensures(
            Statement::select_workspace_member_count_from_workspace_id,
            (&workspace_id,),
            statement,
        ),
    ensures
        statement.sql@ == SELECT_WORKSPACE_MEMBER_COUNT_FROM_WORKSPACE_ID@,
        statement.binds@.len() == 1,
        statement.binds@[0] == Bind::Uuid(workspace_id),
{
    let binds = statement.deep_view().binds;
    assert(binds.len() == statement.binds@.len());
    assert(binds[0] == statement.binds@[0].deep_view());
}

/// The statement takes `workspace_id` as its first parameter.
pub proof fn law_sent_by_select_workspace_pending_invitations(
    workspace_id: Uuid,
    statement: Statement,
)
    requires
        call_ensures(Statement::select_workspace_pending_invitations, (&workspace_id,), statement),
    ensures
        statement.sql@ == SELECT_WORKSPACE_PENDING_INVITATIONS@,
        statement.binds@.len() == 1,
        statement.binds@[0] == Bind::Uuid(workspace_id),
{
    let binds = statement.deep_view().binds;
    assert(binds.len() == statement.binds@.len());
    assert(binds[0] == statement.binds@[0].deep_view());
}

/// The statement takes `workspace_id` as its first parameter.
pub proof fn law_sent_by_is_workspace_exist(workspace_id: Uuid, statement: Statement)
    requires
        call_ensures(Statement::is_workspace_exist, (&workspace_id,), statement),
    ensures
        statement.sql@ == IS_WORKSPACE_EXIST@,
        statement.binds@.len() == 1,
        statement.binds@[0] == Bind::Uuid(workspace_id),
{
    let binds = statement.deep_view().binds;
    assert(binds.len() == statement.binds@.len());
    assert(binds[0] == statement.binds@[0].deep_view());
}

/// The statement takes `workspace_id` as its first parameter.
pub proof fn law_sent_by_select_workspace_settings(workspace_id: Uuid, statement: Statement)
    requires
        call_ensures(Statement::select_workspace_settings, (&workspace_id,), statement),
    ensures
        statement.sql@ == SELECT_WORKSPACE_SETTINGS@,
        statement.binds@.len() == 1,
        statement.binds@[0] == Bind::Uuid(workspace_id),
{
    let binds = statement.deep_view().binds;
    assert(binds.len() == statement.binds@.len());
    assert(binds[0] == statement.binds@[0].deep_view());
}

/// The statement takes `settings` as its first and `workspace_id` as its second parameter.
pub proof fn law_sent_by_upsert_workspace_settings(
    workspace_id: Uuid,
    settings: Json,
    statement: Statement,
)
    requires
        call_ensures(Statement::upsert_workspace_settings, (&workspace_id, &settings), statement),
    ensures
        statement.sql@ == UPSERT_WORKSPACE_SETTINGS@,
        statement.binds@.len() == 2,
        statement.binds@[0] matches Bind::Json(json) && json.value == settings.value,
        statement.binds@[1] == Bind::Uuid(workspace_id),
{
    let binds = statement.deep_view().binds;
    assert(binds.len() == statement.binds@.len());
    assert(binds[0] == statement.binds@[0].deep_view());
    assert(binds[1] == statement.binds@[1].deep_view());
}

/// The statement takes `workspace_id` as its first and `namespace` as its second parameter.
pub proof fn law_sent_by_select_workspace_publish_namespace_exists(
    workspace_id: Uuid,
    namespace: &str,
    statement: Statement,
)
    requires
        call_ensures(
            Statement::select_workspace_publish_namespace_exists,
            (&workspace_id, namespace),
            statement,
        ),
    ensures
        statement.sql@ == SELECT_WORKSPACE_PUBLISH_NAMESPACE_EXISTS@,
        statement.binds@.len() == 2,
        statement.binds@[0] == Bind::Uuid(workspace_id),
        statement.binds@[1] matches Bind::Text(text) && text@ == namespace@,
{
    let binds = statement.deep_view().binds;
    assert(binds.len() == statement.binds@.len());
    assert(binds[0] == statement.binds@[0].deep_view());
    assert(binds[1] == statement.binds@[1].deep_view());
}

/// The statement takes `new_namespace` as its first and `workspace_id` as its second parameter.
pub proof fn law_sent_by_update_workspace_publish_namespace(
    workspace_id: Uuid,
    new_namespace: &str,
    statement: Statement,
)
    requires
        call_ensures(
            Statement::update_workspace_publish_namespace,
            (&workspace_id, new_namespace),
            statement,
        ),
    ensures
        statement.sql@ == UPDATE_WORKSPACE_PUBLISH_NAMESPACE@,
        statement.binds@.len() == 2,
        statement.binds@[0] matches Bind::Text(text) && text@ == new_namespace@,
        statement.binds@[1] == Bind::Uuid(workspace_id),
{
    let binds = statement.deep_view().binds;
    assert(binds.len() == statement.binds@.len());
    assert(binds[0] == statement.binds@[0].deep_view());
    assert(binds[1] == statement.binds@[1].deep_view());
}

/// The statement takes `workspace_id` as its first parameter.
pub proof fn law_sent_by_select_workspace_publish_namespace(
    workspace_id: Uuid,
    statement: Statement,
)
    requires
        call_ensures(Statement::select_workspace_publish_namespace, (&workspace_id,), statement),
    ensures
        statement.sql@ == SELECT_WORKSPACE_PUBLISH_NAMESPACE@,
        statement.binds@.len() == 1,
        statement.binds@[0] == Bind::Uuid(workspace_id),
{
    let binds = statement.deep_view().binds;
    assert(binds.len() == statement.binds@.len());
    assert(binds[0] == statement.binds@[0].deep_view());
}

/// The statement takes `publish_namespace` as its first and `publish_name` as its second parameter.
pub proof fn law_sent_by_select_publish_collab_meta(
    publish_namespace: &str,
    publish_name: &str,
    statement: Statement,
)
    requires
        call_ensures(
            Statement::select_publish_collab_meta,
            (publish_namespace, publish_name),
            statement,
        ),
    ensures
        statement.sql@ == SELECT_PUBLISH_COLLAB_META@,
        statement.binds@.len() == 2,
        statement.binds@[0] matches Bind::Text(text) && text@ == publish_namespace@,
        statement.binds@[1] matches Bind::Text(text) && text@ == publish_name@,
{
    let binds = statement.deep_view().binds;
    assert(binds.len() == statement.binds@.len());
    assert(binds[0] == statement.binds@[0].deep_view());
    assert(binds[1] == statement.binds@[1].deep_view());
}

/// The statement takes `workspace_id` as its first and `view_ids` as its second parameter.
pub proof fn law_sent_by_delete_published_collabs(
    workspace_id: Uuid,
    view_ids: &[Uuid],
    statement: Statement,
)
    requires
        call_ensures(Statement::delete_published_collabs, (&workspace_id, view_ids), statement),
    ensures
        statement.sql@ == DELETE_PUBLISHED_COLLABS@,
        statement.binds@.len() == 2,
        statement.binds@[0] == Bind::Uuid(workspace_id),
        statement.binds@[1] matches Bind::Uuids(ids) && ids@ == view_ids@,
{
    let binds = statement.deep_view().binds;
    assert(binds.len() == statement.binds@.len());
    assert(binds[0] == statement.binds@[0].deep_view());
    assert(binds[1] == statement.binds@[1].deep_view());
}

/// The statement takes `publish_namespace` as its first and `publish_name` as its second parameter.
pub proof fn law_sent_by_select_published_collab_blob(
    publish_namespace: &str,
    publish_name: &str,
    statement: Statement,
)
    requires
        call_ensures(
            Statement::select_published_collab_blob,
            (publish_namespace, publish_name),
            statement,
        ),
    ensures
        statement.sql@ == SELECT_PUBLISHED_COLLAB_BLOB@,
        statement.binds@.len() == 2,
        statement.binds@[0] matches Bind::Text(text) && text@ == publish_namespace@,
        statement.binds@[1] matches Bind::Text(text) && text@ == publish_name@,
{
    let binds = statement.deep_view().binds;
    assert(binds.len() == statement.binds@.len());
    assert(binds[0] == statement.binds@[0].deep_view());
    assert(binds[1] == statement.binds@[1].deep_view());
}

/// The statement takes `view_id` as its first parameter.
pub proof fn law_sent_by_select_published_collab_info(view_id: Uuid, statement: Statement)
    requires
        call_ensures(Statement::select_published_collab_info, (&view_id,), statement),
    ensures
        statement.sql@ == SELECT_PUBLISHED_COLLAB_INFO@,
        statement.binds@.len() == 1,
        statement.binds@[0] == Bind::Uuid(view_id),
{
    let binds = statement.deep_view().binds;
    assert(binds.len() == statement.binds@.len());
    assert(binds[0] == statement.binds@[0].deep_view());
}

/// Publishing sends the workspace, the views, the names, the publisher, the metadata, the blobs and
/// the number of the items; each of the arrays has, at the place of an item, what that item has.
pub proof fn law_sent_by_insert_or_replace_publish_collab_metas(
    workspace_id: Uuid,
    publisher_uuid: Uuid,
    publish_item: &[PublishCollabItem],
    statement: Statement,
)
    requires
        call_ensures(
            Statement::insert_or_replace_publish_collab_metas,
            (&workspace_id, &publisher_uuid, publish_item),
            statement,
        ),
    ensures
        statement.sql@ == INSERT_OR_REPLACE_PUBLISH_COLLAB_METAS@,
        statement.binds@.len() == 7,
        statement.binds@[0] == Bind::Uuid(workspace_id),
        statement.binds@[1] matches Bind::Uuids(ids) && ids@.len() == publish_item@.len()
            && forall|k: int|
            0 <= k < ids@.len() ==> #[trigger] ids@[k] == publish_item@[k].meta.view_id,
        statement.binds@[2] matches Bind::Texts(names) && names@.len() == publish_item@.len()
            && forall|k: int|
            0 <= k < names@.len() ==> (#[trigger] names@[k])@
                == publish_item@[k].meta.publish_name@,
        statement.binds@[3] == Bind::Uuid(publisher_uuid),
        statement.binds@[4] matches Bind::Jsons(jsons) && jsons@.len() == publish_item@.len()
            && forall|k: int|
            0 <= k < jsons@.len() ==> (#[trigger] jsons@[k]).value
                == publish_item@[k].meta.metadata.value,
        statement.binds@[5] matches Bind::Blobs(blobs) && blobs@.len() == publish_item@.len()
            && forall|k: int|
            0 <= k < blobs@.len() ==> (#[trigger] blobs@[k])@ == publish_item@[k].data@,
        statement.binds@[6] == Bind::Int(publish_item@.len() as i32),
{
    let binds = statement.deep_view().binds;
    let items = publish_item.deep_view();
    assert(binds.len() == statement.binds@.len());
    assert forall|i: int| 0 <= i < 7 implies #[trigger] binds[i]
        == statement.binds@[i].deep_view() by {}
    assert(items.len() == publish_item@.len());
    assert forall|k: int| 0 <= k < items.len() implies #[trigger] items[k]
        == publish_item@[k].deep_view() by {}
    assert(binds[0] == statement.binds@[0].deep_view());
    assert(binds[1] == statement.binds@[1].deep_view());
    assert(binds[2] == statement.binds@[2].deep_view());
    assert(binds[3] == statement.binds@[3].deep_view());
    assert(binds[4] == statement.binds@[4].deep_view());
    assert(binds[5] == statement.binds@[5].deep_view());
    assert(binds[6] == statement.binds@[6].deep_view());
    if let Bind::Uuids(ids) = statement.binds@[1] {
        assert forall|k: int| 0 <= k < ids@.len() implies #[trigger] ids@[k]
            == publish_item@[k].meta.view_id by {
            assert(items[k] == publish_item@[k].deep_view());
        }
    }
    if let Bind::Texts(names) = statement.binds@[2] {
        assert(names.deep_view().len() == names@.len());
        assert forall|k: int| 0 <= k < names@.len() implies (#[trigger] names@[k])@
            == publish_item@[k].meta.publish_name@ by {
            assert(names.deep_view()[k] == names@[k]@);
            assert(items[k] == publish_item@[k].deep_view());
        }
    }
    if let Bind::Jsons(jsons) = statement.binds@[4] {
        assert(jsons.deep_view().len() == jsons@.len());
        assert forall|k: int| 0 <= k < jsons@.len() implies (#[trigger] jsons@[k]).value
            == publish_item@[k].meta.metadata.value by {
            assert(jsons.deep_view()[k] == jsons@[k].value);
            assert(items[k] == publish_item@[k].deep_view());
        }
    }
    if let Bind::Blobs(blobs) = statement.binds@[5] {
        assert(blobs.deep_view().len() == blobs@.len());
        assert forall|k: int| 0 <= k < blobs@.len() implies (#[trigger] blobs@[k])@
            == publish_item@[k].data@ by {
            assert(blobs.deep_view()[k] == blobs@[k].deep_view());
            assert(blobs@[k].deep_view() =~= blobs@[k]@);
            assert(items[k] == publish_item@[k].deep_view());
        }
    }
}

} // verus!
