//! What the views of the rows show: every column, as it stands in the row.

use vstd::prelude::*;

use crate::error::{AppError, AppErrorView};
use crate::invitation::{AFWorkspaceInvitation, AFWorkspaceInvitationMinimal};
use crate::json::Json;
use crate::member::{AFWorkspaceMemberPermRow, AFWorkspaceMemberRow};
use crate::publish::{PublishCollabItem, PublishInfo};
use crate::tables::{
    AFPermissionRow, AFUserProfileRow, CollabMemberRecord, CollabRecord, Database,
    InvitationRecord, MemberRecord, PublishedRecord, RolePermissionRecord, RoleRecord, Tables,
    UserRecord, WorkspaceRecord,
};
use crate::workspace::AFWorkspaceRow;

verus! {

/// The view of a row of this type shows each of its columns.
pub proof fn law_view_of_user_record(row: UserRecord)
    ensures
        row.deep_view().uid == row.uid,
        row.deep_view().uuid == row.uuid,
        row.deep_view().email == row.email@,
        row.deep_view().name == row.name@,
{
}

/// The view of a row of this type shows each of its columns.
pub proof fn law_view_of_workspace_record(row: WorkspaceRecord)
    ensures
        row.deep_view().workspace_id == row.workspace_id,
        row.deep_view().database_storage_id == row.database_storage_id,
        row.deep_view().owner_uid == row.owner_uid,
        row.deep_view().created_at == row.created_at,
        row.deep_view().workspace_type == row.workspace_type,
        row.deep_view().deleted_at == row.deleted_at,
        row.deep_view().workspace_name == row.workspace_name.deep_view(),
        row.deep_view().icon == row.icon.deep_view(),
        row.deep_view().settings == row.settings.deep_view(),
        row.deep_view().publish_namespace == row.publish_namespace.deep_view(),
{
}

/// The view of a row of this type shows each of its columns.
pub proof fn law_view_of_role_record(row: RoleRecord)
    ensures
        row.deep_view().id == row.id,
        row.deep_view().name == row.name@,
{
}

/// The view of a row of this type shows each of its columns.
pub proof fn law_view_of_permission_row(row: AFPermissionRow)
    ensures
        row.deep_view().id == row.id,
        row.deep_view().name == row.name@,
        row.deep_view().access_level == row.access_level,
        row.deep_view().description == row.description.deep_view(),
{
}

/// The view of a row of this type shows each of its columns.
pub proof fn law_view_of_collab_member_record(row: CollabMemberRecord)
    ensures
        row.deep_view().uid == row.uid,
        row.deep_view().oid == row.oid@,
        row.deep_view().permission_id == row.permission_id,
{
}

/// The view of a row of this type shows each of its columns.
pub proof fn law_view_of_invitation_record(row: InvitationRecord)
    ensures
        row.deep_view().id == row.id,
        row.deep_view().workspace_id == row.workspace_id,
        row.deep_view().inviter == row.inviter,
        row.deep_view().invitee_email == row.invitee_email@,
        row.deep_view().role_id == row.role_id,
        row.deep_view().status == row.status,
        row.deep_view().updated_at == row.updated_at,
{
}

/// The view of a row of this type shows each of its columns.
pub proof fn law_view_of_published_record(row: PublishedRecord)
    ensures
        row.deep_view().workspace_id == row.workspace_id,
        row.deep_view().view_id == row.view_id,
        row.deep_view().publish_name == row.publish_name@,
        row.deep_view().published_by == row.published_by,
        row.deep_view().metadata == row.metadata.value,
        row.deep_view().blob == row.blob@,
{
}

/// The view of a row of this type shows each of its columns.
pub proof fn law_view_of_user_profile_row(row: AFUserProfileRow)
    ensures
        row.deep_view().uuid == row.uuid,
        row.deep_view().record == row.record.value,
{
}

/// The view of a row of this type shows each of its columns.
pub proof fn law_view_of_workspace_row(row: AFWorkspaceRow)
    ensures
        row.deep_view().workspace_id == row.workspace_id,
        row.deep_view().database_storage_id == row.database_storage_id,
        row.deep_view().owner_uid == row.owner_uid,
        row.deep_view().owner_name == row.owner_name.deep_view(),
        row.deep_view().created_at == row.created_at,
        row.deep_view().workspace_type == row.workspace_type,
        row.deep_view().deleted_at == row.deleted_at,
        row.deep_view().workspace_name == row.workspace_name.deep_view(),
        row.deep_view().icon == row.icon.deep_view(),
{
}

/// The view of a row of this type shows each of its columns.
pub proof fn law_view_of_workspace_member_row(row: AFWorkspaceMemberRow)
    ensures
        row.deep_view().uid == row.uid,
        row.deep_view().name == row.name@,
        row.deep_view().email == row.email@,
        row.deep_view().role == row.role,
{
}

/// The view of a row of this type shows each of its columns.
pub proof fn law_view_of_workspace_invitation(row: AFWorkspaceInvitation)
    ensures
        row.deep_view().invite_id == row.invite_id,
        row.deep_view().workspace_id == row.workspace_id,
        row.deep_view().workspace_name == row.workspace_name.deep_view(),
        row.deep_view().inviter_email == row.inviter_email.deep_view(),
        row.deep_view().inviter_name == row.inviter_name.deep_view(),
        row.deep_view().status == row.status,
        row.deep_view().updated_at == row.updated_at,
{
}

/// The view of a row of this type shows each of its columns.
pub proof fn law_view_of_publish_info(row: PublishInfo)
    ensures
        row.deep_view().namespace == row.namespace.deep_view(),
        row.deep_view().publish_name == row.publish_name@,
        row.deep_view().view_id == row.view_id,
{
}

/// The view of a JSON value is the value.
pub proof fn law_view_of_json(json: Json)
    ensures
        json.deep_view() == json.value,
{
}

/// Rows without texts are their own views.
pub proof fn law_view_of_plain_rows(
    member: MemberRecord,
    grant: RolePermissionRecord,
    collab: CollabRecord,
    perm: AFWorkspaceMemberPermRow,
    invitation: AFWorkspaceInvitationMinimal,
)
    ensures
        member.deep_view() == member,
        grant.deep_view() == grant,
        collab.deep_view() == collab,
        perm.deep_view() == perm,
        invitation.deep_view() == invitation,
{
}

/// The view of an item shows what it is published under and its data.
pub proof fn law_view_of_item(item: PublishCollabItem)
    ensures
        item.deep_view().view_id == item.meta.view_id,
        item.deep_view().publish_name == item.meta.publish_name@,
        item.deep_view().metadata == item.meta.metadata.value,
        item.deep_view().data == item.data@,
{
}

/// The view of the tables has each table's rows, in order.
pub proof fn law_view_of_tables(db: Database)
    ensures
        db@.users.len() == db.users@.len(),
        forall|i: int|
            0 <= i < db.users@.len() ==> #[trigger] db@.users[i] == db.users@[i].deep_view(),
        db@.profiles.len() == db.profiles@.len(),
        forall|i: int|
            0 <= i < db.profiles@.len() ==> #[trigger] db@.profiles[i]
                == db.profiles@[i].deep_view(),
        db@.workspaces.len() == db.workspaces@.len(),
        forall|i: int|
            0 <= i < db.workspaces@.len() ==> #[trigger] db@.workspaces[i]
                == db.workspaces@[i].deep_view(),
        db@.members.len() == db.members@.len(),
        forall|i: int|
            0 <= i < db.members@.len() ==> #[trigger] db@.members[i] == db.members@[i].deep_view(),
        db@.roles.len() == db.roles@.len(),
        forall|i: int|
            0 <= i < db.roles@.len() ==> #[trigger] db@.roles[i] == db.roles@[i].deep_view(),
        db@.permissions.len() == db.permissions@.len(),
        forall|i: int|
            0 <= i < db.permissions@.len() ==> #[trigger] db@.permissions[i]
                == db.permissions@[i].deep_view(),
        db@.role_permissions.len() == db.role_permissions@.len(),
        forall|i: int|
            0 <= i < db.role_permissions@.len() ==> #[trigger] db@.role_permissions[i]
                == db.role_permissions@[i].deep_view(),
        db@.collab_members.len() == db.collab_members@.len(),
        forall|i: int|
            0 <= i < db.collab_members@.len() ==> #[trigger] db@.collab_members[i]
                == db.collab_members@[i].deep_view(),
        db@.collabs.len() == db.collabs@.len(),
        forall|i: int|
            0 <= i < db.collabs@.len() ==> #[trigger] db@.collabs[i] == db.collabs@[i].deep_view(),
        db@.invitations.len() == db.invitations@.len(),
        forall|i: int|
            0 <= i < db.invitations@.len() ==> #[trigger] db@.invitations[i]
                == db.invitations@[i].deep_view(),
        db@.published.len() == db.published@.len(),
        forall|i: int|
            0 <= i < db.published@.len() ==> #[trigger] db@.published[i]
                == db.published@[i].deep_view(),
{
}

/// New tables have no rows.
pub proof fn law_new_tables_are_empty(db: Database)
    requires
        call_ensures(Database::new, (), db),
    ensures
        db.users@.len() == 0,
        db.profiles@.len() == 0,
        db.workspaces@.len() == 0,
        db.members@.len() == 0,
        db.roles@.len() == 0,
        db.permissions@.len() == 0,
        db.role_permissions@.len() == 0,
        db.collab_members@.len() == 0,
        db.collabs@.len() == 0,
        db.invitations@.len() == 0,
        db.published@.len() == 0,
        db@.keys_hold(),
{
    law_view_of_tables(db);
}

/// An error is seen as the variant that it is, with its words.
pub proof fn law_view_of_error(error: AppError)
    ensures
        error matches AppError::RecordNotFound(text) ==> error.deep_view()
            == AppErrorView::RecordNotFound(text@),
        error matches AppError::NotEnoughPermissions { user, action } ==> error.deep_view() == (
            AppErrorView::NotEnoughPermissions { user: user@, action: action@ }),
        error matches AppError::Internal(text) ==> error.deep_view() == AppErrorView::Internal(
            text@,
        ),
        error matches AppError::Serde(text) ==> error.deep_view() == AppErrorView::Serde(text@),
        error matches AppError::Database(inner) ==> error.deep_view() == AppErrorView::Database(
            inner,
        ),
{
}

/// The keys hold exactly when no two member rows have one workspace and one user, and no two
/// published rows have one workspace and one view.
pub proof fn law_keys(tables: Tables)
    ensures
        tables.keys_hold() <==> {
            &&& !exists|i: int, j: int|
                #![trigger tables.members[i], tables.members[j]]
                {
                    &&& 0 <= i < j < tables.members.len()
                    &&& tables.members[i].workspace_id == tables.members[j].workspace_id
                    &&& tables.members[i].uid == tables.members[j].uid
                }
            &&& !exists|i: int, j: int|
                #![trigger tables.published[i], tables.published[j]]
                {
                    &&& 0 <= i < j < tables.published.len()
                    &&& tables.published[i].workspace_id == tables.published[j].workspace_id
                    &&& tables.published[i].view_id == tables.published[j].view_id
                }
        },
{
}

} // verus!
