//! Permissions.

use vstd::prelude::*;

use crate::error::{AppError, DbError, handed_on, seen};
use crate::id::Uuid;
use crate::member::is_member;
use crate::outcome;
use crate::relation::{
    any_where, each_pair, each_row, fetch_optional, first_if_any, join, joined, lemma_each_map,
    plain, positions, then_make,
};
use crate::tables::{
    AFPermissionRow, AFPermissionRowView, CollabMemberRecord, CollabMemberRecordView, Database,
    MemberRecord, RolePermissionRecord, Tables, copy_text, is_id,
};

verus! {

/// The highest access level that does not allow editing.
pub const HIGHEST_READING_LEVEL: i32 = 20;

pub open spec fn is_of_object(object_id: Seq<char>) -> spec_fn(CollabMemberRecordView) -> bool {
    |collab_member: CollabMemberRecordView| collab_member.oid == object_id
}

pub open spec fn allows_editing(permission_id: i32) -> spec_fn(AFPermissionRowView) -> bool {
    |permission: AFPermissionRowView|
        permission.id == permission_id && permission.access_level > HIGHEST_READING_LEVEL
}

pub open spec fn is_editor(tables: Tables, uid: Option<i64>, object_id: Seq<char>) -> spec_fn(
    CollabMemberRecordView,
) -> bool {
    |collab_member: CollabMemberRecordView|
        Some(collab_member.uid) == uid && collab_member.oid == object_id && tables.permissions.any(
            allows_editing(collab_member.permission_id),
        )
}

/// Whether the user may edit the collab object: one that does not exist, which nobody is a member
/// of, anybody may; any other, a member of the workspace who is a member of the object with a
/// permission to edit.
pub open spec fn can_edit(
    tables: Tables,
    uid: Option<i64>,
    workspace_id: Uuid,
    object_id: Seq<char>,
) -> bool {
    ||| !tables.collab_members.any(is_of_object(object_id))
    ||| tables.members.any(is_member(workspace_id, uid)) && tables.collab_members.any(
        is_editor(tables, uid, object_id),
    )
}

fn permits_editing(db: &Database, permission_id: i32) -> (permits: bool)
    ensures
        permits == db@.permissions.any(allows_editing(permission_id)),
{
    let keep = |permission: &AFPermissionRow| -> (kept: bool)
        ensures
            kept == allows_editing(permission_id)(permission.deep_view()),
    { permission.id == permission_id && permission.access_level > HIGHEST_READING_LEVEL };
    any_where(&db.permissions, keep, Ghost(allows_editing(permission_id)))
}

/// Checks the user's permission to edit a collab object. What is asked is whether
/// 1. the user is a member of the workspace,
/// 2. the collab object does not exist, that is, nobody is a member of it,
/// 3. the collab object exists and the user is a member of it in a role that may edit.
///
/// The answer is yes where 2 holds, and where 1 and 3 hold. It departs from a reading of the list
/// that asks for 1 in every case: the statement does not ask it where 2 holds.
pub fn select_user_can_edit_collab(
    db: &Database,
    user_uuid: &Uuid,
    workspace_id: &Uuid,
    object_id: &str,
) -> (result: Result<bool, AppError>)
    ensures
        seen(result) == handed_on(
            then_make(
                db@.uid_by_uuid(*user_uuid),
                |uid: Option<i64>| can_edit(db@, uid, *workspace_id, object_id@),
            ),
        ),
{
    let uid: Option<i64> = match db.uid_by_uuid(user_uuid) {
        Ok(uid) => uid,
        Err(error) => {
            return Err(AppError::Database(error));
        },
    };
    let object = object_id.to_owned();
    let of_object = |collab_member: &CollabMemberRecord| -> (kept: bool)
        ensures
            kept == is_of_object(object_id@)(collab_member.deep_view()),
    { collab_member.oid == object };
    let collab_exists = any_where(
        &db.collab_members,
        of_object,
        Ghost(is_of_object(object_id@)),
    );
    let in_workspace = |member: &MemberRecord| -> (kept: bool)
        ensures
            kept == is_member(*workspace_id, uid)(member.deep_view()),
    { member.workspace_id == *workspace_id && is_id(uid, member.uid) };
    let workspace_exists = any_where(
        &db.members,
        in_workspace,
        Ghost(is_member(*workspace_id, uid)),
    );
    let edits = |collab_member: &CollabMemberRecord| -> (kept: bool)
        ensures
            kept == is_editor(db@, uid, object_id@)(collab_member.deep_view()),
    {
        is_id(uid, collab_member.uid) && collab_member.oid == object && permits_editing(
            db,
            collab_member.permission_id,
        )
    };
    let may_edit = any_where(&db.collab_members, edits, Ghost(is_editor(db@, uid, object_id@)));
    Ok(outcome::flag(Some(!collab_exists || (workspace_exists && may_edit))))
}

impl AFPermissionRow {
    pub fn copy(&self) -> (copy: AFPermissionRow)
        ensures
            copy.deep_view() == self.deep_view(),
    {
        AFPermissionRow {
            id: self.id,
            name: self.name.clone(),
            access_level: self.access_level,
            description: copy_text(&self.description),
        }
    }
}

pub open spec fn permission_has_id(id: i32) -> spec_fn(AFPermissionRowView) -> bool {
    |permission: AFPermissionRowView| permission.id == id
}

/// A permission. Of the number, the lower 32 bits count.
pub fn select_permission(db: &Database, permission_id: &i64) -> (result: Result<
    Option<AFPermissionRow>,
    AppError,
>)
    ensures
        seen(result) == handed_on(
            first_if_any(Ok(db@.permissions.filter(permission_has_id(*permission_id as i32)))),
        ),
{
    let id: i32 = #[verifier::truncate]
    (*permission_id as i32);
    let keep = |permission: &AFPermissionRow| -> (kept: bool)
        ensures
            kept == permission_has_id(id)(permission.deep_view()),
    { permission.id == id };
    let found = positions(&db.permissions, keep, Ghost(permission_has_id(id)));
    let ghost row_of = |permission: AFPermissionRowView|
        Ok::<AFPermissionRowView, DbError>(permission);
    let ghost chosen = db@.permissions.filter(permission_has_id(id));
    let make = |permission: &AFPermissionRow| -> (made: Result<AFPermissionRow, DbError>)
        ensures
            plain(made) == Ok::<AFPermissionRowView, DbError>(permission.deep_view()),
    { Ok(permission.copy()) };
    proof {
        let same = |permission: AFPermissionRowView| permission;
        lemma_each_map(chosen, row_of, same);
        assert(chosen.map_values(same) =~= chosen);
    }
    fetch_optional(each_row(&db.permissions, &found, make, Ghost(row_of)))
}

pub open spec fn is_granted_to(role_id: i32) -> spec_fn(
    AFPermissionRowView,
    RolePermissionRecord,
) -> bool {
    |permission: AFPermissionRowView, grant: RolePermissionRecord|
        permission.id == grant.permission_id && grant.role_id == role_id
}

/// A permission of a role. Of the role's number, the lower 32 bits count.
pub fn select_permission_from_role_id(db: &Database, role_id: &i64) -> (result: Result<
    Option<AFPermissionRow>,
    AppError,
>)
    ensures
        seen(result) == handed_on(
            first_if_any(
                Ok(
                    join(
                        db@.permissions,
                        db@.role_permissions,
                        is_granted_to(*role_id as i32),
                    ).map_values(|pair: (AFPermissionRowView, RolePermissionRecord)| pair.0),
                ),
            ),
        ),
{
    let id: i32 = #[verifier::truncate]
    (*role_id as i32);
    let on = |permission: &AFPermissionRow, grant: &RolePermissionRecord| -> (kept: bool)
        ensures
            kept == is_granted_to(id)(permission.deep_view(), grant.deep_view()),
    { permission.id == grant.permission_id && grant.role_id == id };
    let found = joined(&db.permissions, &db.role_permissions, on, Ghost(is_granted_to(id)));
    let ghost row_of = |pair: (AFPermissionRowView, RolePermissionRecord)|
        Ok::<AFPermissionRowView, DbError>(pair.0);
    let make = |permission: &AFPermissionRow, grant: &RolePermissionRecord| -> (made: Result<
        AFPermissionRow,
        DbError,
    >)
        ensures
            plain(made) == Ok::<AFPermissionRowView, DbError>(permission.deep_view()),
    { Ok(permission.copy()) };
    proof {
        lemma_each_map(
            join(db@.permissions, db@.role_permissions, is_granted_to(id)),
            row_of,
            |pair: (AFPermissionRowView, RolePermissionRecord)| pair.0,
        );
    }
    fetch_optional(
        each_pair(&db.permissions, &db.role_permissions, &found, make, Ghost(row_of)),
    )
}

} // verus!
