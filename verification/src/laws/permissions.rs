//! Permissions.

use vstd::prelude::*;

use crate::id::Uuid;
use crate::lemmas::lemma_joined;
use crate::member::is_member;
use crate::permission::{can_edit, is_editor, is_granted_to, is_of_object, permission_has_id};
use crate::relation::join;
use crate::tables::{AFPermissionRowView, RolePermissionRecord, Tables};

verus! {

/// An object that nobody is a member of may be edited by anybody. One that somebody is a member of
/// may be edited by the members of the workspace who are members of the object with a permission
/// to edit, and by nobody else. So a member of the workspace may edit what does not exist and what
/// the permission allows; who is no member of it may edit only what does not exist.
pub proof fn law_who_may_edit(
    tables: Tables,
    uid: Option<i64>,
    workspace_id: Uuid,
    object_id: Seq<char>,
)
    ensures
        !tables.collab_members.any(is_of_object(object_id)) ==> can_edit(
            tables,
            uid,
            workspace_id,
            object_id,
        ),
        tables.collab_members.any(is_of_object(object_id)) ==> (can_edit(
            tables,
            uid,
            workspace_id,
            object_id,
        ) <==> tables.members.any(is_member(workspace_id, uid)) && tables.collab_members.any(
            is_editor(tables, uid, object_id),
        )),
        tables.members.any(is_member(workspace_id, uid)) ==> (can_edit(
            tables,
            uid,
            workspace_id,
            object_id,
        ) <==> !tables.collab_members.any(is_of_object(object_id)) || tables.collab_members.any(
            is_editor(tables, uid, object_id),
        )),
        !tables.members.any(is_member(workspace_id, uid)) ==> (can_edit(
            tables,
            uid,
            workspace_id,
            object_id,
        ) <==> !tables.collab_members.any(is_of_object(object_id))),
{
}

/// An unknown user may edit only what nobody is a member of.
pub proof fn law_unknown_user_edits_only_unheld_objects(
    tables: Tables,
    workspace_id: Uuid,
    object_id: Seq<char>,
)
    ensures
        can_edit(tables, None, workspace_id, object_id) <==> !tables.collab_members.any(
            is_of_object(object_id),
        ),
{
    let this = is_member(workspace_id, None);
    if tables.members.any(this) {
        let k = choose|k: int| 0 <= k < tables.members.len() && #[trigger] this(tables.members[k]);
        assert(Some(tables.members[k].uid) == None::<i64>);
    }
}

/// A number in the range of the tables' numbers stands for itself.
pub proof fn law_numbers_in_range_stand_for_themselves(
    number: i64,
    permission: AFPermissionRowView,
    grant: RolePermissionRecord,
)
    requires
        i32::MIN <= number <= i32::MAX,
    ensures
        permission_has_id(number as i32)(permission) <==> permission.id == number,
        is_granted_to(number as i32)(permission, grant) <==> permission.id == grant.permission_id
            && grant.role_id == number,
{
}

/// A role has a permission exactly when one is granted to it, and the permission that is found is
/// one of those.
pub proof fn law_permission_of_a_role_is_granted(tables: Tables, role_id: i32)
    ensures
        ({
            let pairs = join(tables.permissions, tables.role_permissions, is_granted_to(role_id));
            &&& pairs.len() > 0 <==> exists|permission: AFPermissionRowView, grant: RolePermissionRecord|
                {
                    &&& #[trigger] tables.permissions.contains(permission)
                    &&& #[trigger] tables.role_permissions.contains(grant)
                    &&& is_granted_to(role_id)(permission, grant)
                }
            &&& pairs.len() > 0 ==> {
                &&& tables.permissions.contains(pairs[0].0)
                &&& tables.role_permissions.contains(
                    RolePermissionRecord { role_id, permission_id: pairs[0].0.id },
                )
            }
        }),
{
    let on = is_granted_to(role_id);
    let pairs = join(tables.permissions, tables.role_permissions, on);
    if pairs.len() > 0 {
        let (permission, grant) = pairs[0];
        assert(pairs.contains((permission, grant)));
        lemma_joined(tables.permissions, tables.role_permissions, on, permission, grant);
        assert(grant == (RolePermissionRecord { role_id, permission_id: permission.id }));
    }
    if exists|permission: AFPermissionRowView, grant: RolePermissionRecord|
        {
            &&& #[trigger] tables.permissions.contains(permission)
            &&& #[trigger] tables.role_permissions.contains(grant)
            &&& on(permission, grant)
        } {
        let (permission, grant) = choose|
            permission: AFPermissionRowView,
            grant: RolePermissionRecord,
        |
            {
                &&& #[trigger] tables.permissions.contains(permission)
                &&& #[trigger] tables.role_permissions.contains(grant)
                &&& on(permission, grant)
            };
        lemma_joined(tables.permissions, tables.role_permissions, on, permission, grant);
    }
}

} // verus!
