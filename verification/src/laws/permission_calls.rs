//! What a caller can tell of each operation on permissions, column by column.

use vstd::prelude::*;

use crate::error::AppError;
use crate::id::Uuid;
use crate::lemmas::{lemma_first_chosen, lemma_joined_places, lemma_none_chosen};
use crate::member::is_member;
use crate::permission::{
    allows_editing, is_editor, is_granted_to, is_of_object, permission_has_id,
    select_permission, select_permission_from_role_id, select_user_can_edit_collab,
};
use crate::relation::join;
use crate::tables::{AFPermissionRow, AFPermissionRowView, Database, Tables};

verus! {

/// A row of the object's members has the user's number and a permission whose level is above 20.
pub open spec fn holds_editing_permission(tables: Tables, uid: i64, object_id: Seq<char>) -> bool {
    exists|i: int, k: int|
        {
            &&& 0 <= i < tables.collab_members.len()
            &&& 0 <= k < tables.permissions.len()
            &&& (#[trigger] tables.collab_members[i]).oid == object_id
            &&& tables.collab_members[i].uid == uid
            &&& (#[trigger] tables.permissions[k]).id == tables.collab_members[i].permission_id
            &&& tables.permissions[k].access_level > 20
        }
}

proof fn lemma_editing_permission(tables: Tables, uid: i64, object_id: Seq<char>)
    ensures
        tables.collab_members.any(is_editor(tables, Some(uid), object_id))
            <==> holds_editing_permission(tables, uid, object_id),
{
    let editor = is_editor(tables, Some(uid), object_id);
    if tables.collab_members.any(editor) {
        let i = choose|i: int|
            0 <= i < tables.collab_members.len() && #[trigger] editor(tables.collab_members[i]);
        let allows = allows_editing(tables.collab_members[i].permission_id);
        assert(tables.permissions.any(allows));
        let k = choose|k: int|
            0 <= k < tables.permissions.len() && #[trigger] allows(tables.permissions[k]);
        assert(tables.collab_members[i].oid == object_id);
        assert(tables.permissions[k].id == tables.collab_members[i].permission_id);
    }
    if holds_editing_permission(tables, uid, object_id) {
        let (i, k) = choose|i: int, k: int|
            {
                &&& 0 <= i < tables.collab_members.len()
                &&& 0 <= k < tables.permissions.len()
                &&& (#[trigger] tables.collab_members[i]).oid == object_id
                &&& tables.collab_members[i].uid == uid
                &&& (#[trigger] tables.permissions[k]).id == tables.collab_members[i].permission_id
                &&& tables.permissions[k].access_level > 20
            };
        assert(allows_editing(tables.collab_members[i].permission_id)(tables.permissions[k]));
        assert(editor(tables.collab_members[i]));
    }
}

/// An object that no row of members names is edited by anybody. Any other is edited by a known user
/// who stands in a row of the workspace, and in a row of that very object with a permission whose
/// level is above 20, and by nobody else.
pub proof fn law_select_user_can_edit_collab(
    db: Database,
    user_uuid: Uuid,
    workspace_id: Uuid,
    object_id: &str,
    result: Result<bool, AppError>,
)
    requires
        call_ensures(
            select_user_can_edit_collab,
            (&db, &user_uuid, &workspace_id, object_id),
            result,
        ),
    ensures
        match db@.uid_by_uuid(user_uuid) {
            Err(error) => result == Err::<bool, AppError>(AppError::Database(error)),
            Ok(uid) => {
                let exists_already = exists|i: int|
                    0 <= i < db@.collab_members.len() && (#[trigger] db@.collab_members[i]).oid
                        == object_id@;
                let in_workspace = exists|i: int|
                    {
                        &&& 0 <= i < db@.members.len()
                        &&& (#[trigger] db@.members[i]).workspace_id == workspace_id
                        &&& Some(db@.members[i].uid) == uid
                    };
                &&& !exists_already ==> result == Ok::<bool, AppError>(true)
                &&& exists_already ==> result == Ok::<bool, AppError>(
                    in_workspace && exists|i: int, k: int|
                        {
                            &&& 0 <= i < db@.collab_members.len()
                            &&& 0 <= k < db@.permissions.len()
                            &&& (#[trigger] db@.collab_members[i]).oid == object_id@
                            &&& Some(db@.collab_members[i].uid) == uid
                            &&& (#[trigger] db@.permissions[k]).id
                                == db@.collab_members[i].permission_id
                            &&& db@.permissions[k].access_level > 20
                        },
                )
            },
        },
{
    if let Ok(uid) = db@.uid_by_uuid(user_uuid) {
        let of_object = is_of_object(object_id@);
        let mine = is_member(workspace_id, uid);
        if db@.collab_members.any(of_object) {
            let i = choose|i: int|
                0 <= i < db@.collab_members.len() && #[trigger] of_object(db@.collab_members[i]);
            assert(db@.collab_members[i].oid == object_id@);
        }
        if exists|i: int|
            0 <= i < db@.collab_members.len() && (#[trigger] db@.collab_members[i]).oid
                == object_id@ {
            let i = choose|i: int|
                0 <= i < db@.collab_members.len() && (#[trigger] db@.collab_members[i]).oid
                    == object_id@;
            assert(of_object(db@.collab_members[i]));
        }
        if db@.members.any(mine) {
            let i = choose|i: int| 0 <= i < db@.members.len() && #[trigger] mine(db@.members[i]);
            assert(db@.members[i].workspace_id == workspace_id);
        }
        if exists|i: int|
            {
                &&& 0 <= i < db@.members.len()
                &&& (#[trigger] db@.members[i]).workspace_id == workspace_id
                &&& Some(db@.members[i].uid) == uid
            } {
            let i = choose|i: int|
                {
                    &&& 0 <= i < db@.members.len()
                    &&& (#[trigger] db@.members[i]).workspace_id == workspace_id
                    &&& Some(db@.members[i].uid) == uid
                };
            assert(mine(db@.members[i]));
        }
        match uid {
            Some(number) => {
                lemma_editing_permission(db@, number, object_id@);
                if holds_editing_permission(db@, number, object_id@) {
                    let (i, k) = choose|i: int, k: int|
                        {
                            &&& 0 <= i < db@.collab_members.len()
                            &&& 0 <= k < db@.permissions.len()
                            &&& (#[trigger] db@.collab_members[i]).oid == object_id@
                            &&& db@.collab_members[i].uid == number
                            &&& (#[trigger] db@.permissions[k]).id
                                == db@.collab_members[i].permission_id
                            &&& db@.permissions[k].access_level > 20
                        };
                    assert(Some(db@.collab_members[i].uid) == uid);
                    assert(db@.permissions[k].id == db@.collab_members[i].permission_id);
                }
            },
            None => {
                if db@.members.any(mine) {
                    let i = choose|i: int|
                        0 <= i < db@.members.len() && #[trigger] mine(db@.members[i]);
                    assert(Some(db@.members[i].uid) == uid);
                }
            },
        }
    }
}

/// The rows of other objects do not matter: two tables that have the same users, members and
/// permissions and the same rows of an object that exists give the same answer for it.
pub proof fn law_other_objects_do_not_matter(
    db: Database,
    other: Database,
    user_uuid: Uuid,
    workspace_id: Uuid,
    object_id: &str,
    result: Result<bool, AppError>,
    other_result: Result<bool, AppError>,
)
    requires
        call_ensures(
            select_user_can_edit_collab,
            (&db, &user_uuid, &workspace_id, object_id),
            result,
        ),
        call_ensures(
            select_user_can_edit_collab,
            (&other, &user_uuid, &workspace_id, object_id),
            other_result,
        ),
        db@.users == other@.users,
        db@.members == other@.members,
        db@.permissions == other@.permissions,
        forall|i: int|
            0 <= i < db@.collab_members.len() && (#[trigger] db@.collab_members[i]).oid
                == object_id@ ==> other@.collab_members.contains(db@.collab_members[i]),
        forall|i: int|
            0 <= i < other@.collab_members.len() && (#[trigger] other@.collab_members[i]).oid
                == object_id@ ==> db@.collab_members.contains(other@.collab_members[i]),
    ensures
        result == other_result,
{
    law_select_user_can_edit_collab(db, user_uuid, workspace_id, object_id, result);
    law_select_user_can_edit_collab(other, user_uuid, workspace_id, object_id, other_result);
    assert(db@.uid_by_uuid(user_uuid) == other@.uid_by_uuid(user_uuid));
    if let Ok(uid) = db@.uid_by_uuid(user_uuid) {
        lemma_rows_carry_over(db@, other@, uid, object_id@);
        lemma_rows_carry_over(other@, db@, uid, object_id@);
    }
}

/// What the rows of an object say of a user is said in the other tables too, where they have them.
proof fn lemma_rows_carry_over(one: Tables, other: Tables, uid: Option<i64>, object_id: Seq<char>)
    requires
        one.permissions == other.permissions,
        forall|i: int|
            0 <= i < one.collab_members.len() && (#[trigger] one.collab_members[i]).oid
                == object_id ==> other.collab_members.contains(one.collab_members[i]),
    ensures
        (exists|i: int|
            0 <= i < one.collab_members.len() && (#[trigger] one.collab_members[i]).oid
                == object_id) ==> (exists|i: int|
            0 <= i < other.collab_members.len() && (#[trigger] other.collab_members[i]).oid
                == object_id),
        (exists|i: int, k: int|
            {
                &&& 0 <= i < one.collab_members.len()
                &&& 0 <= k < one.permissions.len()
                &&& (#[trigger] one.collab_members[i]).oid == object_id
                &&& Some(one.collab_members[i].uid) == uid
                &&& (#[trigger] one.permissions[k]).id == one.collab_members[i].permission_id
                &&& one.permissions[k].access_level > 20
            }) ==> (exists|i: int, k: int|
            {
                &&& 0 <= i < other.collab_members.len()
                &&& 0 <= k < other.permissions.len()
                &&& (#[trigger] other.collab_members[i]).oid == object_id
                &&& Some(other.collab_members[i].uid) == uid
                &&& (#[trigger] other.permissions[k]).id == other.collab_members[i].permission_id
                &&& other.permissions[k].access_level > 20
            }),
{
    if exists|i: int|
        0 <= i < one.collab_members.len() && (#[trigger] one.collab_members[i]).oid == object_id {
        let i = choose|i: int|
            0 <= i < one.collab_members.len() && (#[trigger] one.collab_members[i]).oid
                == object_id;
        let j = choose|j: int|
            0 <= j < other.collab_members.len() && other.collab_members[j]
                == one.collab_members[i];
        assert(other.collab_members[j].oid == object_id);
    }
    if exists|i: int, k: int|
        {
            &&& 0 <= i < one.collab_members.len()
            &&& 0 <= k < one.permissions.len()
            &&& (#[trigger] one.collab_members[i]).oid == object_id
            &&& Some(one.collab_members[i].uid) == uid
            &&& (#[trigger] one.permissions[k]).id == one.collab_members[i].permission_id
            &&& one.permissions[k].access_level > 20
        } {
        let (i, k) = choose|i: int, k: int|
            {
                &&& 0 <= i < one.collab_members.len()
                &&& 0 <= k < one.permissions.len()
                &&& (#[trigger] one.collab_members[i]).oid == object_id
                &&& Some(one.collab_members[i].uid) == uid
                &&& (#[trigger] one.permissions[k]).id == one.collab_members[i].permission_id
                &&& one.permissions[k].access_level > 20
            };
        let j = choose|j: int|
            0 <= j < other.collab_members.len() && other.collab_members[j]
                == one.collab_members[i];
        assert(other.collab_members[j].oid == object_id);
        assert(other.permissions[k].id == other.collab_members[j].permission_id);
    }
}

/// A permission is handed out with all its columns.
spec fn shows(row: AFPermissionRow, permission: AFPermissionRowView) -> bool {
    &&& row.id == permission.id
    &&& row.name@ == permission.name
    &&& row.access_level == permission.access_level
    &&& row.description.deep_view() == permission.description
}

/// A permission is the first with the lower 32 bits of the number, and none where there is none.
pub proof fn law_select_permission(
    db: Database,
    number: i64,
    result: Result<Option<AFPermissionRow>, AppError>,
)
    requires
        call_ensures(select_permission, (&db, &number), result),
    ensures
        (forall|i: int|
            0 <= i < db@.permissions.len() ==> (#[trigger] db@.permissions[i]).id != number as i32)
            ==> result == Ok::<Option<AFPermissionRow>, AppError>(None),
        forall|i: int|
            #![trigger db@.permissions[i]]
            0 <= i < db@.permissions.len() && db@.permissions[i].id == number as i32 && (forall|
                j: int,
            |
                0 <= j < i ==> (#[trigger] db@.permissions[j]).id != number as i32) ==> {
                &&& result matches Ok(Some(row))
                &&& row.id == db@.permissions[i].id
                &&& row.name@ == db@.permissions[i].name
                &&& row.access_level == db@.permissions[i].access_level
                &&& row.description.deep_view() == db@.permissions[i].description
            },
{
    let rows = db@.permissions;
    let this = permission_has_id(number as i32);
    lemma_none_chosen(rows, this);
    if rows.any(this) {
        let i = choose|i: int| 0 <= i < rows.len() && #[trigger] this(rows[i]);
        assert(rows[i].id == number as i32);
    }
    assert forall|i: int|
        #![trigger db@.permissions[i]]
        0 <= i < rows.len() && rows[i].id == number as i32 && (forall|j: int|
            0 <= j < i ==> (#[trigger] rows[j]).id != number as i32) implies {
        &&& result matches Ok(Some(row))
        &&& shows(row, db@.permissions[i])
    } by {
        lemma_first_chosen(rows, this, i);
    }
    assert forall|i: int|
        #![trigger db@.permissions[i]]
        0 <= i < rows.len() && rows[i].id == number as i32 && (forall|j: int|
            0 <= j < i ==> (#[trigger] rows[j]).id != number as i32) implies {
        &&& result matches Ok(Some(row))
        &&& row.id == db@.permissions[i].id
        &&& row.name@ == db@.permissions[i].name
        &&& row.access_level == db@.permissions[i].access_level
        &&& row.description.deep_view() == db@.permissions[i].description
    } by {
        assert(shows(result->Ok_0->0, db@.permissions[i]));
    }
}

/// A permission of a role stands in a permission row whose number a row of grants gives to the lower
/// 32 bits of the role's number; there is none where there are no such two rows. It is the first
/// such permission.
pub proof fn law_select_permission_from_role_id(
    db: Database,
    number: i64,
    result: Result<Option<AFPermissionRow>, AppError>,
)
    requires
        call_ensures(select_permission_from_role_id, (&db, &number), result),
    ensures
        result is Ok,
        (forall|i: int, j: int|
            #![trigger db@.permissions[i], db@.role_permissions[j]]
            0 <= i < db@.permissions.len() && 0 <= j < db@.role_permissions.len() ==> !(
            db@.role_permissions[j].role_id == number as i32
                && db@.role_permissions[j].permission_id == db@.permissions[i].id)) ==> result
            == Ok::<Option<AFPermissionRow>, AppError>(None),
        forall|i: int, j: int|
            #![trigger db@.permissions[i], db@.role_permissions[j]]
            {
                &&& 0 <= i < db@.permissions.len()
                &&& 0 <= j < db@.role_permissions.len()
                &&& db@.role_permissions[j].role_id == number as i32
                &&& db@.role_permissions[j].permission_id == db@.permissions[i].id
                &&& forall|k: int, l: int|
                    #![trigger db@.permissions[k], db@.role_permissions[l]]
                    0 <= k < i && 0 <= l < db@.role_permissions.len() ==> !(
                    db@.role_permissions[l].role_id == number as i32
                        && db@.role_permissions[l].permission_id == db@.permissions[k].id)
            } ==> {
                &&& result matches Ok(Some(row))
                &&& row.id == db@.permissions[i].id
                &&& row.name@ == db@.permissions[i].name
                &&& row.access_level == db@.permissions[i].access_level
                &&& row.description.deep_view() == db@.permissions[i].description
            },
{
    let on = is_granted_to(number as i32);
    let pairs = join(db@.permissions, db@.role_permissions, on);
    let at = lemma_joined_places(db@.permissions, db@.role_permissions, on);
    if pairs.len() > 0 {
        assert(on(db@.permissions[at[0].0], db@.role_permissions[at[0].1]));
        assert(pairs[0] == (db@.permissions[at[0].0], db@.role_permissions[at[0].1]));
        assert(db@.role_permissions[at[0].1].role_id == number as i32);
    }
    assert forall|i: int, j: int|
        #![trigger db@.permissions[i], db@.role_permissions[j]]
        {
            &&& 0 <= i < db@.permissions.len()
            &&& 0 <= j < db@.role_permissions.len()
            &&& db@.role_permissions[j].role_id == number as i32
            &&& db@.role_permissions[j].permission_id == db@.permissions[i].id
            &&& forall|k: int, l: int|
                #![trigger db@.permissions[k], db@.role_permissions[l]]
                0 <= k < i && 0 <= l < db@.role_permissions.len() ==> !(
                db@.role_permissions[l].role_id == number as i32
                    && db@.role_permissions[l].permission_id == db@.permissions[k].id)
        } implies {
        &&& result matches Ok(Some(row))
        &&& row.id == db@.permissions[i].id
        &&& row.name@ == db@.permissions[i].name
        &&& row.access_level == db@.permissions[i].access_level
        &&& row.description.deep_view() == db@.permissions[i].description
    } by {
        assert(on(db@.permissions[i], db@.role_permissions[j]));
        let k = choose|k: int| 0 <= k < at.len() && at[k] == (i, j);
        if k > 0 {
            assert(at[0].0 < at[k].0 || (at[0].0 == at[k].0 && at[0].1 < at[k].1));
        }
        assert(at[0].0 == i);
        assert(shows(result->Ok_0->0, db@.permissions[i]));
    }
}

} // verus!
