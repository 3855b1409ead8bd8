use workspace_db::error::{AppError, DbError};
use workspace_db::id::Uuid;
use workspace_db::permission::{
    select_permission, select_permission_from_role_id, select_user_can_edit_collab,
};
use workspace_db::tables::{
    AFPermissionRow, CollabMemberRecord, Database, MemberRecord, RolePermissionRecord, UserRecord,
};

fn id(bits: u128) -> Uuid {
    Uuid { bits }
}

fn user(uid: i64, name: &str) -> UserRecord {
    UserRecord {
        uid,
        uuid: id(1000 + uid as u128),
        email: format!("{name}@example.com"),
        name: name.to_owned(),
    }
}

fn permission(number: i32, access_level: i32) -> AFPermissionRow {
    AFPermissionRow {
        id: number,
        name: format!("level {access_level}"),
        access_level,
        description: Some("what it allows".to_owned()),
    }
}

fn shared() -> Database {
    let mut db = Database::new();
    db.users = vec![user(1, "ann"), user(2, "bob"), user(3, "cy")];
    db.permissions =
        vec![permission(1, 10), permission(2, 20), permission(3, 30), permission(4, 50)];
    db.role_permissions = vec![
        RolePermissionRecord { role_id: 1, permission_id: 4 },
        RolePermissionRecord { role_id: 2, permission_id: 3 },
    ];
    db.members = vec![
        MemberRecord { workspace_id: id(7), uid: 1, role_id: 1, created_at: 0, updated_at: 0 },
        MemberRecord { workspace_id: id(7), uid: 2, role_id: 2, created_at: 0, updated_at: 0 },
    ];
    db.collab_members = vec![
        CollabMemberRecord { uid: 1, oid: "doc".to_owned(), permission_id: 3 },
        CollabMemberRecord { uid: 2, oid: "doc".to_owned(), permission_id: 2 },
        CollabMemberRecord { uid: 3, oid: "doc".to_owned(), permission_id: 4 },
    ];
    db
}

#[test]
fn member_with_a_writing_permission_edits() {
    assert_eq!(select_user_can_edit_collab(&shared(), &id(1001), &id(7), "doc"), Ok(true));
}

#[test]
fn member_with_a_reading_permission_does_not_edit() {
    assert_eq!(select_user_can_edit_collab(&shared(), &id(1002), &id(7), "doc"), Ok(false));
}

#[test]
fn stranger_to_the_workspace_does_not_edit() {
    assert_eq!(select_user_can_edit_collab(&shared(), &id(1003), &id(7), "doc"), Ok(false));
    assert_eq!(select_user_can_edit_collab(&shared(), &id(1001), &id(8), "doc"), Ok(false));
}

#[test]
fn object_that_does_not_exist_is_edited_by_anybody() {
    assert_eq!(select_user_can_edit_collab(&shared(), &id(1002), &id(7), "new"), Ok(true));
    assert_eq!(select_user_can_edit_collab(&shared(), &id(1003), &id(7), "new"), Ok(true));
    assert_eq!(select_user_can_edit_collab(&shared(), &id(4), &id(9), "new"), Ok(true));
}

#[test]
fn unknown_user_does_not_edit() {
    assert_eq!(select_user_can_edit_collab(&shared(), &id(4), &id(7), "doc"), Ok(false));
}

#[test]
fn ambiguous_user_is_an_error() {
    let mut db = shared();
    db.users.push(user(1, "ann"));
    assert_eq!(
        select_user_can_edit_collab(&db, &id(1001), &id(7), "doc"),
        Err(AppError::Database(DbError::CardinalityViolation))
    );
}

#[test]
fn permission_is_found_by_number() {
    assert_eq!(select_permission(&shared(), &3), Ok(Some(permission(3, 30))));
    assert_eq!(select_permission(&shared(), &9), Ok(None));
}

#[test]
fn lower_bits_of_a_number_count() {
    assert_eq!(select_permission(&shared(), &4_294_967_299), Ok(Some(permission(3, 30))));
    assert_eq!(
        select_permission_from_role_id(&shared(), &4_294_967_297),
        Ok(Some(permission(4, 50)))
    );
}

#[test]
fn permission_is_found_by_role() {
    assert_eq!(select_permission_from_role_id(&shared(), &1), Ok(Some(permission(4, 50))));
    assert_eq!(select_permission_from_role_id(&shared(), &2), Ok(Some(permission(3, 30))));
    assert_eq!(select_permission_from_role_id(&shared(), &3), Ok(None));
}
