use workspace_db::error::{AppError, DbError};
use workspace_db::id::Uuid;
use workspace_db::member::{
    AFWorkspaceMemberPermRow, AFWorkspaceMemberRow, MemberDefaults, delete_workspace_members,
    select_user_is_workspace_owner, select_user_role, select_workspace_member,
    select_workspace_member_count_from_workspace_id, select_workspace_member_list,
    select_workspace_member_perm_stream, update_updated_at_of_workspace, upsert_workspace_member,
    upsert_workspace_member_with_txn,
};
use workspace_db::tables::{Database, MemberRecord, RoleRecord, UserRecord, WorkspaceRecord};

fn id(bits: u128) -> Uuid {
    Uuid { bits }
}

fn user(uid: i64, name: &str) -> UserRecord {
    UserRecord {
        uid,
        uuid: id(1000 + uid as u128),
        email: format!("{name}@example.com"),
        name: name.to_owned(),
    }
}

fn owned_workspace(bits: u128, owner_uid: Option<i64>) -> WorkspaceRecord {
    WorkspaceRecord {
        workspace_id: id(bits),
        database_storage_id: None,
        owner_uid,
        created_at: None,
        workspace_type: 0,
        deleted_at: None,
        workspace_name: None,
        icon: None,
        settings: None,
        publish_namespace: None,
    }
}

fn member(bits: u128, uid: i64, role_id: i32, created_at: i64) -> MemberRecord {
    MemberRecord { workspace_id: id(bits), uid, role_id, created_at, updated_at: 0 }
}

fn team() -> Database {
    let mut db = Database::new();
    db.users = vec![user(1, "ann"), user(2, "bob"), user(3, "cy")];
    db.workspaces = vec![owned_workspace(7, Some(1)), owned_workspace(8, Some(2))];
    db.roles = vec![
        RoleRecord { id: 1, name: "Owner".to_owned() },
        RoleRecord { id: 2, name: "Member".to_owned() },
    ];
    db.members = vec![member(7, 1, 1, 30), member(7, 2, 2, 10), member(8, 2, 1, 20)];
    db
}

const DEFAULTS: MemberDefaults = MemberDefaults { created_at: 50, updated_at: 51 };

#[test]
fn owner_is_not_removed() {
    let mut db = team();
    assert_eq!(
        delete_workspace_members(&mut db, &id(7), "ann@example.com"),
        Err(AppError::NotEnoughPermissions {
            user: "ann@example.com".to_owned(),
            action: "delete member from workspace 00000000-0000-0000-0000-000000000007".to_owned(),
        })
    );
    assert_eq!(db, team());
}

#[test]
fn removed_member_is_gone() {
    let mut db = team();
    assert_eq!(delete_workspace_members(&mut db, &id(7), "bob@example.com"), Ok(()));
    assert_eq!(db.members, vec![member(7, 1, 1, 30), member(8, 2, 1, 20)]);
    assert_eq!(
        select_user_role(&db, &2, &id(7)),
        Err(AppError::Database(DbError::RowNotFound))
    );
    assert_eq!(select_user_role(&db, &2, &id(8)), Ok(1));
}

#[test]
fn removing_a_stranger_changes_nothing() {
    let mut db = team();
    assert_eq!(delete_workspace_members(&mut db, &id(7), "cy@example.com"), Ok(()));
    assert_eq!(delete_workspace_members(&mut db, &id(7), "nobody@example.com"), Ok(()));
    assert_eq!(db, team());
}

#[test]
fn nobody_is_removed_from_a_workspace_without_owner() {
    let mut db = team();
    db.workspaces[0].owner_uid = None;
    let before = db.members.clone();
    assert_eq!(delete_workspace_members(&mut db, &id(7), "bob@example.com"), Ok(()));
    assert_eq!(db.members, before);
}

#[test]
fn removal_fails_when_the_address_is_ambiguous() {
    let mut db = team();
    db.users.push(user(9, "bob"));
    let before = db.members.clone();
    assert_eq!(
        delete_workspace_members(&mut db, &id(7), "bob@example.com"),
        Err(AppError::Database(DbError::CardinalityViolation))
    );
    assert_eq!(db.members, before);
}

#[test]
fn new_member_has_the_given_role() {
    let mut db = team();
    let result =
        upsert_workspace_member_with_txn(&mut db, &id(7), "cy@example.com", 2, DEFAULTS);
    assert_eq!(result, Ok(()));
    assert_eq!(
        db.members[3],
        MemberRecord { workspace_id: id(7), uid: 3, role_id: 2, created_at: 50, updated_at: 51 }
    );
    assert_eq!(select_user_role(&db, &3, &id(7)), Ok(2));
}

#[test]
fn existing_member_keeps_the_role() {
    let mut db = team();
    let result =
        upsert_workspace_member_with_txn(&mut db, &id(7), "ann@example.com", 2, DEFAULTS);
    assert_eq!(result, Ok(()));
    assert_eq!(db, team());
}

#[test]
fn unknown_address_adds_nobody() {
    let mut db = team();
    let result =
        upsert_workspace_member_with_txn(&mut db, &id(7), "dee@example.com", 2, DEFAULTS);
    assert_eq!(result, Ok(()));
    assert_eq!(db, team());
}

#[test]
fn joining_twice_is_joining_once() {
    let mut once = team();
    upsert_workspace_member_with_txn(&mut once, &id(8), "cy@example.com", 2, DEFAULTS).unwrap();
    let mut twice = team();
    upsert_workspace_member_with_txn(&mut twice, &id(8), "cy@example.com", 2, DEFAULTS).unwrap();
    upsert_workspace_member_with_txn(&mut twice, &id(8), "cy@example.com", 1, DEFAULTS).unwrap();
    assert_eq!(once, twice);
}

#[test]
fn changed_role_is_read_back() {
    let mut db = team();
    assert_eq!(upsert_workspace_member(&mut db, &id(7), "bob@example.com", 1), Ok(()));
    assert_eq!(select_user_role(&db, &2, &id(7)), Ok(1));
    assert_eq!(select_user_role(&db, &1, &id(7)), Ok(1));
    assert_eq!(select_user_is_workspace_owner(&db, &id(1002), &id(7)), Ok(true));
}

#[test]
fn changing_the_role_of_a_stranger_makes_no_member() {
    let mut db = team();
    assert_eq!(upsert_workspace_member(&mut db, &id(7), "cy@example.com", 1), Ok(()));
    assert_eq!(db, team());
}

#[test]
fn changing_a_role_fails_when_the_address_is_ambiguous() {
    let mut db = team();
    db.users.push(user(9, "bob"));
    assert_eq!(
        upsert_workspace_member(&mut db, &id(7), "bob@example.com", 1),
        Err(DbError::CardinalityViolation)
    );
}

#[test]
fn owner_is_a_member_in_the_role_of_owner() {
    let db = team();
    assert_eq!(select_user_is_workspace_owner(&db, &id(1001), &id(7)), Ok(true));
    assert_eq!(select_user_is_workspace_owner(&db, &id(1002), &id(7)), Ok(false));
    assert_eq!(select_user_is_workspace_owner(&db, &id(1002), &id(8)), Ok(true));
    assert_eq!(select_user_is_workspace_owner(&db, &id(4), &id(7)), Ok(false));
}

#[test]
fn visit_is_recorded() {
    let mut db = team();
    assert_eq!(update_updated_at_of_workspace(&mut db, &id(1002), &id(7), 99), Ok(()));
    assert_eq!(db.members[0].updated_at, 0);
    assert_eq!(
        db.members[1],
        MemberRecord { updated_at: 99, ..member(7, 2, 2, 10) }
    );
    assert_eq!(db.members[2].updated_at, 0);
}

#[test]
fn members_are_counted() {
    let db = team();
    assert_eq!(select_workspace_member_count_from_workspace_id(&db, &id(7)), Ok(Some(2)));
    assert_eq!(select_workspace_member_count_from_workspace_id(&db, &id(8)), Ok(Some(1)));
    assert_eq!(select_workspace_member_count_from_workspace_id(&db, &id(9)), Ok(Some(0)));
}

#[test]
fn every_membership_is_streamed() {
    assert_eq!(
        select_workspace_member_perm_stream(&team()),
        vec![
            AFWorkspaceMemberPermRow { uid: 1, role: 1, workspace_id: id(7) },
            AFWorkspaceMemberPermRow { uid: 2, role: 2, workspace_id: id(7) },
            AFWorkspaceMemberPermRow { uid: 2, role: 1, workspace_id: id(8) },
        ]
    );
}

#[test]
fn list_is_sorted_by_creation() {
    let mut db = team();
    db.members.push(member(7, 3, 2, 10));
    let list = select_workspace_member_list(&db, &id(7)).unwrap();
    let names: Vec<String> = list.into_iter().map(|row| row.name).collect();
    assert_eq!(names, vec!["bob", "cy", "ann"]);
}

#[test]
fn member_without_user_is_not_listed() {
    let mut db = team();
    db.members.push(member(7, 44, 2, 5));
    assert_eq!(select_workspace_member_list(&db, &id(7)).unwrap().len(), 2);
}

#[test]
fn member_is_found_with_name_and_address() {
    let db = team();
    assert_eq!(
        select_workspace_member(&db, &2, &id(7)),
        Ok(AFWorkspaceMemberRow {
            uid: 2,
            name: "bob".to_owned(),
            email: "bob@example.com".to_owned(),
            role: 2,
        })
    );
    assert_eq!(
        select_workspace_member(&db, &3, &id(7)),
        Err(AppError::Database(DbError::RowNotFound))
    );
}

#[test]
fn found_member_is_listed() {
    let db = team();
    let list = select_workspace_member_list(&db, &id(7)).unwrap();
    for uid in [1, 2, 3] {
        match select_workspace_member(&db, &uid, &id(7)) {
            Ok(row) => assert!(list.contains(&row)),
            Err(_) => assert!(list.iter().all(|row| row.uid != uid)),
        }
    }
    assert!(select_workspace_member(&db, &1, &id(7)).is_ok());
    assert!(select_workspace_member(&db, &3, &id(7)).is_err());
}

#[test]
fn list_is_as_long_as_the_number_of_members() {
    let db = team();
    for bits in [7, 8, 9] {
        let list = select_workspace_member_list(&db, &id(bits)).unwrap();
        assert_eq!(
            select_workspace_member_count_from_workspace_id(&db, &id(bits)),
            Ok(Some(list.len() as i64))
        );
    }
}
