use workspace_db::error::{AppError, DbError};
use workspace_db::id::Uuid;
use workspace_db::json::Json;
use workspace_db::tables::{
    AFUserProfileRow, CollabRecord, Database, MemberRecord, UserRecord, WorkspaceRecord,
};
use workspace_db::workspace::{
    AFWorkspaceRow, WorkspaceDefaults, change_workspace_icon, delete_from_workspace,
    insert_user_workspace, is_workspace_exist, rename_workspace, select_all_user_workspaces,
    select_user_profile, select_workspace, select_workspace_name_from_workspace_id,
    select_workspace_publish_namespace, select_workspace_publish_namespace_exists,
    select_workspace_settings, select_workspace_total_collab_bytes,
    update_workspace_publish_namespace, upsert_workspace_settings,
};

fn id(bits: u128) -> Uuid {
    Uuid { bits }
}

fn user(uid: i64, name: &str) -> UserRecord {
    UserRecord {
        uid,
        uuid: id(1000 + uid as u128),
        email: format!("{name}@example.com"),
        name: name.to_owned(),
    }
}

fn workspace(bits: u128, owner_uid: i64, name: &str) -> WorkspaceRecord {
    WorkspaceRecord {
        workspace_id: id(bits),
        database_storage_id: Some(id(bits + 500)),
        owner_uid: Some(owner_uid),
        created_at: Some(10),
        workspace_type: 0,
        deleted_at: None,
        workspace_name: Some(name.to_owned()),
        icon: None,
        settings: None,
        publish_namespace: None,
    }
}

fn member(bits: u128, uid: i64) -> MemberRecord {
    MemberRecord { workspace_id: id(bits), uid, role_id: 2, created_at: 0, updated_at: 0 }
}

fn two_workspaces() -> Database {
    let mut db = Database::new();
    db.users = vec![user(1, "ann"), user(2, "bob")];
    db.workspaces = vec![workspace(7, 1, "first"), workspace(8, 2, "second")];
    db
}

fn defaults(bits: u128) -> WorkspaceDefaults {
    WorkspaceDefaults {
        workspace_id: id(bits),
        database_storage_id: Some(id(77)),
        created_at: Some(123),
        workspace_type: 4,
        deleted_at: None,
        icon: Some(String::new()),
        settings: None,
        publish_namespace: Some("fresh".to_owned()),
    }
}

#[test]
fn inserted_workspace_is_handed_out_and_found() {
    let mut db = two_workspaces();
    let row = insert_user_workspace(&mut db, &id(1002), "third", defaults(9)).unwrap();
    let expected = AFWorkspaceRow {
        workspace_id: id(9),
        database_storage_id: Some(id(77)),
        owner_uid: Some(2),
        owner_name: Some("bob".to_owned()),
        created_at: Some(123),
        workspace_type: 4,
        deleted_at: None,
        workspace_name: Some("third".to_owned()),
        icon: Some(String::new()),
    };
    assert_eq!(row, expected);
    assert_eq!(select_workspace(&db, &id(9)).unwrap(), expected);
    assert_eq!(db.workspaces.len(), 3);
    assert_eq!(
        select_workspace_publish_namespace(&db, &id(9)).unwrap(),
        Some("fresh".to_owned())
    );
}

#[test]
fn workspace_of_an_unknown_user_has_no_owner() {
    let mut db = two_workspaces();
    let row = insert_user_workspace(&mut db, &id(55), "stray", defaults(9)).unwrap();
    assert_eq!(row.owner_uid, None);
    assert_eq!(row.owner_name, None);
}

#[test]
fn insertion_fails_and_adds_nothing_when_the_user_is_ambiguous() {
    let mut db = two_workspaces();
    db.users.push(user(1, "ann"));
    let result = insert_user_workspace(&mut db, &id(1001), "third", defaults(9));
    assert_eq!(result, Err(AppError::Database(DbError::CardinalityViolation)));
    assert_eq!(db.workspaces.len(), 2);
}

#[test]
fn deleted_workspace_is_gone() {
    let mut db = two_workspaces();
    assert_eq!(is_workspace_exist(&db, &id(7)), Ok(true));
    assert_eq!(delete_from_workspace(&mut db, &id(7)), Ok(()));
    assert_eq!(is_workspace_exist(&db, &id(7)), Ok(false));
    assert_eq!(is_workspace_exist(&db, &id(8)), Ok(true));
    assert_eq!(
        select_workspace(&db, &id(7)),
        Err(AppError::Database(DbError::RowNotFound))
    );
}

#[test]
fn new_name_is_read_back() {
    let mut db = two_workspaces();
    assert_eq!(rename_workspace(&mut db, &id(7), "renamed"), Ok(()));
    assert_eq!(
        select_workspace_name_from_workspace_id(&db, &id(7)).unwrap(),
        Some("renamed".to_owned())
    );
    assert_eq!(
        select_workspace_name_from_workspace_id(&db, &id(8)).unwrap(),
        Some("second".to_owned())
    );
    assert_eq!(
        select_workspace_name_from_workspace_id(&db, &id(9)),
        Err(AppError::Database(DbError::RowNotFound))
    );
}

#[test]
fn renaming_an_unknown_workspace_changes_nothing() {
    let mut db = two_workspaces();
    assert_eq!(rename_workspace(&mut db, &id(9), "renamed"), Ok(()));
    assert_eq!(db, two_workspaces());
}

#[test]
fn new_icon_is_read_back() {
    let mut db = two_workspaces();
    assert_eq!(change_workspace_icon(&mut db, &id(8), "star"), Ok(()));
    assert_eq!(select_workspace(&db, &id(8)).unwrap().icon, Some("star".to_owned()));
    assert_eq!(select_workspace(&db, &id(7)).unwrap().icon, None);
}

#[test]
fn settings_are_read_back() {
    let mut db = two_workspaces();
    assert_eq!(select_workspace_settings(&db, &id(7)), Ok(None));
    let settings = Json { value: serde_json::Value::String("quiet".to_owned()) };
    assert_eq!(upsert_workspace_settings(&mut db, &id(7), &settings), Ok(()));
    assert_eq!(select_workspace_settings(&db, &id(7)), Ok(Some(settings)));
    assert_eq!(select_workspace_settings(&db, &id(8)), Ok(None));
    assert_eq!(
        select_workspace_settings(&db, &id(9)),
        Err(AppError::Database(DbError::RowNotFound))
    );
}

#[test]
fn namespace_is_read_back() {
    let mut db = two_workspaces();
    assert_eq!(select_workspace_publish_namespace(&db, &id(7)), Ok(None));
    assert_eq!(select_workspace_publish_namespace_exists(&db, &id(7), "site"), Ok(false));
    assert_eq!(update_workspace_publish_namespace(&mut db, &id(7), "site"), Ok(()));
    assert_eq!(
        select_workspace_publish_namespace(&db, &id(7)),
        Ok(Some("site".to_owned()))
    );
    assert_eq!(select_workspace_publish_namespace_exists(&db, &id(7), "site"), Ok(true));
    assert_eq!(select_workspace_publish_namespace_exists(&db, &id(8), "site"), Ok(false));
    assert_eq!(select_workspace_publish_namespace_exists(&db, &id(7), "sit"), Ok(false));
}

#[test]
fn user_is_handed_owned_and_joined_workspaces() {
    let mut db = two_workspaces();
    db.members = vec![member(7, 1), member(8, 1), member(8, 2)];
    let of_ann = select_all_user_workspaces(&db, &id(1001)).unwrap();
    assert_eq!(of_ann.len(), 2);
    assert_eq!(of_ann[0].workspace_id, id(7));
    assert_eq!(of_ann[0].owner_name, Some("ann".to_owned()));
    assert_eq!(of_ann[1].workspace_id, id(8));
    assert_eq!(of_ann[1].owner_name, Some("bob".to_owned()));
    assert_eq!(select_all_user_workspaces(&db, &id(1002)).unwrap().len(), 1);
    assert_eq!(select_all_user_workspaces(&db, &id(4)).unwrap().len(), 0);
}

#[test]
fn total_is_the_sum_of_the_lengths() {
    let mut db = two_workspaces();
    db.collabs = vec![
        CollabRecord { workspace_id: id(7), len: 100 },
        CollabRecord { workspace_id: id(8), len: 5 },
        CollabRecord { workspace_id: id(7), len: 23 },
        CollabRecord { workspace_id: id(7), len: i32::MAX },
    ];
    assert_eq!(select_workspace_total_collab_bytes(&db, &id(7)), Ok(2_147_483_770));
    assert_eq!(select_workspace_total_collab_bytes(&db, &id(8)), Ok(5));
}

#[test]
fn workspace_without_collabs_has_no_total() {
    let db = two_workspaces();
    assert_eq!(
        select_workspace_total_collab_bytes(&db, &id(7)),
        Err(AppError::RecordNotFound(
            "Failed to get total collab bytes for workspace_id: 00000000-0000-0000-0000-000000000007"
                .to_owned()
        ))
    );
}

#[test]
fn profile_is_found_by_identifier() {
    let mut db = Database::new();
    db.profiles.push(AFUserProfileRow {
        uuid: id(3),
        record: Json { value: serde_json::Value::from(12) },
    });
    let found = select_user_profile(&db, &id(3)).unwrap().unwrap();
    assert_eq!(found.uuid, id(3));
    assert_eq!(found.record.value, serde_json::Value::from(12));
    assert_eq!(select_user_profile(&db, &id(4)), Ok(None));
}

#[test]
fn workspace_under_an_identifier_in_use_does_not_hide_the_first() {
    let mut db = two_workspaces();
    let before = select_workspace(&db, &id(7)).unwrap();
    let row = insert_user_workspace(&mut db, &id(1002), "third", defaults(7)).unwrap();
    assert_eq!(row.workspace_name, Some("third".to_owned()));
    assert_eq!(select_workspace(&db, &id(7)).unwrap(), before);
}

#[test]
fn unknown_workspace_is_not_found() {
    assert_eq!(
        select_workspace(&two_workspaces(), &id(9)),
        Err(AppError::Database(DbError::RowNotFound))
    );
}
