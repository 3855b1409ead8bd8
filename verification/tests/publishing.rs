use workspace_db::error::{AppError, DbError};
use workspace_db::id::Uuid;
use workspace_db::json::Json;
use workspace_db::publish::{
    PublishCollabItem, PublishCollabMetadata, PublishInfo, delete_published_collabs,
    insert_or_replace_publish_collab_metas, select_publish_collab_meta,
    select_published_collab_blob, select_published_collab_info,
    select_user_is_collab_publisher_for_all_views,
};
use workspace_db::tables::{Database, UserRecord, WorkspaceRecord};
use workspace_db::workspace::update_workspace_publish_namespace;

fn id(bits: u128) -> Uuid {
    Uuid { bits }
}

fn user(uid: i64, name: &str) -> UserRecord {
    UserRecord {
        uid,
        uuid: id(1000 + uid as u128),
        email: format!("{name}@example.com"),
        name: name.to_owned(),
    }
}

fn site(bits: u128, namespace: &str) -> WorkspaceRecord {
    WorkspaceRecord {
        workspace_id: id(bits),
        database_storage_id: None,
        owner_uid: Some(1),
        created_at: None,
        workspace_type: 0,
        deleted_at: None,
        workspace_name: None,
        icon: None,
        settings: None,
        publish_namespace: Some(namespace.to_owned()),
    }
}

fn item(view: u128, name: &str, metadata: i64, data: &[u8]) -> PublishCollabItem {
    PublishCollabItem {
        meta: PublishCollabMetadata {
            view_id: id(view),
            publish_name: name.to_owned(),
            metadata: json(metadata),
        },
        data: data.to_vec(),
    }
}

fn json(number: i64) -> Json {
    Json { value: serde_json::Value::from(number) }
}

fn sites() -> Database {
    let mut db = Database::new();
    db.users = vec![user(1, "ann"), user(2, "bob")];
    db.workspaces = vec![site(7, "first"), site(8, "second")];
    db
}

fn published() -> Database {
    let mut db = sites();
    let items = vec![item(31, "home", 1, b"abc"), item(32, "about", 2, b"")];
    insert_or_replace_publish_collab_metas(&mut db, &id(7), &id(1001), &items).unwrap();
    db
}

#[test]
fn published_view_is_read_back() {
    let db = published();
    assert_eq!(select_publish_collab_meta(&db, "first", "home"), Ok(json(1)));
    assert_eq!(select_published_collab_blob(&db, "first", "home"), Ok(b"abc".to_vec()));
    assert_eq!(select_publish_collab_meta(&db, "first", "about"), Ok(json(2)));
    assert_eq!(select_published_collab_blob(&db, "first", "about"), Ok(vec![]));
}

#[test]
fn nothing_is_read_where_nothing_is_published() {
    let db = published();
    let missing = AppError::Database(DbError::RowNotFound);
    assert_eq!(select_publish_collab_meta(&db, "second", "home"), Err(missing));
    let missing = AppError::Database(DbError::RowNotFound);
    assert_eq!(select_published_collab_blob(&db, "third", "home"), Err(missing));
    let missing = AppError::Database(DbError::RowNotFound);
    assert_eq!(select_publish_collab_meta(&db, "first", "news"), Err(missing));
}

#[test]
fn shared_namespace_is_an_error() {
    let mut db = published();
    db.workspaces[1].publish_namespace = Some("first".to_owned());
    assert_eq!(
        select_publish_collab_meta(&db, "first", "home"),
        Err(AppError::Database(DbError::CardinalityViolation))
    );
}

#[test]
fn republished_view_has_the_new_metadata_only() {
    let mut db = published();
    let items = vec![item(31, "start", 9, b"xyz")];
    assert_eq!(
        insert_or_replace_publish_collab_metas(&mut db, &id(7), &id(1002), &items),
        Ok(())
    );
    assert_eq!(db.published.len(), 2);
    assert_eq!(select_publish_collab_meta(&db, "first", "home"), Ok(json(9)));
    assert_eq!(select_published_collab_blob(&db, "first", "home"), Ok(b"abc".to_vec()));
    assert_eq!(db.published[0].published_by, Some(1));
    assert_eq!(select_publish_collab_meta(&db, "first", "about"), Ok(json(2)));
    assert_eq!(
        select_publish_collab_meta(&db, "first", "start"),
        Err(AppError::Database(DbError::RowNotFound))
    );
}

#[test]
fn one_view_may_be_published_in_two_workspaces() {
    let mut db = published();
    let items = vec![item(31, "home", 5, b"q")];
    insert_or_replace_publish_collab_metas(&mut db, &id(8), &id(1002), &items).unwrap();
    assert_eq!(db.published.len(), 3);
    assert_eq!(select_publish_collab_meta(&db, "first", "home"), Ok(json(1)));
    assert_eq!(select_publish_collab_meta(&db, "second", "home"), Ok(json(5)));
}

#[test]
fn view_that_is_named_twice_is_refused() {
    let mut db = published();
    let items = vec![item(33, "a", 1, b""), item(33, "b", 2, b"")];
    assert_eq!(
        insert_or_replace_publish_collab_metas(&mut db, &id(7), &id(1001), &items),
        Err(AppError::Database(DbError::CardinalityViolation))
    );
    assert_eq!(db, published());
}

#[test]
fn publishing_nothing_changes_nothing() {
    let mut db = published();
    assert_eq!(
        insert_or_replace_publish_collab_metas(&mut db, &id(7), &id(1001), &[]),
        Ok(())
    );
    assert_eq!(db, published());
}

#[test]
fn withdrawn_views_are_gone() {
    let mut db = published();
    assert_eq!(delete_published_collabs(&mut db, &id(8), &[id(31)]), Ok(()));
    assert_eq!(db, published());
    assert_eq!(delete_published_collabs(&mut db, &id(7), &[id(31), id(99)]), Ok(()));
    assert_eq!(db.published.len(), 1);
    assert_eq!(
        select_publish_collab_meta(&db, "first", "home"),
        Err(AppError::Database(DbError::RowNotFound))
    );
    assert_eq!(select_publish_collab_meta(&db, "first", "about"), Ok(json(2)));
}

#[test]
fn publisher_of_all_views_is_recognised() {
    let db = published();
    let asked = |uuid: u128, views: &[Uuid]| {
        select_user_is_collab_publisher_for_all_views(&db, &id(uuid), &id(7), views)
    };
    assert_eq!(asked(1001, &[id(31), id(32)]), Ok(true));
    assert_eq!(asked(1001, &[id(31)]), Ok(true));
    assert_eq!(asked(1001, &[]), Ok(true));
    assert_eq!(asked(1001, &[id(31), id(33)]), Ok(false));
    assert_eq!(asked(1002, &[id(31)]), Ok(false));
    assert_eq!(asked(4, &[id(31)]), Ok(false));
}

#[test]
fn view_that_is_asked_for_twice_is_counted_once() {
    let db = published();
    assert_eq!(
        select_user_is_collab_publisher_for_all_views(&db, &id(1001), &id(7), &[id(31), id(31)]),
        Ok(false)
    );
}

#[test]
fn published_view_is_located() {
    let db = published();
    assert_eq!(
        select_published_collab_info(&db, &id(31)),
        Ok(PublishInfo {
            namespace: Some("first".to_owned()),
            publish_name: "home".to_owned(),
            view_id: id(31),
        })
    );
    assert_eq!(
        select_published_collab_info(&db, &id(33)),
        Err(AppError::Database(DbError::RowNotFound))
    );
}

#[test]
fn new_namespace_leads_to_what_its_workspace_published() {
    let mut db = published();
    update_workspace_publish_namespace(&mut db, &id(7), "moved").unwrap();
    assert_eq!(select_publish_collab_meta(&db, "moved", "home"), Ok(json(1)));
    assert_eq!(
        select_publish_collab_meta(&db, "first", "home"),
        Err(AppError::Database(DbError::RowNotFound))
    );
    assert_eq!(
        select_published_collab_info(&db, &id(32)).unwrap().namespace,
        Some("moved".to_owned())
    );
}

#[test]
fn publishing_twice_is_publishing_once() {
    let mut db = published();
    let items = vec![item(31, "home", 1, b"abc"), item(32, "about", 2, b"")];
    assert_eq!(
        insert_or_replace_publish_collab_metas(&mut db, &id(7), &id(1001), &items),
        Ok(())
    );
    assert_eq!(db, published());
}
