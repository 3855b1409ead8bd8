use workspace_db::error::{AppError, DbError};
use workspace_db::id::Uuid;
use workspace_db::invitation::{
    AFWorkspaceInvitation, AFWorkspaceInvitationMinimal, InvitationDefaults, STATUS_ACCEPTED,
    STATUS_PENDING, get_invitation_by_id, insert_workspace_invitation,
    select_workspace_invitations_for_user, select_workspace_pending_invitations,
    update_workspace_invitation_set_status_accepted,
};
use workspace_db::tables::{Database, UserRecord, WorkspaceRecord};

fn id(bits: u128) -> Uuid {
    Uuid { bits }
}

fn user(uid: i64, name: &str) -> UserRecord {
    UserRecord {
        uid,
        uuid: id(1000 + uid as u128),
        email: format!("{name}@example.com"),
        name: name.to_owned(),
    }
}

const DEFAULTS: InvitationDefaults = InvitationDefaults { status: STATUS_PENDING, updated_at: 5 };

fn invited() -> Database {
    let mut db = Database::new();
    db.users = vec![user(1, "ann"), user(2, "bob")];
    db.workspaces.push(WorkspaceRecord {
        workspace_id: id(7),
        database_storage_id: None,
        owner_uid: Some(1),
        created_at: None,
        workspace_type: 0,
        deleted_at: None,
        workspace_name: Some("first".to_owned()),
        icon: None,
        settings: None,
        publish_namespace: None,
    });
    insert_workspace_invitation(
        &mut db,
        &id(21),
        &id(7),
        &id(1001),
        "bob@example.com",
        2,
        DEFAULTS,
    )
    .unwrap();
    db
}

#[test]
fn sent_invitation_is_found() {
    let db = invited();
    assert_eq!(
        get_invitation_by_id(&db, &id(21)),
        Ok(AFWorkspaceInvitationMinimal {
            workspace_id: id(7),
            inviter_uid: Some(1),
            invitee_uid: Some(2),
            status: STATUS_PENDING,
            role: 2,
        })
    );
    assert_eq!(
        get_invitation_by_id(&db, &id(22)),
        Err(AppError::Database(DbError::RowNotFound))
    );
}

#[test]
fn invitation_to_a_stranger_names_no_user() {
    let mut db = invited();
    insert_workspace_invitation(&mut db, &id(22), &id(7), &id(1001), "cy@example.com", 3, DEFAULTS)
        .unwrap();
    let found = get_invitation_by_id(&db, &id(22)).unwrap();
    assert_eq!(found.invitee_uid, None);
    assert_eq!(found.role, 3);
}

#[test]
fn invitation_fails_when_the_inviter_is_ambiguous() {
    let mut db = invited();
    db.users.push(user(1, "ann"));
    let result = insert_workspace_invitation(
        &mut db,
        &id(22),
        &id(7),
        &id(1001),
        "cy@example.com",
        3,
        DEFAULTS,
    );
    assert_eq!(result, Err(AppError::Database(DbError::CardinalityViolation)));
    assert_eq!(db.invitations.len(), 1);
}

#[test]
fn invitation_is_accepted_once() {
    let mut db = invited();
    assert_eq!(
        update_workspace_invitation_set_status_accepted(&mut db, &id(1002), &id(21)),
        Ok(())
    );
    assert_eq!(get_invitation_by_id(&db, &id(21)).unwrap().status, STATUS_ACCEPTED);
    assert_eq!(
        update_workspace_invitation_set_status_accepted(&mut db, &id(1002), &id(21)),
        Err(AppError::RecordNotFound(
            "Invitation not found, invitee_uuid: 00000000-0000-0000-0000-0000000003ea, \
             invite_id: 00000000-0000-0000-0000-000000000015"
                .to_owned()
        ))
    );
    assert_eq!(get_invitation_by_id(&db, &id(21)).unwrap().status, STATUS_ACCEPTED);
}

#[test]
fn invitation_is_accepted_only_by_whom_it_went_to() {
    let mut db = invited();
    let result = update_workspace_invitation_set_status_accepted(&mut db, &id(1001), &id(21));
    assert!(matches!(result, Err(AppError::RecordNotFound(_))));
    assert_eq!(db, invited());
}

#[test]
fn two_open_invitations_under_one_identifier_are_an_internal_error() {
    let mut db = invited();
    insert_workspace_invitation(&mut db, &id(21), &id(8), &id(1001), "bob@example.com", 2, DEFAULTS)
        .unwrap();
    assert_eq!(
        update_workspace_invitation_set_status_accepted(&mut db, &id(1002), &id(21)),
        Err(AppError::Internal(
            "Expected 1 row to be affected, but 2 rows were affected".to_owned()
        ))
    );
}

#[test]
fn invitations_are_listed_with_names() {
    let db = invited();
    assert_eq!(
        select_workspace_invitations_for_user(&db, &id(1002), None),
        Ok(vec![AFWorkspaceInvitation {
            invite_id: id(21),
            workspace_id: id(7),
            workspace_name: Some("first".to_owned()),
            inviter_email: Some("ann@example.com".to_owned()),
            inviter_name: Some("ann".to_owned()),
            status: STATUS_PENDING,
            updated_at: 5,
        }])
    );
    assert_eq!(select_workspace_invitations_for_user(&db, &id(1001), None), Ok(vec![]));
}

#[test]
fn status_narrows_the_list() {
    let mut db = invited();
    insert_workspace_invitation(&mut db, &id(22), &id(8), &id(1001), "bob@example.com", 2, DEFAULTS)
        .unwrap();
    update_workspace_invitation_set_status_accepted(&mut db, &id(1002), &id(22)).unwrap();
    let ids = |status: Option<i16>| -> Vec<Uuid> {
        select_workspace_invitations_for_user(&db, &id(1002), status)
            .unwrap()
            .into_iter()
            .map(|invitation| invitation.invite_id)
            .collect()
    };
    assert_eq!(ids(None), vec![id(21), id(22)]);
    assert_eq!(ids(Some(STATUS_PENDING)), vec![id(21)]);
    assert_eq!(ids(Some(STATUS_ACCEPTED)), vec![id(22)]);
    assert_eq!(ids(Some(2)), vec![]);
}

#[test]
fn pending_invitations_are_keyed_by_address() {
    let mut db = invited();
    insert_workspace_invitation(&mut db, &id(22), &id(7), &id(1001), "cy@example.com", 2, DEFAULTS)
        .unwrap();
    insert_workspace_invitation(&mut db, &id(23), &id(8), &id(1001), "dee@example.com", 2, DEFAULTS)
        .unwrap();
    insert_workspace_invitation(&mut db, &id(24), &id(7), &id(1001), "cy@example.com", 2, DEFAULTS)
        .unwrap();
    let pending = select_workspace_pending_invitations(&db, &id(7)).ok().unwrap();
    assert_eq!(pending.get("bob@example.com"), Some(&id(21)));
    assert_eq!(pending.get("cy@example.com"), Some(&id(24)));
    assert_eq!(pending.get("dee@example.com"), None);
}

#[test]
fn accepted_invitation_is_not_pending() {
    let mut db = invited();
    update_workspace_invitation_set_status_accepted(&mut db, &id(1002), &id(21)).unwrap();
    let pending = select_workspace_pending_invitations(&db, &id(7)).ok().unwrap();
    assert_eq!(pending.get("bob@example.com"), None);
}

#[test]
fn accepted_invitation_is_found_as_sent() {
    let mut db = invited();
    update_workspace_invitation_set_status_accepted(&mut db, &id(1002), &id(21)).unwrap();
    assert_eq!(
        get_invitation_by_id(&db, &id(21)),
        Ok(AFWorkspaceInvitationMinimal {
            workspace_id: id(7),
            inviter_uid: Some(1),
            invitee_uid: Some(2),
            status: STATUS_ACCEPTED,
            role: 2,
        })
    );
}

#[test]
fn invitation_under_an_identifier_in_use_does_not_hide_the_first() {
    let mut db = invited();
    let before = get_invitation_by_id(&db, &id(21)).unwrap();
    insert_workspace_invitation(&mut db, &id(21), &id(8), &id(1001), "cy@example.com", 3, DEFAULTS)
        .unwrap();
    assert_eq!(get_invitation_by_id(&db, &id(21)), Ok(before));
}
