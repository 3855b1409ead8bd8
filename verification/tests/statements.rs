use workspace_db::error::AppError;
use workspace_db::id::Uuid;
use workspace_db::json::Json;
use workspace_db::outcome;
use workspace_db::publish::{PublishCollabItem, PublishCollabMetadata};
use workspace_db::sql::{
    DELETE_WORKSPACE_MEMBERS, INSERT_OR_REPLACE_PUBLISH_COLLAB_METAS, SELECT_WORKSPACE_SETTINGS,
    UPDATE_WORKSPACE_INVITATION_SET_STATUS_ACCEPTED,
};
use workspace_db::statement::{Bind, Statement};

fn id(bits: u128) -> Uuid {
    Uuid { bits }
}

fn text(text: &str) -> Bind {
    Bind::Text(text.to_owned())
}

#[test]
fn texts_of_statements() {
    assert_eq!(
        SELECT_WORKSPACE_SETTINGS,
        "SElECT settings FROM af_workspace WHERE workspace_id = $1"
    );
    assert_eq!(
        UPDATE_WORKSPACE_INVITATION_SET_STATUS_ACCEPTED,
        "UPDATE public.af_workspace_invitation\n\
         SET status = 1\n\
         WHERE invitee_email = (SELECT email FROM public.af_user WHERE uuid = $1)\n  \
           AND id = $2\n  \
           AND status = 0"
    );
}

#[test]
fn values_are_bound_in_the_order_of_the_parameters() {
    assert_eq!(
        Statement::rename_workspace(&id(7), "new").binds,
        vec![text("new"), Bind::Uuid(id(7))]
    );
    assert_eq!(
        Statement::select_user_is_workspace_owner(&id(1), &id(7)).binds,
        vec![Bind::Uuid(id(7)), Bind::Uuid(id(1))]
    );
    assert_eq!(
        Statement::select_user_can_edit_collab(&id(1), &id(7), "doc").binds,
        vec![Bind::Uuid(id(1)), text("doc"), Bind::Uuid(id(7))]
    );
    assert_eq!(
        Statement::upsert_workspace_member(&id(7), "a@example.com", 2).binds,
        vec![Bind::Int(2), Bind::Uuid(id(7)), text("a@example.com")]
    );
    assert_eq!(
        Statement::select_user_role(&5, &id(7)).binds,
        vec![Bind::Uuid(id(7)), Bind::BigInt(5)]
    );
    assert_eq!(
        Statement::select_workspace_invitations_for_user(&id(1), Some(1)).binds,
        vec![Bind::Uuid(id(1)), Bind::SmallInt(Some(1))]
    );
    assert_eq!(Statement::select_permission(&-1).binds, vec![Bind::Int(-1)]);
    assert_eq!(Statement::select_permission(&4_294_967_299).binds, vec![Bind::Int(3)]);
    assert!(Statement::select_workspace_member_perm_stream().binds.is_empty());
}

#[test]
fn published_columns_are_bound_as_arrays() {
    let item = |view: u128, name: &str, number: i64, data: &[u8]| PublishCollabItem {
        meta: PublishCollabMetadata {
            view_id: id(view),
            publish_name: name.to_owned(),
            metadata: Json { value: serde_json::Value::from(number) },
        },
        data: data.to_vec(),
    };
    let items = vec![item(31, "home", 1, b"abc"), item(32, "about", 2, b"")];
    let statement = Statement::insert_or_replace_publish_collab_metas(&id(7), &id(1), &items);
    assert_eq!(statement.sql, INSERT_OR_REPLACE_PUBLISH_COLLAB_METAS);
    assert_eq!(
        statement.binds,
        vec![
            Bind::Uuid(id(7)),
            Bind::Uuids(vec![id(31), id(32)]),
            Bind::Texts(vec!["home".to_owned(), "about".to_owned()]),
            Bind::Uuid(id(1)),
            Bind::Jsons(vec![
                Json { value: serde_json::Value::from(1) },
                Json { value: serde_json::Value::from(2) },
            ]),
            Bind::Blobs(vec![b"abc".to_vec(), vec![]]),
            Bind::Int(2),
        ]
    );
}

#[test]
fn missing_flag_is_no() {
    assert!(outcome::flag(Some(true)));
    assert!(!outcome::flag(Some(false)));
    assert!(!outcome::flag(None));
}

#[test]
fn other_number_of_rows_is_noticed() {
    assert!(!outcome::missed_one(1));
    assert!(outcome::missed_one(0));
    assert!(outcome::missed_one(2));
    assert!(!outcome::missed_some(3, 3));
    assert!(!outcome::missed_some(0, 0));
    assert!(outcome::missed_some(2, 3));
    assert!(outcome::missed_some(4, 3));
}

#[test]
fn publisher_reply_is_compared_with_the_number_of_views() {
    let views = vec![id(1), id(2)];
    assert!(outcome::select_user_is_collab_publisher_for_all_views(Some(2), &views));
    assert!(!outcome::select_user_is_collab_publisher_for_all_views(Some(1), &views));
    assert!(!outcome::select_user_is_collab_publisher_for_all_views(None, &[]));
}

#[test]
fn acceptance_reply_must_be_one_row() {
    let answer =
        |rows: u64| outcome::update_workspace_invitation_set_status_accepted(rows, &id(1), &id(2));
    assert_eq!(answer(1), Ok(()));
    assert_eq!(
        answer(0),
        Err(AppError::RecordNotFound(
            "Invitation not found, invitee_uuid: 00000000-0000-0000-0000-000000000001, \
             invite_id: 00000000-0000-0000-0000-000000000002"
                .to_owned()
        ))
    );
    assert_eq!(
        answer(12_345_678_901_234_567_890),
        Err(AppError::Internal(
            "Expected 1 row to be affected, but 12345678901234567890 rows were affected".to_owned()
        ))
    );
}

#[test]
fn removal_is_sent_unless_the_member_owns_the_workspace() {
    let next = outcome::delete_workspace_members(Some(false), &id(7), "a@example.com").unwrap();
    assert_eq!(next.sql, DELETE_WORKSPACE_MEMBERS);
    assert_eq!(next.binds, vec![Bind::Uuid(id(7)), text("a@example.com")]);
    assert!(outcome::delete_workspace_members(None, &id(7), "a@example.com").is_ok());
    let workspace = id(0x0123_4567_89ab_cdef_fedc_ba98_7654_3210);
    assert_eq!(
        outcome::delete_workspace_members(Some(true), &workspace, "a@example.com"),
        Err(AppError::NotEnoughPermissions {
            user: "a@example.com".to_owned(),
            action: "delete member from workspace 01234567-89ab-cdef-fedc-ba9876543210".to_owned(),
        })
    );
}

#[test]
fn total_reply_is_handed_on() {
    assert_eq!(outcome::select_workspace_total_collab_bytes(Some(-4), &id(7)), Ok(-4));
    assert!(matches!(
        outcome::select_workspace_total_collab_bytes(None, &id(7)),
        Err(AppError::RecordNotFound(_))
    ));
}

#[test]
fn last_invitation_of_an_address_counts() {
    let rows = vec![
        ("a@example.com".to_owned(), id(1)),
        ("b@example.com".to_owned(), id(2)),
        ("a@example.com".to_owned(), id(3)),
    ];
    let by_email = outcome::select_workspace_pending_invitations(&rows);
    assert_eq!(by_email.get("a@example.com"), Some(&id(3)));
    assert_eq!(by_email.get("b@example.com"), Some(&id(2)));
    assert_eq!(by_email.get("c@example.com"), None);
}

#[test]
fn settings_reply_is_none_parsed_or_an_error() {
    assert_eq!(outcome::select_workspace_settings::<i32>(None), Ok(None));
    assert_eq!(outcome::select_workspace_settings(Some(Ok(5))), Ok(Some(5)));
    assert_eq!(
        outcome::select_workspace_settings::<i32>(Some(Err("missing field".to_owned()))),
        Err(AppError::Serde("missing field".to_owned()))
    );
}
