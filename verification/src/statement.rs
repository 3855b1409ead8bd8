//! What is sent to the database server: the text of a statement and the values bound to it, in
//! the order of its parameters.

use vstd::prelude::*;

use crate::id::Uuid;
use crate::json::Json;
use crate::publish::{
    PublishCollabItem, blobs_of, metadatas_of, publish_names_of, view_ids_of,
};
use crate::sql::{
    CHANGE_WORKSPACE_ICON, DELETE_FROM_WORKSPACE, DELETE_PUBLISHED_COLLABS,
    DELETE_WORKSPACE_MEMBERS, GET_INVITATION_BY_ID, INSERT_OR_REPLACE_PUBLISH_COLLAB_METAS,
    INSERT_USER_WORKSPACE, INSERT_WORKSPACE_INVITATION, IS_WORKSPACE_EXIST, RENAME_WORKSPACE,
    SELECT_ALL_USER_WORKSPACES, SELECT_IS_WORKSPACE_OWNER_BY_EMAIL, SELECT_PERMISSION,
    SELECT_PERMISSION_FROM_ROLE_ID, SELECT_PUBLISHED_COLLAB_BLOB, SELECT_PUBLISHED_COLLAB_INFO,
    SELECT_PUBLISH_COLLAB_META, SELECT_USER_CAN_EDIT_COLLAB,
    SELECT_USER_IS_COLLAB_PUBLISHER_FOR_ALL_VIEWS, SELECT_USER_IS_WORKSPACE_OWNER,
    SELECT_USER_PROFILE, SELECT_USER_ROLE, SELECT_WORKSPACE,
    SELECT_WORKSPACE_INVITATIONS_FOR_USER, SELECT_WORKSPACE_MEMBER,
    SELECT_WORKSPACE_MEMBER_COUNT_FROM_WORKSPACE_ID, SELECT_WORKSPACE_MEMBER_LIST,
    SELECT_WORKSPACE_MEMBER_PERM_STREAM, SELECT_WORKSPACE_NAME_FROM_WORKSPACE_ID,
    SELECT_WORKSPACE_PENDING_INVITATIONS, SELECT_WORKSPACE_PUBLISH_NAMESPACE,
    SELECT_WORKSPACE_PUBLISH_NAMESPACE_EXISTS, SELECT_WORKSPACE_SETTINGS,
    SELECT_WORKSPACE_TOTAL_COLLAB_BYTES, UPDATE_UPDATED_AT_OF_WORKSPACE,
    UPDATE_WORKSPACE_INVITATION_SET_STATUS_ACCEPTED, UPDATE_WORKSPACE_PUBLISH_NAMESPACE,
    UPSERT_WORKSPACE_MEMBER, UPSERT_WORKSPACE_MEMBER_WITH_TXN, UPSERT_WORKSPACE_SETTINGS,
};

verus! {

/// A value bound to a parameter.
#[derive(Debug, PartialEq)]
pub enum Bind {
    Uuid(Uuid),
    Uuids(Vec<Uuid>),
    Text(String),
    Texts(Vec<String>),
    BigInt(i64),
    Int(i32),
    SmallInt(Option<i16>),
    Json(Json),
    Jsons(Vec<Json>),
    Blobs(Vec<Vec<u8>>),
}

/// [`Bind`] with its collections as sequences.
pub enum BindView {
    Uuid(Uuid),
    Uuids(Seq<Uuid>),
    Text(Seq<char>),
    Texts(Seq<Seq<char>>),
    BigInt(i64),
    Int(i32),
    SmallInt(Option<i16>),
    Json(serde_json::Value),
    Jsons(Seq<serde_json::Value>),
    Blobs(Seq<Seq<u8>>),
}

impl DeepView for Bind {
    type V = BindView;

    open spec fn deep_view(&self) -> BindView {
        match self {
            Bind::Uuid(id) => BindView::Uuid(*id),
            Bind::Uuids(ids) => BindView::Uuids(ids@),
            Bind::Text(text) => BindView::Text(text@),
            Bind::Texts(texts) => BindView::Texts(texts.deep_view()),
            Bind::BigInt(number) => BindView::BigInt(*number),
            Bind::Int(number) => BindView::Int(*number),
            Bind::SmallInt(number) => BindView::SmallInt(*number),
            Bind::Json(json) => BindView::Json(json.deep_view()),
            Bind::Jsons(jsons) => BindView::Jsons(jsons.deep_view()),
            Bind::Blobs(blobs) => BindView::Blobs(blobs.deep_view()),
        }
    }
}

/// A statement with its bound values.
#[derive(Debug, PartialEq)]
pub struct Statement {
    pub sql: &'static str,
    pub binds: Vec<Bind>,
}

/// [`Statement`] with its text and its bound values as sequences.
pub struct StatementView {
    pub sql: Seq<char>,
    pub binds: Seq<BindView>,
}

impl DeepView for Statement {
    type V = StatementView;

    open spec fn deep_view(&self) -> StatementView {
        StatementView { sql: self.sql@, binds: self.binds.deep_view() }
    }
}

fn copy_ids(ids: &[Uuid]) -> (copy: Vec<Uuid>)
    ensures
        copy@ == ids@,
{
    let mut copy: Vec<Uuid> = Vec::new();
    let mut i: usize = 0;
    while i < ids.len()
        invariant
            i <= ids.len(),
            copy@ == ids@.take(i as int),
        decreases ids.len() - i,
    {
        copy.push(ids[i]);
        assert(ids@.take(i as int).push(ids[i as int]) =~= ids@.take(i + 1));
        i = i + 1;
    }
    assert(ids@.take(i as int) =~= ids@);
    copy
}

pub(crate) fn copy_bytes(bytes: &Vec<u8>) -> (copy: Vec<u8>)
    ensures
        copy@ == bytes@,
{
    let mut copy: Vec<u8> = Vec::new();
    let mut i: usize = 0;
    while i < bytes.len()
        invariant
            i <= bytes.len(),
            copy@ == bytes@.take(i as int),
        decreases bytes.len() - i,
    {
        copy.push(bytes[i]);
        assert(bytes@.take(i as int).push(bytes[i as int]) =~= bytes@.take(i + 1));
        i = i + 1;
    }
    assert(bytes@.take(i as int) =~= bytes@);
    copy
}

impl Statement {
    pub fn delete_from_workspace(workspace_id: &Uuid) -> (statement: Statement)
        ensures
            statement.deep_view() == (StatementView {
                sql: DELETE_FROM_WORKSPACE@,
                binds: seq![BindView::Uuid(*workspace_id)],
            }),
    {
        let statement = Statement {
            sql: DELETE_FROM_WORKSPACE,
            binds: vec![Bind::Uuid(*workspace_id)],
        };
        assert(statement.deep_view().binds =~= seq![BindView::Uuid(*workspace_id)]);
        statement
    }

    pub fn insert_user_workspace(user_uuid: &Uuid, workspace_name: &str) -> (statement: Statement)
        ensures
            statement.deep_view() == (StatementView {
                sql: INSERT_USER_WORKSPACE@,
                binds: seq![BindView::Uuid(*user_uuid), BindView::Text(workspace_name@)],
            }),
    {
        let statement = Statement {
            sql: INSERT_USER_WORKSPACE,
            binds: vec![Bind::Uuid(*user_uuid), Bind::Text(workspace_name.to_owned())],
        };
        assert(statement.deep_view().binds =~= seq![
            BindView::Uuid(*user_uuid),
            BindView::Text(workspace_name@),
        ]);
        statement
    }

    pub fn rename_workspace(workspace_id: &Uuid, new_workspace_name: &str) -> (statement: Statement)
        ensures
            statement.deep_view() == (StatementView {
                sql: RENAME_WORKSPACE@,
                binds: seq![BindView::Text(new_workspace_name@), BindView::Uuid(*workspace_id)],
            }),
    {
        let statement = Statement {
            sql: RENAME_WORKSPACE,
            binds: vec![Bind::Text(new_workspace_name.to_owned()), Bind::Uuid(*workspace_id)],
        };
        assert(statement.deep_view().binds =~= seq![
            BindView::Text(new_workspace_name@),
            BindView::Uuid(*workspace_id),
        ]);
        statement
    }

    pub fn change_workspace_icon(workspace_id: &Uuid, icon: &str) -> (statement: Statement)
        ensures
            statement.deep_view() == (StatementView {
                sql: CHANGE_WORKSPACE_ICON@,
                binds: seq![BindView::Text(icon@), BindView::Uuid(*workspace_id)],
            }),
    {
        let statement = Statement {
            sql: CHANGE_WORKSPACE_ICON,
            binds: vec![Bind::Text(icon.to_owned()), Bind::Uuid(*workspace_id)],
        };
        assert(statement.deep_view().binds =~= seq![
            BindView::Text(icon@),
            BindView::Uuid(*workspace_id),
        ]);
        statement
    }

    pub fn select_user_is_workspace_owner(
        user_uuid: &Uuid,
        workspace_uuid: &Uuid,
    ) -> (statement: Statement)
        ensures
            statement.deep_view() == (StatementView {
                sql: SELECT_USER_IS_WORKSPACE_OWNER@,
                binds: seq![BindView::Uuid(*workspace_uuid), BindView::Uuid(*user_uuid)],
            }),
    {
        let statement = Statement {
            sql: SELECT_USER_IS_WORKSPACE_OWNER,
            binds: vec![Bind::Uuid(*workspace_uuid), Bind::Uuid(*user_uuid)],
        };
        assert(statement.deep_view().binds =~= seq![
            BindView::Uuid(*workspace_uuid),
            BindView::Uuid(*user_uuid),
        ]);
        statement
    }

    pub fn select_user_is_collab_publisher_for_all_views(
        user_uuid: &Uuid,
        workspace_uuid: &Uuid,
        view_ids: &[Uuid],
    ) -> (statement: Statement)
        ensures
            statement.deep_view() == (StatementView {
                sql: SELECT_USER_IS_COLLAB_PUBLISHER_FOR_ALL_VIEWS@,
                binds: seq![
                    BindView::Uuid(*workspace_uuid),
                    BindView::Uuids(view_ids@),
                    BindView::Uuid(*user_uuid),
                ],
            }),
    {
        let statement = Statement {
            sql: SELECT_USER_IS_COLLAB_PUBLISHER_FOR_ALL_VIEWS,
            binds: vec![
                Bind::Uuid(*workspace_uuid),
                Bind::Uuids(copy_ids(view_ids)),
                Bind::Uuid(*user_uuid),
            ],
        };
        assert(statement.deep_view().binds =~= seq![
            BindView::Uuid(*workspace_uuid),
            BindView::Uuids(view_ids@),
            BindView::Uuid(*user_uuid),
        ]);
        statement
    }

    pub fn select_user_role(uid: &i64, workspace_uuid: &Uuid) -> (statement: Statement)
        ensures
            statement.deep_view() == (StatementView {
                sql: SELECT_USER_ROLE@,
                binds: seq![BindView::Uuid(*workspace_uuid), BindView::BigInt(*uid)],
            }),
    {
        let statement = Statement {
            sql: SELECT_USER_ROLE,
            binds: vec![Bind::Uuid(*workspace_uuid), Bind::BigInt(*uid)],
        };
        assert(statement.deep_view().binds =~= seq![
            BindView::Uuid(*workspace_uuid),
            BindView::BigInt(*uid),
        ]);
        statement
    }

    pub fn select_user_can_edit_collab(
        user_uuid: &Uuid,
        workspace_id: &Uuid,
        object_id: &str,
    ) -> (statement: Statement)
        ensures
            statement.deep_view() == (StatementView {
                sql: SELECT_USER_CAN_EDIT_COLLAB@,
                binds: seq![
                    BindView::Uuid(*user_uuid),
                    BindView::Text(object_id@),
                    BindView::Uuid(*workspace_id),
                ],
            }),
    {
        let statement = Statement {
            sql: SELECT_USER_CAN_EDIT_COLLAB,
            binds: vec![
                Bind::Uuid(*user_uuid),
                Bind::Text(object_id.to_owned()),
                Bind::Uuid(*workspace_id),
            ],
        };
        assert(statement.deep_view().binds =~= seq![
            BindView::Uuid(*user_uuid),
            BindView::Text(object_id@),
            BindView::Uuid(*workspace_id),
        ]);
        statement
    }

    pub fn upsert_workspace_member_with_txn(
        workspace_id: &Uuid,
        member_email: &str,
        role_id: i32,
    ) -> (statement: Statement)
        ensures
            statement.deep_view() == (StatementView {
                sql: UPSERT_WORKSPACE_MEMBER_WITH_TXN@,
                binds: seq![
                    BindView::Uuid(*workspace_id),
                    BindView::Text(member_email@),
                    BindView::Int(role_id),
                ],
            }),
    {
        let statement = Statement {
            sql: UPSERT_WORKSPACE_MEMBER_WITH_TXN,
            binds: vec![
                Bind::Uuid(*workspace_id),
                Bind::Text(member_email.to_owned()),
                Bind::Int(role_id),
            ],
        };
        assert(statement.deep_view().binds =~= seq![
            BindView::Uuid(*workspace_id),
            BindView::Text(member_email@),
            BindView::Int(role_id),
        ]);
        statement
    }

    pub fn insert_workspace_invitation(
        invite_id: &Uuid,
        workspace_id: &Uuid,
        inviter_uuid: &Uuid,
        invitee_email: &str,
        role_id: i32,
    ) -> (statement: Statement)
        ensures
            statement.deep_view() == (StatementView {
                sql: INSERT_WORKSPACE_INVITATION@,
                binds: seq![
                    BindView::Uuid(*invite_id),
                    BindView::Uuid(*workspace_id),
                    BindView::Uuid(*inviter_uuid),
                    BindView::Text(invitee_email@),
                    BindView::Int(role_id),
                ],
            }),
    {
        let statement = Statement {
            sql: INSERT_WORKSPACE_INVITATION,
            binds: vec![
                Bind::Uuid(*invite_id),
                Bind::Uuid(*workspace_id),
                Bind::Uuid(*inviter_uuid),
                Bind::Text(invitee_email.to_owned()),
                Bind::Int(role_id),
            ],
        };
        assert(statement.deep_view().binds =~= seq![
            BindView::Uuid(*invite_id),
            BindView::Uuid(*workspace_id),
            BindView::Uuid(*inviter_uuid),
            BindView::Text(invitee_email@),
            BindView::Int(role_id),
        ]);
        statement
    }

    pub fn update_workspace_invitation_set_status_accepted(
        invitee_uuid: &Uuid,
        invite_id: &Uuid,
    ) -> (statement: Statement)
        ensures
            statement.deep_view() == (StatementView {
                sql: UPDATE_WORKSPACE_INVITATION_SET_STATUS_ACCEPTED@,
                binds: seq![BindView::Uuid(*invitee_uuid), BindView::Uuid(*invite_id)],
            }),
    {
        let statement = Statement {
            sql: UPDATE_WORKSPACE_INVITATION_SET_STATUS_ACCEPTED,
            binds: vec![Bind::Uuid(*invitee_uuid), Bind::Uuid(*invite_id)],
        };
        assert(statement.deep_view().binds =~= seq![
            BindView::Uuid(*invitee_uuid),
            BindView::Uuid(*invite_id),
        ]);
        statement
    }

    pub fn get_invitation_by_id(invite_id: &Uuid) -> (statement: Statement)
        ensures
            statement.deep_view() == (StatementView {
                sql: GET_INVITATION_BY_ID@,
                binds: seq![BindView::Uuid(*invite_id)],
            }),
    {
        let statement = Statement {
            sql: GET_INVITATION_BY_ID,
            binds: vec![Bind::Uuid(*invite_id)],
        };
        assert(statement.deep_view().binds =~= seq![BindView::Uuid(*invite_id)]);
        statement
    }

    pub fn select_workspace_invitations_for_user(
        invitee_uuid: &Uuid,
        status_filter: Option<i16>,
    ) -> (statement: Statement)
        ensures
            statement.deep_view() == (StatementView {
                sql: SELECT_WORKSPACE_INVITATIONS_FOR_USER@,
                binds: seq![BindView::Uuid(*invitee_uuid), BindView::SmallInt(status_filter)],
            }),
    {
        let statement = Statement {
            sql: SELECT_WORKSPACE_INVITATIONS_FOR_USER,
            binds: vec![Bind::Uuid(*invitee_uuid), Bind::SmallInt(status_filter)],
        };
        assert(statement.deep_view().binds =~= seq![
            BindView::Uuid(*invitee_uuid),
            BindView::SmallInt(status_filter),
        ]);
        statement
    }

    pub fn upsert_workspace_member(
        workspace_id: &Uuid,
        email: &str,
        role_id: i32,
    ) -> (statement: Statement)
        ensures
            statement.deep_view() == (StatementView {
                sql: UPSERT_WORKSPACE_MEMBER@,
                binds: seq![
                    BindView::Int(role_id),
                    BindView::Uuid(*workspace_id),
                    BindView::Text(email@),
                ],
            }),
    {
        let statement = Statement {
            sql: UPSERT_WORKSPACE_MEMBER,
            binds: vec![
                Bind::Int(role_id),
                Bind::Uuid(*workspace_id),
                Bind::Text(email.to_owned()),
            ],
        };
        assert(statement.deep_view().binds =~= seq![
            BindView::Int(role_id),
            BindView::Uuid(*workspace_id),
            BindView::Text(email@),
        ]);
        statement
    }

    pub fn select_is_workspace_owner_by_email(
        workspace_id: &Uuid,
        member_email: &str,
    ) -> (statement: Statement)
        ensures
            statement.deep_view() == (StatementView {
                sql: SELECT_IS_WORKSPACE_OWNER_BY_EMAIL@,
                binds: seq![BindView::Uuid(*workspace_id), BindView::Text(member_email@)],
            }),
    {
        let statement = Statement {
            sql: SELECT_IS_WORKSPACE_OWNER_BY_EMAIL,
            binds: vec![Bind::Uuid(*workspace_id), Bind::Text(member_email.to_owned())],
        };
        assert(statement.deep_view().binds =~= seq![
            BindView::Uuid(*workspace_id),
            BindView::Text(member_email@),
        ]);
        statement
    }

    pub fn delete_workspace_members(
        workspace_id: &Uuid,
        member_email: &str,
    ) -> (statement: Statement)
        ensures
            statement.deep_view() == (StatementView {
                sql: DELETE_WORKSPACE_MEMBERS@,
                binds: seq![BindView::Uuid(*workspace_id), BindView::Text(member_email@)],
            }),
    {
        let statement = Statement {
            sql: DELETE_WORKSPACE_MEMBERS,
            binds: vec![Bind::Uuid(*workspace_id), Bind::Text(member_email.to_owned())],
        };
        assert(statement.deep_view().binds =~= seq![
            BindView::Uuid(*workspace_id),
            BindView::Text(member_email@),
        ]);
        statement
    }

    pub fn select_workspace_member_perm_stream() -> (statement: Statement)
        ensures
            statement.deep_view() == (StatementView {
                sql: SELECT_WORKSPACE_MEMBER_PERM_STREAM@,
                binds: seq![],
            }),
    {
        let statement = Statement {
            sql: SELECT_WORKSPACE_MEMBER_PERM_STREAM,
            binds: Vec::new(),
        };
        assert(statement.deep_view().binds =~= seq![]);
        statement
    }

    pub fn select_workspace_member_list(workspace_id: &Uuid) -> (statement: Statement)
        ensures
            statement.deep_view() == (StatementView {
                sql: SELECT_WORKSPACE_MEMBER_LIST@,
                binds: seq![BindView::Uuid(*workspace_id)],
            }),
    {
        let statement = Statement {
            sql: SELECT_WORKSPACE_MEMBER_LIST,
            binds: vec![Bind::Uuid(*workspace_id)],
        };
        assert(statement.deep_view().binds =~= seq![BindView::Uuid(*workspace_id)]);
        statement
    }

    pub fn select_workspace_member(uid: &i64, workspace_id: &Uuid) -> (statement: Statement)
        ensures
            statement.deep_view() == (StatementView {
                sql: SELECT_WORKSPACE_MEMBER@,
                binds: seq![BindView::Uuid(*workspace_id), BindView::BigInt(*uid)],
            }),
    {
        let statement = Statement {
            sql: SELECT_WORKSPACE_MEMBER,
            binds: vec![Bind::Uuid(*workspace_id), Bind::BigInt(*uid)],
        };
        assert(statement.deep_view().binds =~= seq![
            BindView::Uuid(*workspace_id),
            BindView::BigInt(*uid),
        ]);
        statement
    }

    pub fn select_user_profile(user_uuid: &Uuid) -> (statement: Statement)
        ensures
            statement.deep_view() == (StatementView {
                sql: SELECT_USER_PROFILE@,
                binds: seq![BindView::Uuid(*user_uuid)],
            }),
    {
        let statement = Statement {
            sql: SELECT_USER_PROFILE,
            binds: vec![Bind::Uuid(*user_uuid)],
        };
        assert(statement.deep_view().binds =~= seq![BindView::Uuid(*user_uuid)]);
        statement
    }

    pub fn select_workspace(workspace_id: &Uuid) -> (statement: Statement)
        ensures
            statement.deep_view() == (StatementView {
                sql: SELECT_WORKSPACE@,
                binds: seq![BindView::Uuid(*workspace_id)],
            }),
    {
        let statement = Statement {
            sql: SELECT_WORKSPACE,
            binds: vec![Bind::Uuid(*workspace_id)],
        };
        assert(statement.deep_view().binds =~= seq![BindView::Uuid(*workspace_id)]);
        statement
    }

    pub fn update_updated_at_of_workspace(
        user_uuid: &Uuid,
        workspace_id: &Uuid,
    ) -> (statement: Statement)
        ensures
            statement.deep_view() == (StatementView {
                sql: UPDATE_UPDATED_AT_OF_WORKSPACE@,
                binds: seq![BindView::Uuid(*user_uuid), BindView::Uuid(*workspace_id)],
            }),
    {
        let statement = Statement {
            sql: UPDATE_UPDATED_AT_OF_WORKSPACE,
            binds: vec![Bind::Uuid(*user_uuid), Bind::Uuid(*workspace_id)],
        };
        assert(statement.deep_view().binds =~= seq![
            BindView::Uuid(*user_uuid),
            BindView::Uuid(*workspace_id),
        ]);
        statement
    }

    pub fn select_all_user_workspaces(user_uuid: &Uuid) -> (statement: Statement)
        ensures
            statement.deep_view() == (StatementView {
                sql: SELECT_ALL_USER_WORKSPACES@,
                binds: seq![BindView::Uuid(*user_uuid)],
            }),
    {
        let statement = Statement {
            sql: SELECT_ALL_USER_WORKSPACES,
            binds: vec![Bind::Uuid(*user_uuid)],
        };
        assert(statement.deep_view().binds =~= seq![BindView::Uuid(*user_uuid)]);
        statement
    }

    pub fn select_permission(permission_id: &i64) -> (statement: Statement)
        ensures
            statement.deep_view() == (StatementView {
                sql: SELECT_PERMISSION@,
                binds: seq![BindView::Int(*permission_id as i32)],
            }),
    {
        let statement = Statement {
            sql: SELECT_PERMISSION,
            binds: vec![Bind::Int(#[verifier::truncate] (*permission_id as i32))],
        };
        assert(statement.deep_view().binds =~= seq![BindView::Int(*permission_id as i32)]);
        statement
    }

    pub fn select_permission_from_role_id(role_id: &i64) -> (statement: Statement)
        ensures
            statement.deep_view() == (StatementView {
                sql: SELECT_PERMISSION_FROM_ROLE_ID@,
                binds: seq![BindView::Int(*role_id as i32)],
            }),
    {
        let statement = Statement {
            sql: SELECT_PERMISSION_FROM_ROLE_ID,
            binds: vec![Bind::Int(#[verifier::truncate] (*role_id as i32))],
        };
        assert(statement.deep_view().binds =~= seq![BindView::Int(*role_id as i32)]);
        statement
    }

    pub fn select_workspace_total_collab_bytes(workspace_id: &Uuid) -> (statement: Statement)
        ensures
            statement.deep_view() == (StatementView {
                sql: SELECT_WORKSPACE_TOTAL_COLLAB_BYTES@,
                binds: seq![BindView::Uuid(*workspace_id)],
            }),
    {
        let statement = Statement {
            sql: SELECT_WORKSPACE_TOTAL_COLLAB_BYTES,
            binds: vec![Bind::Uuid(*workspace_id)],
        };
        assert(statement.deep_view().binds =~= seq![BindView::Uuid(*workspace_id)]);
        statement
    }

    pub fn select_workspace_name_from_workspace_id(workspace_id: &Uuid) -> (statement: Statement)
        ensures
            statement.deep_view() == (StatementView {
                sql: SELECT_WORKSPACE_NAME_FROM_WORKSPACE_ID@,
                binds: seq![BindView::Uuid(*workspace_id)],
            }),
    {
        let statement = Statement {
            sql: SELECT_WORKSPACE_NAME_FROM_WORKSPACE_ID,
            binds: vec![Bind::Uuid(*workspace_id)],
        };
        assert(statement.deep_view().binds =~= seq![BindView::Uuid(*workspace_id)]);
        statement
    }

    pub fn select_workspace_member_count_from_workspace_id(
        workspace_id: &Uuid,
    ) -> (statement: Statement)
        ensures
            statement.deep_view() == (StatementView {
                sql: SELECT_WORKSPACE_MEMBER_COUNT_FROM_WORKSPACE_ID@,
                binds: seq![BindView::Uuid(*workspace_id)],
            }),
    {
        let statement = Statement {
            sql: SELECT_WORKSPACE_MEMBER_COUNT_FROM_WORKSPACE_ID,
            binds: vec![Bind::Uuid(*workspace_id)],
        };
        assert(statement.deep_view().binds =~= seq![BindView::Uuid(*workspace_id)]);
        statement
    }

    pub fn select_workspace_pending_invitations(workspace_id: &Uuid) -> (statement: Statement)
        ensures
            statement.deep_view() == (StatementView {
                sql: SELECT_WORKSPACE_PENDING_INVITATIONS@,
                binds: seq![BindView::Uuid(*workspace_id)],
            }),
    {
        let statement = Statement {
            sql: SELECT_WORKSPACE_PENDING_INVITATIONS,
            binds: vec![Bind::Uuid(*workspace_id)],
        };
        assert(statement.deep_view().binds =~= seq![BindView::Uuid(*workspace_id)]);
        statement
    }

    pub fn is_workspace_exist(workspace_id: &Uuid) -> (statement: Statement)
        ensures
            statement.deep_view() == (StatementView {
                sql: IS_WORKSPACE_EXIST@,
                binds: seq![BindView::Uuid(*workspace_id)],
            }),
    {
        let statement = Statement {
            sql: IS_WORKSPACE_EXIST,
            binds: vec![Bind::Uuid(*workspace_id)],
        };
        assert(statement.deep_view().binds =~= seq![BindView::Uuid(*workspace_id)]);
        statement
    }

    pub fn select_workspace_settings(workspace_id: &Uuid) -> (statement: Statement)
        ensures
            statement.deep_view() == (StatementView {
                sql: SELECT_WORKSPACE_SETTINGS@,
                binds: seq![BindView::Uuid(*workspace_id)],
            }),
    {
        let statement = Statement {
            sql: SELECT_WORKSPACE_SETTINGS,
            binds: vec![Bind::Uuid(*workspace_id)],
        };
        assert(statement.deep_view().binds =~= seq![BindView::Uuid(*workspace_id)]);
        statement
    }

    pub fn upsert_workspace_settings(workspace_id: &Uuid, settings: &Json) -> (statement: Statement)
        ensures
            statement.deep_view() == (StatementView {
                sql: UPSERT_WORKSPACE_SETTINGS@,
                binds: seq![BindView::Json(settings.deep_view()), BindView::Uuid(*workspace_id)],
            }),
    {
        let statement = Statement {
            sql: UPSERT_WORKSPACE_SETTINGS,
            binds: vec![Bind::Json(settings.copy()), Bind::Uuid(*workspace_id)],
        };
        assert(statement.deep_view().binds =~= seq![
            BindView::Json(settings.deep_view()),
            BindView::Uuid(*workspace_id),
        ]);
        statement
    }

    pub fn select_workspace_publish_namespace_exists(
        workspace_id: &Uuid,
        namespace: &str,
    ) -> (statement: Statement)
        ensures
            statement.deep_view() == (StatementView {
                sql: SELECT_WORKSPACE_PUBLISH_NAMESPACE_EXISTS@,
                binds: seq![BindView::Uuid(*workspace_id), BindView::Text(namespace@)],
            }),
    {
        let statement = Statement {
            sql: SELECT_WORKSPACE_PUBLISH_NAMESPACE_EXISTS,
            binds: vec![Bind::Uuid(*workspace_id), Bind::Text(namespace.to_owned())],
        };
        assert(statement.deep_view().binds =~= seq![
            BindView::Uuid(*workspace_id),
            BindView::Text(namespace@),
        ]);
        statement
    }

    pub fn update_workspace_publish_namespace(
        workspace_id: &Uuid,
        new_namespace: &str,
    ) -> (statement: Statement)
        ensures
            statement.deep_view() == (StatementView {
                sql: UPDATE_WORKSPACE_PUBLISH_NAMESPACE@,
                binds: seq![BindView::Text(new_namespace@), BindView::Uuid(*workspace_id)],
            }),
    {
        let statement = Statement {
            sql: UPDATE_WORKSPACE_PUBLISH_NAMESPACE,
            binds: vec![Bind::Text(new_namespace.to_owned()), Bind::Uuid(*workspace_id)],
        };
        assert(statement.deep_view().binds =~= seq![
            BindView::Text(new_namespace@),
            BindView::Uuid(*workspace_id),
        ]);
        statement
    }

    pub fn select_workspace_publish_namespace(workspace_id: &Uuid) -> (statement: Statement)
        ensures
            statement.deep_view() == (StatementView {
                sql: SELECT_WORKSPACE_PUBLISH_NAMESPACE@,
                binds: seq![BindView::Uuid(*workspace_id)],
            }),
    {
        let statement = Statement {
            sql: SELECT_WORKSPACE_PUBLISH_NAMESPACE,
            binds: vec![Bind::Uuid(*workspace_id)],
        };
        assert(statement.deep_view().binds =~= seq![BindView::Uuid(*workspace_id)]);
        statement
    }

    /// The columns of the rows to publish as one array each, and the number of rows.
    pub fn insert_or_replace_publish_collab_metas(
        workspace_id: &Uuid,
        publisher_uuid: &Uuid,
        publish_item: &[PublishCollabItem],
    ) -> (statement: Statement)
        ensures
            statement.deep_view() == (StatementView {
                sql: INSERT_OR_REPLACE_PUBLISH_COLLAB_METAS@,
                binds: seq![
                    BindView::Uuid(*workspace_id),
                    BindView::Uuids(view_ids_of(publish_item.deep_view())),
                    BindView::Texts(publish_names_of(publish_item.deep_view())),
                    BindView::Uuid(*publisher_uuid),
                    BindView::Jsons(metadatas_of(publish_item.deep_view())),
                    BindView::Blobs(blobs_of(publish_item.deep_view())),
                    BindView::Int(publish_item.len() as i32),
                ],
            }),
    {
        let ghost items = publish_item.deep_view();
        let mut view_ids: Vec<Uuid> = Vec::new();
        let mut publish_names: Vec<String> = Vec::new();
        let mut metadatas: Vec<Json> = Vec::new();
        let mut blobs: Vec<Vec<u8>> = Vec::new();
        let mut i: usize = 0;
        while i < publish_item.len()
            invariant
                i <= publish_item.len(),
                items == publish_item.deep_view(),
                view_ids.deep_view() =~= view_ids_of(items.take(i as int)),
                publish_names.deep_view() =~= publish_names_of(items.take(i as int)),
                metadatas.deep_view() =~= metadatas_of(items.take(i as int)),
                blobs.deep_view() =~= blobs_of(items.take(i as int)),
            decreases publish_item.len() - i,
        {
            let item = &publish_item[i];
            assert(items[i as int] == item.deep_view());
            assert(items.take(i + 1) =~= items.take(i as int).push(item.deep_view()));
            let ghost ids = view_ids.deep_view();
            let ghost names = publish_names.deep_view();
            let ghost metas = metadatas.deep_view();
            let ghost datas = blobs.deep_view();
            view_ids.push(item.meta.view_id);
            publish_names.push(item.meta.publish_name.clone());
            metadatas.push(item.meta.metadata.copy());
            let blob = copy_bytes(&item.data);
            assert(blob.deep_view() =~= blob@);
            blobs.push(blob);
            assert(view_ids.deep_view() =~= ids.push(items[i as int].view_id));
            assert(publish_names.deep_view() =~= names.push(items[i as int].publish_name));
            assert(metadatas.deep_view() =~= metas.push(items[i as int].metadata));
            assert(blobs.deep_view() =~= datas.push(items[i as int].data));
            i = i + 1;
        }
        assert(items.take(i as int) =~= items);
        assert(view_ids@ =~= view_ids.deep_view());
        let statement = Statement {
            sql: INSERT_OR_REPLACE_PUBLISH_COLLAB_METAS,
            binds: vec![
                Bind::Uuid(*workspace_id),
                Bind::Uuids(view_ids),
                Bind::Texts(publish_names),
                Bind::Uuid(*publisher_uuid),
                Bind::Jsons(metadatas),
                Bind::Blobs(blobs),
                Bind::Int(
                    #[verifier::truncate]
                    (publish_item.len() as i32),
                ),
            ],
        };
        assert(statement.deep_view().binds =~= seq![
            BindView::Uuid(*workspace_id),
            BindView::Uuids(view_ids_of(items)),
            BindView::Texts(publish_names_of(items)),
            BindView::Uuid(*publisher_uuid),
            BindView::Jsons(metadatas_of(items)),
            BindView::Blobs(blobs_of(items)),
            BindView::Int(publish_item.len() as i32),
        ]);
        statement
    }

    pub fn select_publish_collab_meta(
        publish_namespace: &str,
        publish_name: &str,
    ) -> (statement: Statement)
        ensures
            statement.deep_view() == (StatementView {
                sql: SELECT_PUBLISH_COLLAB_META@,
                binds: seq![BindView::Text(publish_namespace@), BindView::Text(publish_name@)],
            }),
    {
        let statement = Statement {
            sql: SELECT_PUBLISH_COLLAB_META,
            binds: vec![
                Bind::Text(publish_namespace.to_owned()),
                Bind::Text(publish_name.to_owned()),
            ],
        };
        assert(statement.deep_view().binds =~= seq![
            BindView::Text(publish_namespace@),
            BindView::Text(publish_name@),
        ]);
        statement
    }

    pub fn delete_published_collabs(
        workspace_id: &Uuid,
        view_ids: &[Uuid],
    ) -> (statement: Statement)
        ensures
            statement.deep_view() == (StatementView {
                sql: DELETE_PUBLISHED_COLLABS@,
                binds: seq![BindView::Uuid(*workspace_id), BindView::Uuids(view_ids@)],
            }),
    {
        let statement = Statement {
            sql: DELETE_PUBLISHED_COLLABS,
            binds: vec![Bind::Uuid(*workspace_id), Bind::Uuids(copy_ids(view_ids))],
        };
        assert(statement.deep_view().binds =~= seq![
            BindView::Uuid(*workspace_id),
            BindView::Uuids(view_ids@),
        ]);
        statement
    }

    pub fn select_published_collab_blob(
        publish_namespace: &str,
        publish_name: &str,
    ) -> (statement: Statement)
        ensures
            statement.deep_view() == (StatementView {
                sql: SELECT_PUBLISHED_COLLAB_BLOB@,
                binds: seq![BindView::Text(publish_namespace@), BindView::Text(publish_name@)],
            }),
    {
        let statement = Statement {
            sql: SELECT_PUBLISHED_COLLAB_BLOB,
            binds: vec![
                Bind::Text(publish_namespace.to_owned()),
                Bind::Text(publish_name.to_owned()),
            ],
        };
        assert(statement.deep_view().binds =~= seq![
            BindView::Text(publish_namespace@),
            BindView::Text(publish_name@),
        ]);
        statement
    }

    pub fn select_published_collab_info(view_id: &Uuid) -> (statement: Statement)
        ensures
            statement.deep_view() == (StatementView {
                sql: SELECT_PUBLISHED_COLLAB_INFO@,
                binds: seq![BindView::Uuid(*view_id)],
            }),
    {
        let statement = Statement {
            sql: SELECT_PUBLISHED_COLLAB_INFO,
            binds: vec![Bind::Uuid(*view_id)],
        };
        assert(statement.deep_view().binds =~= seq![BindView::Uuid(*view_id)]);
        statement
    }
}

} // verus!
