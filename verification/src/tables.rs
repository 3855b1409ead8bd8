//! The tables, held in memory.
//!
//! A column is optional where the operations hand out an optional value of it or leave it to the
//! database to fill.

use vstd::prelude::*;

use crate::error::{AppError, AppErrorView, DbError, seen};
use crate::id::Uuid;
use crate::json::Json;
use crate::relation::{column, one_where, plain, scalar};

verus! {

broadcast use vstd::seq_lib::group_filter_ensures;

/// A row of `af_user`.
#[derive(Debug, PartialEq)]
pub struct UserRecord {
    pub uid: i64,
    pub uuid: Uuid,
    pub email: String,
    pub name: String,
}

/// [`UserRecord`] with its texts as sequences.
pub struct UserRecordView {
    pub uid: i64,
    pub uuid: Uuid,
    pub email: Seq<char>,
    pub name: Seq<char>,
}

impl DeepView for UserRecord {
    type V = UserRecordView;

    open spec fn deep_view(&self) -> UserRecordView {
        UserRecordView {
            uid: self.uid,
            uuid: self.uuid,
            email: self.email@,
            name: self.name@,
        }
    }
}

/// A row of `af_workspace`. Times are in microseconds since the start of 1970.
#[derive(Debug, PartialEq)]
pub struct WorkspaceRecord {
    pub workspace_id: Uuid,
    pub database_storage_id: Option<Uuid>,
    pub owner_uid: Option<i64>,
    pub created_at: Option<i64>,
    pub workspace_type: i32,
    pub deleted_at: Option<i64>,
    pub workspace_name: Option<String>,
    pub icon: Option<String>,
    pub settings: Option<Json>,
    pub publish_namespace: Option<String>,
}

/// [`WorkspaceRecord`] with its texts as sequences.
pub struct WorkspaceRecordView {
    pub workspace_id: Uuid,
    pub database_storage_id: Option<Uuid>,
    pub owner_uid: Option<i64>,
    pub created_at: Option<i64>,
    pub workspace_type: i32,
    pub deleted_at: Option<i64>,
    pub workspace_name: Option<Seq<char>>,
    pub icon: Option<Seq<char>>,
    pub settings: Option<serde_json::Value>,
    pub publish_namespace: Option<Seq<char>>,
}

impl DeepView for WorkspaceRecord {
    type V = WorkspaceRecordView;

    open spec fn deep_view(&self) -> WorkspaceRecordView {
        WorkspaceRecordView {
            workspace_id: self.workspace_id,
            database_storage_id: self.database_storage_id,
            owner_uid: self.owner_uid,
            created_at: self.created_at,
            workspace_type: self.workspace_type,
            deleted_at: self.deleted_at,
            workspace_name: self.workspace_name.deep_view(),
            icon: self.icon.deep_view(),
            settings: self.settings.deep_view(),
            publish_namespace: self.publish_namespace.deep_view(),
        }
    }
}

/// A row of `af_workspace_member`.
#[derive(Clone, Copy, Debug, PartialEq)]
pub struct MemberRecord {
    pub workspace_id: Uuid,
    pub uid: i64,
    pub role_id: i32,
    pub created_at: i64,
    pub updated_at: i64,
}

impl DeepView for MemberRecord {
    type V = MemberRecord;

    open spec fn deep_view(&self) -> MemberRecord {
        *self
    }
}

/// A row of `af_roles`.
#[derive(Debug, PartialEq)]
pub struct RoleRecord {
    pub id: i32,
    pub name: String,
}

/// [`RoleRecord`] with its texts as sequences.
pub struct RoleRecordView {
    pub id: i32,
    pub name: Seq<char>,
}

impl DeepView for RoleRecord {
    type V = RoleRecordView;

    open spec fn deep_view(&self) -> RoleRecordView {
        RoleRecordView {
            id: self.id,
            name: self.name@,
        }
    }
}

/// A row of `af_permissions`, which is also what is handed out of it.
#[derive(Debug, PartialEq)]
pub struct AFPermissionRow {
    pub id: i32,
    pub name: String,
    pub access_level: i32,
    pub description: Option<String>,
}

/// [`AFPermissionRow`] with its texts as sequences.
pub struct AFPermissionRowView {
    pub id: i32,
    pub name: Seq<char>,
    pub access_level: i32,
    pub description: Option<Seq<char>>,
}

impl DeepView for AFPermissionRow {
    type V = AFPermissionRowView;

    open spec fn deep_view(&self) -> AFPermissionRowView {
        AFPermissionRowView {
            id: self.id,
            name: self.name@,
            access_level: self.access_level,
            description: self.description.deep_view(),
        }
    }
}

/// A row of `af_role_permissions`.
#[derive(Clone, Copy, Debug, PartialEq)]
pub struct RolePermissionRecord {
    pub role_id: i32,
    pub permission_id: i32,
}

impl DeepView for RolePermissionRecord {
    type V = RolePermissionRecord;

    open spec fn deep_view(&self) -> RolePermissionRecord {
        *self
    }
}

/// A row of `af_collab_member`.
#[derive(Debug, PartialEq)]
pub struct CollabMemberRecord {
    pub uid: i64,
    pub oid: String,
    pub permission_id: i32,
}

/// [`CollabMemberRecord`] with its texts as sequences.
pub struct CollabMemberRecordView {
    pub uid: i64,
    pub oid: Seq<char>,
    pub permission_id: i32,
}

impl DeepView for CollabMemberRecord {
    type V = CollabMemberRecordView;

    open spec fn deep_view(&self) -> CollabMemberRecordView {
        CollabMemberRecordView {
            uid: self.uid,
            oid: self.oid@,
            permission_id: self.permission_id,
        }
    }
}

/// A row of `af_collab`.
#[derive(Clone, Copy, Debug, PartialEq)]
pub struct CollabRecord {
    pub workspace_id: Uuid,
    pub len: i32,
}

impl DeepView for CollabRecord {
    type V = CollabRecord;

    open spec fn deep_view(&self) -> CollabRecord {
        *self
    }
}

/// A row of `af_workspace_invitation`.
#[derive(Debug, PartialEq)]
pub struct InvitationRecord {
    pub id: Uuid,
    pub workspace_id: Uuid,
    pub inviter: Option<i64>,
    pub invitee_email: String,
    pub role_id: i32,
    pub status: i16,
    pub updated_at: i64,
}

/// [`InvitationRecord`] with its texts as sequences.
pub struct InvitationRecordView {
    pub id: Uuid,
    pub workspace_id: Uuid,
    pub inviter: Option<i64>,
    pub invitee_email: Seq<char>,
    pub role_id: i32,
    pub status: i16,
    pub updated_at: i64,
}

impl DeepView for InvitationRecord {
    type V = InvitationRecordView;

    open spec fn deep_view(&self) -> InvitationRecordView {
        InvitationRecordView {
            id: self.id,
            workspace_id: self.workspace_id,
            inviter: self.inviter,
            invitee_email: self.invitee_email@,
            role_id: self.role_id,
            status: self.status,
            updated_at: self.updated_at,
        }
    }
}

/// A row of `af_published_collab`.
#[derive(Debug, PartialEq)]
pub struct PublishedRecord {
    pub workspace_id: Uuid,
    pub view_id: Uuid,
    pub publish_name: String,
    pub published_by: Option<i64>,
    pub metadata: Json,
    pub blob: Vec<u8>,
}

/// [`PublishedRecord`] with its texts as sequences.
pub struct PublishedRecordView {
    pub workspace_id: Uuid,
    pub view_id: Uuid,
    pub publish_name: Seq<char>,
    pub published_by: Option<i64>,
    pub metadata: serde_json::Value,
    pub blob: Seq<u8>,
}

impl DeepView for PublishedRecord {
    type V = PublishedRecordView;

    open spec fn deep_view(&self) -> PublishedRecordView {
        PublishedRecordView {
            workspace_id: self.workspace_id,
            view_id: self.view_id,
            publish_name: self.publish_name@,
            published_by: self.published_by,
            metadata: self.metadata.deep_view(),
            blob: self.blob@,
        }
    }
}

/// A row of `af_user_profile_view`: the identifier that it is found by, and its other
/// columns as one record.
#[derive(Debug, PartialEq)]
pub struct AFUserProfileRow {
    pub uuid: Uuid,
    pub record: Json,
}

/// [`AFUserProfileRow`] with its texts as sequences.
pub struct AFUserProfileRowView {
    pub uuid: Uuid,
    pub record: serde_json::Value,
}

impl DeepView for AFUserProfileRow {
    type V = AFUserProfileRowView;

    open spec fn deep_view(&self) -> AFUserProfileRowView {
        AFUserProfileRowView {
            uuid: self.uuid,
            record: self.record.deep_view(),
        }
    }
}

/// The tables.
#[derive(Debug, PartialEq)]
pub struct Database {
    pub users: Vec<UserRecord>,
    pub profiles: Vec<AFUserProfileRow>,
    pub workspaces: Vec<WorkspaceRecord>,
    pub members: Vec<MemberRecord>,
    pub roles: Vec<RoleRecord>,
    pub permissions: Vec<AFPermissionRow>,
    pub role_permissions: Vec<RolePermissionRecord>,
    pub collab_members: Vec<CollabMemberRecord>,
    pub collabs: Vec<CollabRecord>,
    pub invitations: Vec<InvitationRecord>,
    pub published: Vec<PublishedRecord>,
}

/// The tables as sequences of rows.
#[verifier::ext_equal]
pub struct Tables {
    pub users: Seq<UserRecordView>,
    pub profiles: Seq<AFUserProfileRowView>,
    pub workspaces: Seq<WorkspaceRecordView>,
    pub members: Seq<MemberRecord>,
    pub roles: Seq<RoleRecordView>,
    pub permissions: Seq<AFPermissionRowView>,
    pub role_permissions: Seq<RolePermissionRecord>,
    pub collab_members: Seq<CollabMemberRecordView>,
    pub collabs: Seq<CollabRecord>,
    pub invitations: Seq<InvitationRecordView>,
    pub published: Seq<PublishedRecordView>,
}

impl View for Database {
    type V = Tables;

    open spec fn view(&self) -> Tables {
        Tables {
            users: self.users.deep_view(),
            profiles: self.profiles.deep_view(),
            workspaces: self.workspaces.deep_view(),
            members: self.members.deep_view(),
            roles: self.roles.deep_view(),
            permissions: self.permissions.deep_view(),
            role_permissions: self.role_permissions.deep_view(),
            collab_members: self.collab_members.deep_view(),
            collabs: self.collabs.deep_view(),
            invitations: self.invitations.deep_view(),
            published: self.published.deep_view(),
        }
    }
}

pub open spec fn user_has_uuid(uuid: Uuid) -> spec_fn(UserRecordView) -> bool {
    |user: UserRecordView| user.uuid == uuid
}

pub open spec fn user_has_email(email: Seq<char>) -> spec_fn(UserRecordView) -> bool {
    |user: UserRecordView| user.email == email
}

pub open spec fn user_has_uid(uid: Option<i64>) -> spec_fn(UserRecordView) -> bool {
    |user: UserRecordView| Some(user.uid) == uid
}

pub open spec fn workspace_has_id(id: Uuid) -> spec_fn(WorkspaceRecordView) -> bool {
    |workspace: WorkspaceRecordView| workspace.workspace_id == id
}

pub open spec fn workspace_has_namespace(namespace: Seq<char>) -> spec_fn(WorkspaceRecordView) -> bool {
    |workspace: WorkspaceRecordView| workspace.publish_namespace == Some(namespace)
}

impl Tables {
    /// No member stands twice in one workspace, and no view is published twice in one.
    pub open spec fn keys_hold(self) -> bool {
        &&& forall|i: int, j: int|
            #![trigger self.members[i], self.members[j]]
            0 <= i < j < self.members.len() ==> !(self.members[i].workspace_id
                == self.members[j].workspace_id && self.members[i].uid == self.members[j].uid)
        &&& forall|i: int, j: int|
            #![trigger self.published[i], self.published[j]]
            0 <= i < j < self.published.len() ==> !(self.published[i].workspace_id
                == self.published[j].workspace_id && self.published[i].view_id
                == self.published[j].view_id)
    }

    /// `SELECT uid FROM af_user WHERE uuid = ..`
    pub open spec fn uid_by_uuid(self, uuid: Uuid) -> Result<Option<i64>, DbError> {
        column(scalar(self.users.filter(user_has_uuid(uuid))), |user: UserRecordView| Some(user.uid))
    }

    /// `SELECT email FROM af_user WHERE uuid = ..`
    pub open spec fn email_by_uuid(self, uuid: Uuid) -> Result<Option<Seq<char>>, DbError> {
        column(scalar(self.users.filter(user_has_uuid(uuid))), |user: UserRecordView| Some(user.email))
    }

    /// `SELECT uid FROM af_user WHERE email = ..`
    pub open spec fn uid_by_email(self, email: Seq<char>) -> Result<Option<i64>, DbError> {
        column(scalar(self.users.filter(user_has_email(email))), |user: UserRecordView| Some(user.uid))
    }

    /// `SELECT name FROM af_user WHERE uid = ..`
    pub open spec fn name_by_uid(self, uid: Option<i64>) -> Result<Option<Seq<char>>, DbError> {
        column(scalar(self.users.filter(user_has_uid(uid))), |user: UserRecordView| Some(user.name))
    }

    /// `SELECT email FROM af_user WHERE uid = ..`
    pub open spec fn email_by_uid(self, uid: Option<i64>) -> Result<Option<Seq<char>>, DbError> {
        column(scalar(self.users.filter(user_has_uid(uid))), |user: UserRecordView| Some(user.email))
    }

    /// `SELECT owner_uid FROM af_workspace WHERE workspace_id = ..`
    pub open spec fn owner_by_workspace(self, id: Uuid) -> Result<Option<i64>, DbError> {
        column(
            scalar(self.workspaces.filter(workspace_has_id(id))),
            |workspace: WorkspaceRecordView| workspace.owner_uid,
        )
    }

    /// `SELECT workspace_name FROM af_workspace WHERE workspace_id = ..`
    pub open spec fn name_by_workspace(self, id: Uuid) -> Result<Option<Seq<char>>, DbError> {
        column(
            scalar(self.workspaces.filter(workspace_has_id(id))),
            |workspace: WorkspaceRecordView| workspace.workspace_name,
        )
    }

    /// `SELECT publish_namespace FROM af_workspace WHERE workspace_id = ..`
    pub open spec fn namespace_by_workspace(self, id: Uuid) -> Result<Option<Seq<char>>, DbError> {
        column(
            scalar(self.workspaces.filter(workspace_has_id(id))),
            |workspace: WorkspaceRecordView| workspace.publish_namespace,
        )
    }

    /// `SELECT workspace_id FROM af_workspace WHERE publish_namespace = ..`
    pub open spec fn workspace_by_namespace(self, namespace: Seq<char>) -> Result<
        Option<Uuid>,
        DbError,
    > {
        column(
            scalar(self.workspaces.filter(workspace_has_namespace(namespace))),
            |workspace: WorkspaceRecordView| Some(workspace.workspace_id),
        )
    }
}

/// What a writing operation answers and leaves behind: the tables of `effect`, or its error and the
/// tables as they were.
pub open spec fn wrote(
    result: Result<(), AppError>,
    before: Tables,
    after: Tables,
    effect: Result<Tables, AppErrorView>,
) -> bool {
    match effect {
        Ok(tables) => result is Ok && after == tables,
        Err(error) => seen(result) == Err::<(), AppErrorView>(error) && after == before,
    }
}

/// Whether an optional text is `text`.
pub(crate) fn is_text(optional: &Option<String>, text: &String) -> (same: bool)
    ensures
        same == (optional.deep_view() == Some(text@)),
{
    match optional {
        Some(present) => *present == *text,
        None => false,
    }
}

pub(crate) fn copy_text(optional: &Option<String>) -> (copy: Option<String>)
    ensures
        copy.deep_view() == optional.deep_view(),
{
    match optional {
        Some(text) => Some(text.clone()),
        None => None,
    }
}

pub(crate) fn copy_json(optional: &Option<Json>) -> (copy: Option<Json>)
    ensures
        copy.deep_view() == optional.deep_view(),
{
    match optional {
        Some(json) => Some(json.copy()),
        None => None,
    }
}

/// Whether an optional number is `number`.
pub(crate) fn is_id(optional: Option<i64>, number: i64) -> (same: bool)
    ensures
        same == (Some(number) == optional),
{
    match optional {
        Some(present) => present == number,
        None => false,
    }
}

/// Whether two optional numbers are there and equal.
pub(crate) fn same_id(one: Option<i64>, other: Option<i64>) -> (same: bool)
    ensures
        same == (other is Some && one == other),
{
    match other {
        Some(number) => is_id(one, number),
        None => false,
    }
}

impl Database {
    /// Empty tables.
    pub fn new() -> (db: Database)
        ensures
            db@ == (Tables {
                users: seq![],
                profiles: seq![],
                workspaces: seq![],
                members: seq![],
                roles: seq![],
                permissions: seq![],
                role_permissions: seq![],
                collab_members: seq![],
                collabs: seq![],
                invitations: seq![],
                published: seq![],
            }),
            db@.keys_hold(),
    {
        Database {
            users: Vec::new(),
            profiles: Vec::new(),
            workspaces: Vec::new(),
            members: Vec::new(),
            roles: Vec::new(),
            permissions: Vec::new(),
            role_permissions: Vec::new(),
            collab_members: Vec::new(),
            collabs: Vec::new(),
            invitations: Vec::new(),
            published: Vec::new(),
        }
    }

    pub(crate) fn uid_by_uuid(&self, uuid: &Uuid) -> (found: Result<Option<i64>, DbError>)
        ensures
            found == self@.uid_by_uuid(*uuid),
    {
        let keep = |row: &UserRecord| -> (kept: bool)
            ensures
                kept == user_has_uuid(*uuid)(row.deep_view()),
        { row.uuid == *uuid };
        match one_where(&self.users, keep, Ghost(user_has_uuid(*uuid))) {
            Ok(Some(p)) => Ok(Some(self.users[p].uid)),
            Ok(None) => Ok(None),
            Err(error) => Err(error),
        }
    }

    pub(crate) fn email_by_uuid(&self, uuid: &Uuid) -> (found: Result<Option<String>, DbError>)
        ensures
            plain(found) == self@.email_by_uuid(*uuid),
    {
        let keep = |row: &UserRecord| -> (kept: bool)
            ensures
                kept == user_has_uuid(*uuid)(row.deep_view()),
        { row.uuid == *uuid };
        match one_where(&self.users, keep, Ghost(user_has_uuid(*uuid))) {
            Ok(Some(p)) => Ok(Some(self.users[p].email.clone())),
            Ok(None) => Ok(None),
            Err(error) => Err(error),
        }
    }

    pub(crate) fn uid_by_email(&self, email: &String) -> (found: Result<Option<i64>, DbError>)
        ensures
            found == self@.uid_by_email(email@),
    {
        let keep = |row: &UserRecord| -> (kept: bool)
            ensures
                kept == user_has_email(email@)(row.deep_view()),
        { row.email == *email };
        match one_where(&self.users, keep, Ghost(user_has_email(email@))) {
            Ok(Some(p)) => Ok(Some(self.users[p].uid)),
            Ok(None) => Ok(None),
            Err(error) => Err(error),
        }
    }

    pub(crate) fn name_by_uid(&self, uid: Option<i64>) -> (found: Result<Option<String>, DbError>)
        ensures
            plain(found) == self@.name_by_uid(uid),
    {
        let keep = |row: &UserRecord| -> (kept: bool)
            ensures
                kept == user_has_uid(uid)(row.deep_view()),
        { is_id(uid, row.uid) };
        match one_where(&self.users, keep, Ghost(user_has_uid(uid))) {
            Ok(Some(p)) => Ok(Some(self.users[p].name.clone())),
            Ok(None) => Ok(None),
            Err(error) => Err(error),
        }
    }

    pub(crate) fn email_by_uid(&self, uid: Option<i64>) -> (found: Result<Option<String>, DbError>)
        ensures
            plain(found) == self@.email_by_uid(uid),
    {
        let keep = |row: &UserRecord| -> (kept: bool)
            ensures
                kept == user_has_uid(uid)(row.deep_view()),
        { is_id(uid, row.uid) };
        match one_where(&self.users, keep, Ghost(user_has_uid(uid))) {
            Ok(Some(p)) => Ok(Some(self.users[p].email.clone())),
            Ok(None) => Ok(None),
            Err(error) => Err(error),
        }
    }

    pub(crate) fn owner_by_workspace(&self, id: &Uuid) -> (found: Result<Option<i64>, DbError>)
        ensures
            found == self@.owner_by_workspace(*id),
    {
        let keep = |row: &WorkspaceRecord| -> (kept: bool)
            ensures
                kept == workspace_has_id(*id)(row.deep_view()),
        { row.workspace_id == *id };
        match one_where(&self.workspaces, keep, Ghost(workspace_has_id(*id))) {
            Ok(Some(p)) => Ok(self.workspaces[p].owner_uid),
            Ok(None) => Ok(None),
            Err(error) => Err(error),
        }
    }

    pub(crate) fn name_by_workspace(&self, id: &Uuid) -> (found: Result<Option<String>, DbError>)
        ensures
            plain(found) == self@.name_by_workspace(*id),
    {
        let keep = |row: &WorkspaceRecord| -> (kept: bool)
            ensures
                kept == workspace_has_id(*id)(row.deep_view()),
        { row.workspace_id == *id };
        match one_where(&self.workspaces, keep, Ghost(workspace_has_id(*id))) {
            Ok(Some(p)) => Ok(copy_text(&self.workspaces[p].workspace_name)),
            Ok(None) => Ok(None),
            Err(error) => Err(error),
        }
    }

    pub(crate) fn namespace_by_workspace(&self, id: &Uuid) -> (found: Result<Option<String>, DbError>)
        ensures
            plain(found) == self@.namespace_by_workspace(*id),
    {
        let keep = |row: &WorkspaceRecord| -> (kept: bool)
            ensures
                kept == workspace_has_id(*id)(row.deep_view()),
        { row.workspace_id == *id };
        match one_where(&self.workspaces, keep, Ghost(workspace_has_id(*id))) {
            Ok(Some(p)) => Ok(copy_text(&self.workspaces[p].publish_namespace)),
            Ok(None) => Ok(None),
            Err(error) => Err(error),
        }
    }

    pub(crate) fn workspace_by_namespace(&self, namespace: &String) -> (found: Result<Option<Uuid>, DbError>)
        ensures
            found == self@.workspace_by_namespace(namespace@),
    {
        let keep = |row: &WorkspaceRecord| -> (kept: bool)
            ensures
                kept == workspace_has_namespace(namespace@)(row.deep_view()),
        { is_text(&row.publish_namespace, namespace) };
        match one_where(&self.workspaces, keep, Ghost(workspace_has_namespace(namespace@))) {
            Ok(Some(p)) => Ok(Some(self.workspaces[p].workspace_id)),
            Ok(None) => Ok(None),
            Err(error) => Err(error),
        }
    }
}

} // verus!
