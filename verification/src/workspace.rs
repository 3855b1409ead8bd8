//! Workspaces.

use vstd::prelude::*;

use crate::error::{AppError, AppErrorView, DbError, handed_on, seen};
use crate::id::Uuid;
use crate::json::Json;
use crate::outcome;
use crate::outcome::total_bytes;
use crate::relation::{
    any_where, changed, delete_where, each, each_pair, each_row, fetch_all, fetch_one,
    fetch_optional, first_if_any, first_of, join, joined, lemma_each_map, plain, positions,
    then_make, update_where, without,
};
use crate::tables::{
    AFUserProfileRow, AFUserProfileRowView, CollabRecord, Database, MemberRecord, Tables,
    WorkspaceRecord, WorkspaceRecordView, copy_json, copy_text, is_id, is_text, workspace_has_id,
    wrote,
};

verus! {

/// A workspace with the name of its owner.
#[derive(Debug, PartialEq)]
pub struct AFWorkspaceRow {
    pub workspace_id: Uuid,
    pub database_storage_id: Option<Uuid>,
    pub owner_uid: Option<i64>,
    pub owner_name: Option<String>,
    pub created_at: Option<i64>,
    pub workspace_type: i32,
    pub deleted_at: Option<i64>,
    pub workspace_name: Option<String>,
    pub icon: Option<String>,
}

/// [`AFWorkspaceRow`] with its texts as sequences.
pub struct AFWorkspaceRowView {
    pub workspace_id: Uuid,
    pub database_storage_id: Option<Uuid>,
    pub owner_uid: Option<i64>,
    pub owner_name: Option<Seq<char>>,
    pub created_at: Option<i64>,
    pub workspace_type: i32,
    pub deleted_at: Option<i64>,
    pub workspace_name: Option<Seq<char>>,
    pub icon: Option<Seq<char>>,
}

impl DeepView for AFWorkspaceRow {
    type V = AFWorkspaceRowView;

    open spec fn deep_view(&self) -> AFWorkspaceRowView {
        AFWorkspaceRowView {
            workspace_id: self.workspace_id,
            database_storage_id: self.database_storage_id,
            owner_uid: self.owner_uid,
            owner_name: self.owner_name.deep_view(),
            created_at: self.created_at,
            workspace_type: self.workspace_type,
            deleted_at: self.deleted_at,
            workspace_name: self.workspace_name.deep_view(),
            icon: self.icon.deep_view(),
        }
    }
}

/// What is handed out of a workspace.
pub open spec fn workspace_row(tables: Tables) -> spec_fn(WorkspaceRecordView) -> Result<
    AFWorkspaceRowView,
    DbError,
> {
    |workspace: WorkspaceRecordView|
        then_make(
            tables.name_by_uid(workspace.owner_uid),
            |owner_name: Option<Seq<char>>|
                AFWorkspaceRowView {
                    workspace_id: workspace.workspace_id,
                    database_storage_id: workspace.database_storage_id,
                    owner_uid: workspace.owner_uid,
                    owner_name,
                    created_at: workspace.created_at,
                    workspace_type: workspace.workspace_type,
                    deleted_at: workspace.deleted_at,
                    workspace_name: workspace.workspace_name,
                    icon: workspace.icon,
                },
        )
}

fn make_row(db: &Database, workspace: &WorkspaceRecord) -> (made: Result<AFWorkspaceRow, DbError>)
    ensures
        plain(made) == workspace_row(db@)(workspace.deep_view()),
{
    match db.name_by_uid(workspace.owner_uid) {
        Ok(owner_name) => Ok(
            AFWorkspaceRow {
                workspace_id: workspace.workspace_id,
                database_storage_id: workspace.database_storage_id,
                owner_uid: workspace.owner_uid,
                owner_name,
                created_at: workspace.created_at,
                workspace_type: workspace.workspace_type,
                deleted_at: workspace.deleted_at,
                workspace_name: copy_text(&workspace.workspace_name),
                icon: copy_text(&workspace.icon),
            },
        ),
        Err(error) => Err(error),
    }
}

/// What the database fills in for a new workspace.
#[derive(Debug, PartialEq)]
pub struct WorkspaceDefaults {
    pub workspace_id: Uuid,
    pub database_storage_id: Option<Uuid>,
    pub created_at: Option<i64>,
    pub workspace_type: i32,
    pub deleted_at: Option<i64>,
    pub icon: Option<String>,
    pub settings: Option<Json>,
    pub publish_namespace: Option<String>,
}

/// The new workspace of the user `owner_uid`.
pub open spec fn new_workspace(
    owner_uid: Option<i64>,
    workspace_name: Seq<char>,
    defaults: WorkspaceDefaults,
) -> WorkspaceRecordView {
    WorkspaceRecordView {
        workspace_id: defaults.workspace_id,
        database_storage_id: defaults.database_storage_id,
        owner_uid,
        created_at: defaults.created_at,
        workspace_type: defaults.workspace_type,
        deleted_at: defaults.deleted_at,
        workspace_name: Some(workspace_name),
        icon: defaults.icon.deep_view(),
        settings: defaults.settings.deep_view(),
        publish_namespace: defaults.publish_namespace.deep_view(),
    }
}

/// What making a workspace for a user adds and hands out.
pub open spec fn inserting(
    tables: Tables,
    user_uuid: Uuid,
    workspace_name: Seq<char>,
    defaults: WorkspaceDefaults,
) -> Result<(WorkspaceRecordView, AFWorkspaceRowView), DbError> {
    match tables.uid_by_uuid(user_uuid) {
        Ok(owner_uid) => {
            let workspace = new_workspace(owner_uid, workspace_name, defaults);
            match workspace_row(tables)(workspace) {
                Ok(row) => Ok((workspace, row)),
                Err(error) => Err(error),
            }
        },
        Err(error) => Err(error),
    }
}

/// Makes a workspace that the user owns.
pub fn insert_user_workspace(
    db: &mut Database,
    user_uuid: &Uuid,
    workspace_name: &str,
    defaults: WorkspaceDefaults,
) -> (result: Result<AFWorkspaceRow, AppError>)
    ensures
        match inserting(old(db)@, *user_uuid, workspace_name@, defaults) {
            Ok((workspace, row)) => {
                &&& seen(result) == Ok::<AFWorkspaceRowView, AppErrorView>(row)
                &&& final(db)@ == (Tables {
                    workspaces: old(db)@.workspaces.push(workspace),
                    ..old(db)@
                })
            },
            Err(error) => {
                &&& seen(result) == Err::<AFWorkspaceRowView, AppErrorView>(
                    AppErrorView::Database(error),
                )
                &&& final(db)@ == old(db)@
            },
        },
{
    let ghost before = db@;
    let owner_uid: Option<i64> = match db.uid_by_uuid(user_uuid) {
        Ok(owner_uid) => owner_uid,
        Err(error) => {
            return Err(AppError::Database(error));
        },
    };
    let workspace = WorkspaceRecord {
        workspace_id: defaults.workspace_id,
        database_storage_id: defaults.database_storage_id,
        owner_uid,
        created_at: defaults.created_at,
        workspace_type: defaults.workspace_type,
        deleted_at: defaults.deleted_at,
        workspace_name: Some(workspace_name.to_owned()),
        icon: defaults.icon,
        settings: defaults.settings,
        publish_namespace: defaults.publish_namespace,
    };
    let ghost record = workspace.deep_view();
    assert(record == new_workspace(owner_uid, workspace_name@, defaults));
    match make_row(db, &workspace) {
        Ok(row) => {
            db.workspaces.push(workspace);
            assert(db@.workspaces =~= before.workspaces.push(record));
            assert(db@ =~= (Tables { workspaces: before.workspaces.push(record), ..before }));
            Ok(row)
        },
        Err(error) => Err(AppError::Database(error)),
    }
}

/// The tables without the workspace.
pub open spec fn without_workspace(tables: Tables, workspace_id: Uuid) -> Tables {
    Tables { workspaces: without(tables.workspaces, workspace_has_id(workspace_id)), ..tables }
}

/// Deletes the one workspace with the identifier.
pub fn delete_from_workspace(db: &mut Database, workspace_id: &Uuid) -> (result: Result<
    (),
    AppError,
>)
    requires
        old(db)@.workspaces.filter(workspace_has_id(*workspace_id)).len() == 1,
    ensures
        wrote(result, old(db)@, final(db)@, Ok(without_workspace(old(db)@, *workspace_id))),
{
    let drop = |workspace: &WorkspaceRecord| -> (dropped: bool)
        ensures
            dropped == workspace_has_id(*workspace_id)(workspace.deep_view()),
    { workspace.workspace_id == *workspace_id };
    delete_where(&mut db.workspaces, drop, Ghost(workspace_has_id(*workspace_id)));
    Ok(())
}

impl WorkspaceRecord {
    fn copy(&self) -> (copy: WorkspaceRecord)
        ensures
            copy.deep_view() == self.deep_view(),
    {
        WorkspaceRecord {
            workspace_id: self.workspace_id,
            database_storage_id: self.database_storage_id,
            owner_uid: self.owner_uid,
            created_at: self.created_at,
            workspace_type: self.workspace_type,
            deleted_at: self.deleted_at,
            workspace_name: copy_text(&self.workspace_name),
            icon: copy_text(&self.icon),
            settings: copy_json(&self.settings),
            publish_namespace: copy_text(&self.publish_namespace),
        }
    }
}

/// Makes `change` to the workspace with the identifier.
fn change_workspace<C: Fn(&WorkspaceRecord) -> WorkspaceRecord>(
    db: &mut Database,
    workspace_id: &Uuid,
    change: C,
    Ghost(new_row): Ghost<spec_fn(WorkspaceRecordView) -> WorkspaceRecordView>,
)
    requires
        forall|row: &WorkspaceRecord| call_requires(change, (row,)),
        forall|row: &WorkspaceRecord, made: WorkspaceRecord|
            call_ensures(change, (row,), made) ==> made.deep_view() == new_row(row.deep_view()),
    ensures
        final(db)@ == with_workspace(old(db)@, *workspace_id, new_row),
{
    let keep = |workspace: &WorkspaceRecord| -> (kept: bool)
        ensures
            kept == workspace_has_id(*workspace_id)(workspace.deep_view()),
    { workspace.workspace_id == *workspace_id };
    update_where(
        &mut db.workspaces,
        keep,
        change,
        Ghost(workspace_has_id(*workspace_id)),
        Ghost(new_row),
    );
}

/// The tables with `new_row` made of the workspace with the identifier.
pub open spec fn with_workspace(
    tables: Tables,
    workspace_id: Uuid,
    new_row: spec_fn(WorkspaceRecordView) -> WorkspaceRecordView,
) -> Tables {
    Tables {
        workspaces: changed(tables.workspaces, workspace_has_id(workspace_id), new_row),
        ..tables
    }
}

pub open spec fn with_name(name: Seq<char>) -> spec_fn(WorkspaceRecordView) -> WorkspaceRecordView {
    |workspace: WorkspaceRecordView|
        WorkspaceRecordView { workspace_name: Some(name), ..workspace }
}

pub open spec fn with_icon(icon: Seq<char>) -> spec_fn(WorkspaceRecordView) -> WorkspaceRecordView {
    |workspace: WorkspaceRecordView| WorkspaceRecordView { icon: Some(icon), ..workspace }
}

pub open spec fn with_settings(settings: serde_json::Value) -> spec_fn(
    WorkspaceRecordView,
) -> WorkspaceRecordView {
    |workspace: WorkspaceRecordView| WorkspaceRecordView { settings: Some(settings), ..workspace }
}

pub open spec fn with_namespace(namespace: Seq<char>) -> spec_fn(
    WorkspaceRecordView,
) -> WorkspaceRecordView {
    |workspace: WorkspaceRecordView|
        WorkspaceRecordView { publish_namespace: Some(namespace), ..workspace }
}

/// Names the workspace.
pub fn rename_workspace(
    db: &mut Database,
    workspace_id: &Uuid,
    new_workspace_name: &str,
) -> (result: Result<(), AppError>)
    ensures
        wrote(
            result,
            old(db)@,
            final(db)@,
            Ok(with_workspace(old(db)@, *workspace_id, with_name(new_workspace_name@))),
        ),
{
    let change = |workspace: &WorkspaceRecord| -> (made: WorkspaceRecord)
        ensures
            made.deep_view() == with_name(new_workspace_name@)(workspace.deep_view()),
    {
        WorkspaceRecord {
            workspace_name: Some(new_workspace_name.to_owned()),
            ..workspace.copy()
        }
    };
    change_workspace(db, workspace_id, change, Ghost(with_name(new_workspace_name@)));
    Ok(())
}

/// Gives the workspace an icon.
pub fn change_workspace_icon(db: &mut Database, workspace_id: &Uuid, icon: &str) -> (result: Result<
    (),
    AppError,
>)
    ensures
        wrote(
            result,
            old(db)@,
            final(db)@,
            Ok(with_workspace(old(db)@, *workspace_id, with_icon(icon@))),
        ),
{
    let change = |workspace: &WorkspaceRecord| -> (made: WorkspaceRecord)
        ensures
            made.deep_view() == with_icon(icon@)(workspace.deep_view()),
    { WorkspaceRecord { icon: Some(icon.to_owned()), ..workspace.copy() } };
    change_workspace(db, workspace_id, change, Ghost(with_icon(icon@)));
    Ok(())
}

/// Stores the settings of the workspace.
pub fn upsert_workspace_settings(
    db: &mut Database,
    workspace_id: &Uuid,
    settings: &Json,
) -> (result: Result<(), AppError>)
    ensures
        wrote(
            result,
            old(db)@,
            final(db)@,
            Ok(with_workspace(old(db)@, *workspace_id, with_settings(settings.deep_view()))),
        ),
{
    let change = |workspace: &WorkspaceRecord| -> (made: WorkspaceRecord)
        ensures
            made.deep_view() == with_settings(settings.deep_view())(workspace.deep_view()),
    { WorkspaceRecord { settings: Some(settings.copy()), ..workspace.copy() } };
    change_workspace(db, workspace_id, change, Ghost(with_settings(settings.deep_view())));
    Ok(())
}

/// Gives the workspace a namespace to publish under.
pub fn update_workspace_publish_namespace(
    db: &mut Database,
    workspace_id: &Uuid,
    new_namespace: &str,
) -> (result: Result<(), AppError>)
    ensures
        wrote(
            result,
            old(db)@,
            final(db)@,
            Ok(with_workspace(old(db)@, *workspace_id, with_namespace(new_namespace@))),
        ),
{
    let change = |workspace: &WorkspaceRecord| -> (made: WorkspaceRecord)
        ensures
            made.deep_view() == with_namespace(new_namespace@)(workspace.deep_view()),
    {
        WorkspaceRecord {
            publish_namespace: Some(new_namespace.to_owned()),
            ..workspace.copy()
        }
    };
    change_workspace(db, workspace_id, change, Ghost(with_namespace(new_namespace@)));
    Ok(())
}

/// The workspace as it is handed out.
pub open spec fn workspace_found(tables: Tables, workspace_id: Uuid) -> Result<
    AFWorkspaceRowView,
    DbError,
> {
    first_of(
        each(tables.workspaces.filter(workspace_has_id(workspace_id)), workspace_row(tables)),
    )
}

/// A workspace.
pub fn select_workspace(db: &Database, workspace_id: &Uuid) -> (result: Result<
    AFWorkspaceRow,
    AppError,
>)
    ensures
        seen(result) == handed_on(workspace_found(db@, *workspace_id)),
{
    let keep = |workspace: &WorkspaceRecord| -> (kept: bool)
        ensures
            kept == workspace_has_id(*workspace_id)(workspace.deep_view()),
    { workspace.workspace_id == *workspace_id };
    let found = positions(&db.workspaces, keep, Ghost(workspace_has_id(*workspace_id)));
    let make = |workspace: &WorkspaceRecord| -> (made: Result<AFWorkspaceRow, DbError>)
        ensures
            plain(made) == workspace_row(db@)(workspace.deep_view()),
    { make_row(db, workspace) };
    fetch_one(each_row(&db.workspaces, &found, make, Ghost(workspace_row(db@))))
}

pub open spec fn has_member(uid: Option<i64>) -> spec_fn(WorkspaceRecordView, MemberRecord) -> bool {
    |workspace: WorkspaceRecordView, member: MemberRecord|
        workspace.workspace_id == member.workspace_id && Some(member.uid) == uid
}

pub open spec fn joined_workspace_row(tables: Tables) -> spec_fn(
    (WorkspaceRecordView, MemberRecord),
) -> Result<AFWorkspaceRowView, DbError> {
    |pair: (WorkspaceRecordView, MemberRecord)| workspace_row(tables)(pair.0)
}

/// The workspaces of a user as they are handed out.
pub open spec fn workspaces_of(tables: Tables, user_uuid: Uuid) -> Result<
    Seq<AFWorkspaceRowView>,
    DbError,
> {
    match tables.uid_by_uuid(user_uuid) {
        Ok(uid) => each(
            join(tables.workspaces, tables.members, has_member(uid)),
            joined_workspace_row(tables),
        ),
        Err(error) => Err(error),
    }
}

/// The workspaces that the user is a member of, as their owner or not.
pub fn select_all_user_workspaces(db: &Database, user_uuid: &Uuid) -> (result: Result<
    Vec<AFWorkspaceRow>,
    AppError,
>)
    ensures
        seen(result) == handed_on(workspaces_of(db@, *user_uuid)),
{
    let uid: Option<i64> = match db.uid_by_uuid(user_uuid) {
        Ok(uid) => uid,
        Err(error) => {
            return Err(AppError::Database(error));
        },
    };
    let on = |workspace: &WorkspaceRecord, member: &MemberRecord| -> (kept: bool)
        ensures
            kept == has_member(uid)(workspace.deep_view(), member.deep_view()),
    { workspace.workspace_id == member.workspace_id && is_id(uid, member.uid) };
    let found = joined(&db.workspaces, &db.members, on, Ghost(has_member(uid)));
    let make = |workspace: &WorkspaceRecord, member: &MemberRecord| -> (made: Result<
        AFWorkspaceRow,
        DbError,
    >)
        ensures
            plain(made) == joined_workspace_row(db@)((workspace.deep_view(), member.deep_view())),
    { make_row(db, workspace) };
    fetch_all(
        each_pair(&db.workspaces, &db.members, &found, make, Ghost(joined_workspace_row(db@))),
    )
}

/// The first workspace with the identifier, by position.
fn find_workspace(db: &Database, workspace_id: &Uuid) -> (found: Result<usize, DbError>)
    ensures
        found matches Ok(p) ==> p < db.workspaces.len(),
        then_make(found, |p: usize| db@.workspaces[p as int]) == first_workspace(
            db@,
            *workspace_id,
        ),
{
    let keep = |workspace: &WorkspaceRecord| -> (kept: bool)
        ensures
            kept == workspace_has_id(*workspace_id)(workspace.deep_view()),
    { workspace.workspace_id == *workspace_id };
    let found = positions(&db.workspaces, keep, Ghost(workspace_has_id(*workspace_id)));
    let ghost chosen = found@.map_values(|p: usize| db@.workspaces[p as int]);
    assert(chosen.len() == found.len());
    if found.len() == 0 {
        Err(DbError::RowNotFound)
    } else {
        assert(chosen[0] == db@.workspaces[found[0] as int]);
        Ok(found[0])
    }
}

/// The first workspace with the identifier.
pub open spec fn first_workspace(tables: Tables, workspace_id: Uuid) -> Result<
    WorkspaceRecordView,
    DbError,
> {
    first_of(Ok(tables.workspaces.filter(workspace_has_id(workspace_id))))
}

/// The name of the workspace.
pub fn select_workspace_name_from_workspace_id(db: &Database, workspace_id: &Uuid) -> (result: Result<
    Option<String>,
    AppError,
>)
    ensures
        seen(result) == handed_on(
            then_make(
                first_workspace(db@, *workspace_id),
                |workspace: WorkspaceRecordView| workspace.workspace_name,
            ),
        ),
{
    match find_workspace(db, workspace_id) {
        Ok(p) => Ok(copy_text(&db.workspaces[p].workspace_name)),
        Err(error) => Err(AppError::Database(error)),
    }
}

/// The stored settings of the workspace.
pub fn select_workspace_settings(db: &Database, workspace_id: &Uuid) -> (result: Result<
    Option<Json>,
    AppError,
>)
    ensures
        seen(result) == handed_on(
            then_make(
                first_workspace(db@, *workspace_id),
                |workspace: WorkspaceRecordView| workspace.settings,
            ),
        ),
{
    match find_workspace(db, workspace_id) {
        Ok(p) => Ok(copy_json(&db.workspaces[p].settings)),
        Err(error) => Err(AppError::Database(error)),
    }
}

/// The namespace that the workspace publishes under.
pub fn select_workspace_publish_namespace(db: &Database, workspace_id: &Uuid) -> (result: Result<
    Option<String>,
    AppError,
>)
    ensures
        seen(result) == handed_on(
            then_make(
                first_workspace(db@, *workspace_id),
                |workspace: WorkspaceRecordView| workspace.publish_namespace,
            ),
        ),
{
    match find_workspace(db, workspace_id) {
        Ok(p) => Ok(copy_text(&db.workspaces[p].publish_namespace)),
        Err(error) => Err(AppError::Database(error)),
    }
}

/// Whether there is such a workspace.
pub fn is_workspace_exist(db: &Database, workspace_id: &Uuid) -> (result: Result<bool, AppError>)
    ensures
        result == Ok::<bool, AppError>(db@.workspaces.any(workspace_has_id(*workspace_id))),
{
    let keep = |workspace: &WorkspaceRecord| -> (kept: bool)
        ensures
            kept == workspace_has_id(*workspace_id)(workspace.deep_view()),
    { workspace.workspace_id == *workspace_id };
    let exists = any_where(&db.workspaces, keep, Ghost(workspace_has_id(*workspace_id)));
    Ok(outcome::flag(Some(exists)))
}

pub open spec fn publishes_under(workspace_id: Uuid, namespace: Seq<char>) -> spec_fn(
    WorkspaceRecordView,
) -> bool {
    |workspace: WorkspaceRecordView|
        workspace.workspace_id == workspace_id && workspace.publish_namespace == Some(namespace)
}

/// Whether the workspace publishes under the namespace.
pub fn select_workspace_publish_namespace_exists(
    db: &Database,
    workspace_id: &Uuid,
    namespace: &str,
) -> (result: Result<bool, AppError>)
    ensures
        result == Ok::<bool, AppError>(
            db@.workspaces.any(publishes_under(*workspace_id, namespace@)),
        ),
{
    let text = namespace.to_owned();
    let keep = |workspace: &WorkspaceRecord| -> (kept: bool)
        ensures
            kept == publishes_under(*workspace_id, namespace@)(workspace.deep_view()),
    { workspace.workspace_id == *workspace_id && is_text(&workspace.publish_namespace, &text) };
    let exists = any_where(
        &db.workspaces,
        keep,
        Ghost(publishes_under(*workspace_id, namespace@)),
    );
    Ok(outcome::flag(Some(exists)))
}

pub open spec fn collab_is_in(workspace_id: Uuid) -> spec_fn(CollabRecord) -> bool {
    |collab: CollabRecord| collab.workspace_id == workspace_id
}

/// The sum of the lengths.
pub open spec fn total_len(collabs: Seq<CollabRecord>) -> int
    decreases collabs.len(),
{
    if collabs.len() == 0 {
        0
    } else {
        total_len(collabs.drop_last()) + collabs.last().len
    }
}

/// The sum of the lengths of the workspace's collabs: none where it has none.
pub open spec fn sum_of_lengths(tables: Tables, workspace_id: Uuid) -> Result<
    Option<i64>,
    DbError,
> {
    let collabs = tables.collabs.filter(collab_is_in(workspace_id));
    if collabs.len() == 0 {
        Ok(None)
    } else if i64::MIN <= total_len(collabs) <= i64::MAX {
        Ok(Some(total_len(collabs) as i64))
    } else {
        Err(DbError::NumericOutOfRange)
    }
}

/// The number of bytes of all collabs of the workspace.
pub fn select_workspace_total_collab_bytes(db: &Database, workspace_id: &Uuid) -> (result: Result<
    i64,
    AppError,
>)
    ensures
        seen(result) == match sum_of_lengths(db@, *workspace_id) {
            Ok(sum) => total_bytes(sum, *workspace_id),
            Err(error) => Err(AppErrorView::Database(error)),
        },
{
    let keep = |collab: &CollabRecord| -> (kept: bool)
        ensures
            kept == collab_is_in(*workspace_id)(collab.deep_view()),
    { collab.workspace_id == *workspace_id };
    let found = positions(&db.collabs, keep, Ghost(collab_is_in(*workspace_id)));
    let ghost chosen = found@.map_values(|p: usize| db@.collabs[p as int]);
    assert(chosen.len() == found.len());
    if found.len() == 0 {
        return outcome::select_workspace_total_collab_bytes(None, workspace_id);
    }
    let mut sum: i128 = 0;
    let mut k: usize = 0;
    while k < found.len()
        invariant
            k <= found.len(),
            chosen == found@.map_values(|p: usize| db@.collabs[p as int]),
            forall|k: int| 0 <= k < found.len() ==> #[trigger] found[k] < db.collabs.len(),
            sum == total_len(chosen.take(k as int)),
            -0x8000_0000 * k <= sum <= 0x7fff_ffff * k,
        decreases found.len() - k,
    {
        let collab: CollabRecord = db.collabs[found[k]];
        assert(chosen[k as int] == collab);
        assert(chosen.take(k + 1).drop_last() =~= chosen.take(k as int));
        sum = sum + collab.len as i128;
        k = k + 1;
    }
    assert(chosen.take(k as int) =~= chosen);
    if i64::MIN as i128 <= sum && sum <= i64::MAX as i128 {
        outcome::select_workspace_total_collab_bytes(Some(sum as i64), workspace_id)
    } else {
        Err(AppError::Database(DbError::NumericOutOfRange))
    }
}

impl AFUserProfileRow {
    pub fn copy(&self) -> (copy: AFUserProfileRow)
        ensures
            copy.deep_view() == self.deep_view(),
    {
        AFUserProfileRow { uuid: self.uuid, record: self.record.copy() }
    }
}

pub open spec fn is_profile_of(user_uuid: Uuid) -> spec_fn(AFUserProfileRowView) -> bool {
    |profile: AFUserProfileRowView| profile.uuid == user_uuid
}

/// The profile of the user.
pub fn select_user_profile(db: &Database, user_uuid: &Uuid) -> (result: Result<
    Option<AFUserProfileRow>,
    AppError,
>)
    ensures
        seen(result) == handed_on(
            first_if_any(Ok(db@.profiles.filter(is_profile_of(*user_uuid)))),
        ),
{
    let keep = |profile: &AFUserProfileRow| -> (kept: bool)
        ensures
            kept == is_profile_of(*user_uuid)(profile.deep_view()),
    { profile.uuid == *user_uuid };
    let found = positions(&db.profiles, keep, Ghost(is_profile_of(*user_uuid)));
    let ghost row_of = |profile: AFUserProfileRowView|
        Ok::<AFUserProfileRowView, DbError>(profile);
    let ghost chosen = db@.profiles.filter(is_profile_of(*user_uuid));
    let make = |profile: &AFUserProfileRow| -> (made: Result<AFUserProfileRow, DbError>)
        ensures
            plain(made) == Ok::<AFUserProfileRowView, DbError>(profile.deep_view()),
    { Ok(profile.copy()) };
    proof {
        let same = |profile: AFUserProfileRowView| profile;
        lemma_each_map(chosen, row_of, same);
        assert(chosen.map_values(same) =~= chosen);
    }
    fetch_optional(each_row(&db.profiles, &found, make, Ghost(row_of)))
}

} // verus!
