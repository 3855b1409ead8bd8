//! What a caller can tell of each operation on workspaces, column by column.

use vstd::prelude::*;

use crate::error::{AppError, DbError};
use crate::id::{Uuid, uuid_text};
use crate::json::Json;
use crate::laws::lookups::law_name_by_uid;
use crate::lemmas::{
    lemma_chosen_after_push, lemma_each_chosen, lemma_first_chosen, lemma_joined_places,
    lemma_none_chosen, lemma_same_chosen, lemma_whose_error,
};
use crate::relation::{each, join, lemma_each_ok};
use crate::tables::{
    AFUserProfileRow, CollabRecord, Database, Tables, WorkspaceRecordView, workspace_has_id,
};
use crate::workspace::{
    AFWorkspaceRow, AFWorkspaceRowView, WorkspaceDefaults, change_workspace_icon, collab_is_in,
    delete_from_workspace, has_member, insert_user_workspace, is_profile_of, is_workspace_exist,
    joined_workspace_row, publishes_under, rename_workspace, select_all_user_workspaces,
    select_user_profile, select_workspace, select_workspace_name_from_workspace_id,
    select_workspace_publish_namespace, select_workspace_publish_namespace_exists,
    select_workspace_settings, select_workspace_total_collab_bytes, total_len,
    update_workspace_publish_namespace, upsert_workspace_settings, workspace_row,
};

verus! {

/// Renaming writes the name into the rows with the identifier and writes nothing else.
pub proof fn law_rename_workspace(
    db: &mut Database,
    workspace_id: Uuid,
    name: &str,
    result: Result<(), AppError>,
)
    requires
        call_ensures(rename_workspace, (db, &workspace_id, name), result),
    ensures
        result is Ok,
        final(db)@ == (Tables { workspaces: final(db)@.workspaces, ..old(db)@ }),
        final(db)@.workspaces.len() == old(db)@.workspaces.len(),
        forall|i: int|
            0 <= i < old(db)@.workspaces.len() ==> #[trigger] final(db)@.workspaces[i]
                == if old(db)@.workspaces[i].workspace_id == workspace_id {
                WorkspaceRecordView { workspace_name: Some(name@), ..old(db)@.workspaces[i] }
            } else {
                old(db)@.workspaces[i]
            },
{
}

/// Changing the icon writes it into the rows with the identifier and writes nothing else.
pub proof fn law_change_workspace_icon(
    db: &mut Database,
    workspace_id: Uuid,
    icon: &str,
    result: Result<(), AppError>,
)
    requires
        call_ensures(change_workspace_icon, (db, &workspace_id, icon), result),
    ensures
        result is Ok,
        final(db)@ == (Tables { workspaces: final(db)@.workspaces, ..old(db)@ }),
        final(db)@.workspaces.len() == old(db)@.workspaces.len(),
        forall|i: int|
            0 <= i < old(db)@.workspaces.len() ==> #[trigger] final(db)@.workspaces[i]
                == if old(db)@.workspaces[i].workspace_id == workspace_id {
                WorkspaceRecordView { icon: Some(icon@), ..old(db)@.workspaces[i] }
            } else {
                old(db)@.workspaces[i]
            },
{
}

/// Storing settings writes them into the rows with the identifier and writes nothing else.
pub proof fn law_upsert_workspace_settings(
    db: &mut Database,
    workspace_id: Uuid,
    settings: Json,
    result: Result<(), AppError>,
)
    requires
        call_ensures(upsert_workspace_settings, (db, &workspace_id, &settings), result),
    ensures
        result is Ok,
        final(db)@ == (Tables { workspaces: final(db)@.workspaces, ..old(db)@ }),
        final(db)@.workspaces.len() == old(db)@.workspaces.len(),
        forall|i: int|
            0 <= i < old(db)@.workspaces.len() ==> #[trigger] final(db)@.workspaces[i]
                == if old(db)@.workspaces[i].workspace_id == workspace_id {
                WorkspaceRecordView { settings: Some(settings.value), ..old(db)@.workspaces[i] }
            } else {
                old(db)@.workspaces[i]
            },
{
}

/// Giving a namespace writes it into the rows with the identifier and writes nothing else.
pub proof fn law_update_workspace_publish_namespace(
    db: &mut Database,
    workspace_id: Uuid,
    namespace: &str,
    result: Result<(), AppError>,
)
    requires
        call_ensures(update_workspace_publish_namespace, (db, &workspace_id, namespace), result),
    ensures
        result is Ok,
        final(db)@ == (Tables { workspaces: final(db)@.workspaces, ..old(db)@ }),
        final(db)@.workspaces.len() == old(db)@.workspaces.len(),
        forall|i: int|
            0 <= i < old(db)@.workspaces.len() ==> #[trigger] final(db)@.workspaces[i]
                == if old(db)@.workspaces[i].workspace_id == workspace_id {
                WorkspaceRecordView { publish_namespace: Some(namespace@), ..old(db)@.workspaces[i] }
            } else {
                old(db)@.workspaces[i]
            },
{
}

/// Deleting takes the rows with the identifier and takes nothing else.
pub proof fn law_delete_from_workspace(
    db: &mut Database,
    workspace_id: Uuid,
    result: Result<(), AppError>,
)
    requires
        call_ensures(delete_from_workspace, (db, &workspace_id), result),
    ensures
        result is Ok,
        final(db)@ == (Tables {
            workspaces: old(db)@.workspaces.filter(
                |workspace: WorkspaceRecordView| workspace.workspace_id != workspace_id,
            ),
            ..old(db)@
        }),
{
    let this = workspace_has_id(workspace_id);
    lemma_same_chosen(
        old(db)@.workspaces,
        |workspace: WorkspaceRecordView| !this(workspace),
        |workspace: WorkspaceRecordView| workspace.workspace_id != workspace_id,
    );
}

/// A new workspace belongs to the user, has the name, and has from the database what that fills in;
/// it is handed out with the user's name. Where the user or the user's name is ambiguous nothing is
/// written.
pub proof fn law_insert_user_workspace(
    db: &mut Database,
    user_uuid: Uuid,
    workspace_name: &str,
    defaults: WorkspaceDefaults,
    result: Result<AFWorkspaceRow, AppError>,
)
    requires
        call_ensures(insert_user_workspace, (db, &user_uuid, workspace_name, defaults), result),
    ensures
        match old(db)@.uid_by_uuid(user_uuid) {
            Ok(owner_uid) => match old(db)@.name_by_uid(owner_uid) {
                Ok(owner_name) => {
                    &&& result matches Ok(row)
                    &&& row.workspace_id == defaults.workspace_id
                    &&& row.database_storage_id == defaults.database_storage_id
                    &&& row.owner_uid == owner_uid
                    &&& row.owner_name.deep_view() == owner_name
                    &&& row.created_at == defaults.created_at
                    &&& row.workspace_type == defaults.workspace_type
                    &&& row.deleted_at == defaults.deleted_at
                    &&& row.workspace_name.deep_view() == Some(workspace_name@)
                    &&& row.icon.deep_view() == defaults.icon.deep_view()
                    &&& final(db)@ == (Tables {
                        workspaces: old(db)@.workspaces.push(
                            WorkspaceRecordView {
                                workspace_id: defaults.workspace_id,
                                database_storage_id: defaults.database_storage_id,
                                owner_uid,
                                created_at: defaults.created_at,
                                workspace_type: defaults.workspace_type,
                                deleted_at: defaults.deleted_at,
                                workspace_name: Some(workspace_name@),
                                icon: defaults.icon.deep_view(),
                                settings: defaults.settings.deep_view(),
                                publish_namespace: defaults.publish_namespace.deep_view(),
                            },
                        ),
                        ..old(db)@
                    })
                },
                Err(error) => result == Err::<AFWorkspaceRow, AppError>(AppError::Database(error))
                    && final(db)@ == old(db)@,
            },
            Err(error) => result == Err::<AFWorkspaceRow, AppError>(AppError::Database(error))
                && final(db)@ == old(db)@,
        },
{
}

/// A workspace is handed out with its own columns and the name of its owner; the first with the
/// identifier counts. There is an error where none has it, and where an owner's name is ambiguous.
pub proof fn law_select_workspace(
    db: Database,
    workspace_id: Uuid,
    result: Result<AFWorkspaceRow, AppError>,
)
    requires
        call_ensures(select_workspace, (&db, &workspace_id), result),
    ensures
        (forall|i: int|
            0 <= i < db@.workspaces.len() ==> (#[trigger] db@.workspaces[i]).workspace_id
                != workspace_id) ==> result == Err::<AFWorkspaceRow, AppError>(
            AppError::Database(DbError::RowNotFound),
        ),
        forall|i: int|
            0 <= i < db@.workspaces.len() && (#[trigger] db@.workspaces[i]).workspace_id
                == workspace_id && db@.name_by_uid(db@.workspaces[i].owner_uid) is Err ==> result
                == Err::<AFWorkspaceRow, AppError>(
                AppError::Database(DbError::CardinalityViolation),
            ),
        forall|i: int|
            #![trigger db@.workspaces[i]]
            {
                &&& 0 <= i < db@.workspaces.len()
                &&& db@.workspaces[i].workspace_id == workspace_id
                &&& forall|j: int|
                    0 <= j < i ==> (#[trigger] db@.workspaces[j]).workspace_id != workspace_id
                &&& forall|j: int|
                    0 <= j < db@.workspaces.len() && (#[trigger] db@.workspaces[j]).workspace_id
                        == workspace_id ==> db@.name_by_uid(db@.workspaces[j].owner_uid) is Ok
            } ==> {
                &&& result matches Ok(row)
                &&& shows(row.deep_view(), db@.workspaces[i])
                &&& db@.name_by_uid(db@.workspaces[i].owner_uid) == Ok::<
                    Option<Seq<char>>,
                    DbError,
                >(row.owner_name.deep_view())
            },
{
    let rows = db@.workspaces;
    let this = workspace_has_id(workspace_id);
    let make = workspace_row(db@);
    lemma_none_chosen(rows, this);
    lemma_each_chosen(rows, this, make);
    assert forall|i: int| 0 <= i < rows.len() implies this(#[trigger] rows[i]) == (
    rows[i].workspace_id == workspace_id) by {}
    assert forall|i: int| 0 <= i < rows.len() implies (make(#[trigger] rows[i]) is Err
        <==> db@.name_by_uid(rows[i].owner_uid) is Err) by {}
    assert forall|i: int| 0 <= i < rows.len() && make(#[trigger] rows[i]) is Err implies make(
        rows[i],
    ) == Err::<AFWorkspaceRowView, DbError>(DbError::CardinalityViolation) by {
        law_name_by_uid(db@, rows[i].owner_uid);
    }
    if rows.any(this) {
        let i = choose|i: int| 0 <= i < rows.len() && #[trigger] this(rows[i]);
        assert(rows[i].workspace_id == workspace_id);
    }
    assert forall|i: int|
        #![trigger db@.workspaces[i]]
        {
            &&& 0 <= i < rows.len()
            &&& rows[i].workspace_id == workspace_id
            &&& forall|j: int| 0 <= j < i ==> (#[trigger] rows[j]).workspace_id != workspace_id
            &&& forall|j: int|
                0 <= j < rows.len() && (#[trigger] rows[j]).workspace_id == workspace_id
                    ==> db@.name_by_uid(rows[j].owner_uid) is Ok
        } implies {
        &&& result matches Ok(row)
        &&& shows(row.deep_view(), db@.workspaces[i])
        &&& db@.name_by_uid(db@.workspaces[i].owner_uid) == Ok::<Option<Seq<char>>, DbError>(
            row.owner_name.deep_view(),
        )
    } by {
        assert forall|j: int| 0 <= j < i implies !this(#[trigger] rows[j]) by {}
        assert(this(rows[i]));
        assert(each(rows.filter(this), make) is Ok);
    }
}

/// The row that is handed out shows the columns of the workspace.
pub open spec fn shows(row: AFWorkspaceRowView, workspace: WorkspaceRecordView) -> bool {
    &&& row.workspace_id == workspace.workspace_id
    &&& row.database_storage_id == workspace.database_storage_id
    &&& row.owner_uid == workspace.owner_uid
    &&& row.created_at == workspace.created_at
    &&& row.workspace_type == workspace.workspace_type
    &&& row.deleted_at == workspace.deleted_at
    &&& row.workspace_name == workspace.workspace_name
    &&& row.icon == workspace.icon
}

/// A user is handed one row for each place where a workspace and a membership of the user in it
/// stand, with the columns of that workspace and the name of its owner. There is an error where the
/// user, or the name of such an owner, is ambiguous.
pub proof fn law_select_all_user_workspaces(
    db: Database,
    user_uuid: Uuid,
    result: Result<Vec<AFWorkspaceRow>, AppError>,
) -> (at: Seq<(int, int)>)
    requires
        call_ensures(select_all_user_workspaces, (&db, &user_uuid), result),
    ensures
        db@.uid_by_uuid(user_uuid) matches Err(error) ==> result == Err::<
            Vec<AFWorkspaceRow>,
            AppError,
        >(AppError::Database(error)),
        db@.uid_by_uuid(user_uuid) matches Ok(uid) ==> {
            &&& forall|k: int|
                0 <= k < at.len() ==> {
                    &&& 0 <= (#[trigger] at[k]).0 < db@.workspaces.len()
                    &&& 0 <= at[k].1 < db@.members.len()
                    &&& db@.members[at[k].1].workspace_id == db@.workspaces[at[k].0].workspace_id
                    &&& Some(db@.members[at[k].1].uid) == uid
                }
            &&& forall|i: int, j: int|
                #![trigger db@.workspaces[i], db@.members[j]]
                0 <= i < db@.workspaces.len() && 0 <= j < db@.members.len()
                    && db@.members[j].workspace_id == db@.workspaces[i].workspace_id && Some(
                    db@.members[j].uid,
                ) == uid ==> at.contains((i, j))
            &&& at.no_duplicates()
            &&& result is Err <==> exists|k: int|
                0 <= k < at.len() && db@.name_by_uid(
                    db@.workspaces[(#[trigger] at[k]).0].owner_uid,
                ) is Err
            &&& result matches Err(error) ==> error == AppError::Database(
                DbError::CardinalityViolation,
            )
            &&& result matches Ok(rows) ==> {
                &&& rows@.len() == at.len()
                &&& forall|k: int|
                    #![trigger rows@[k]]
                    #![trigger at[k]]
                    0 <= k < at.len() ==> {
                        &&& shows(rows@[k].deep_view(), db@.workspaces[at[k].0])
                        &&& db@.name_by_uid(db@.workspaces[at[k].0].owner_uid) == Ok::<
                            Option<Seq<char>>,
                            DbError,
                        >(rows@[k].owner_name.deep_view())
                    }
            }
        },
{
    if let Ok(uid) = db@.uid_by_uuid(user_uuid) {
        let on = has_member(uid);
        let make = joined_workspace_row(db@);
        let pairs = join(db@.workspaces, db@.members, on);
        let at = lemma_joined_places(db@.workspaces, db@.members, on);
        lemma_each_ok(pairs, make);
        lemma_whose_error(pairs, make);
        assert forall|i: int, j: int|
            #![trigger db@.workspaces[i], db@.members[j]]
            0 <= i < db@.workspaces.len() && 0 <= j < db@.members.len()
                && db@.members[j].workspace_id == db@.workspaces[i].workspace_id && Some(
                db@.members[j].uid,
            ) == uid implies at.contains((i, j)) by {
            assert(on(db@.workspaces[i], db@.members[j]));
        }
        assert forall|k: int| 0 <= k < pairs.len() implies (make(#[trigger] pairs[k]) is Err
            <==> db@.name_by_uid(db@.workspaces[at[k].0].owner_uid) is Err) by {
            assert(pairs[k].0 == db@.workspaces[at[k].0]);
        }
        if let Err(error) = each(pairs, make) {
            let k = choose|k: int|
                0 <= k < pairs.len() && make(#[trigger] pairs[k]) == Err::<
                    AFWorkspaceRowView,
                    DbError,
                >(error);
            assert(at[k].0 == at[k].0);
            law_name_by_uid(db@, db@.workspaces[at[k].0].owner_uid);
        }
        if exists|k: int|
            0 <= k < at.len() && db@.name_by_uid(
                db@.workspaces[(#[trigger] at[k]).0].owner_uid,
            ) is Err {
            let k = choose|k: int|
                0 <= k < at.len() && db@.name_by_uid(
                    db@.workspaces[(#[trigger] at[k]).0].owner_uid,
                ) is Err;
            assert(make(pairs[k]) is Err);
        }
        if let Ok(rows) = result {
            assert forall|k: int|
                #![trigger rows@[k]]
                #![trigger at[k]]
                0 <= k < at.len() implies {
                &&& shows(rows@[k].deep_view(), db@.workspaces[at[k].0])
                &&& db@.name_by_uid(db@.workspaces[at[k].0].owner_uid) == Ok::<
                    Option<Seq<char>>,
                    DbError,
                >(rows@[k].owner_name.deep_view())
            } by {
                assert(rows.deep_view()[k] == rows@[k].deep_view());
                assert(make(pairs[k]) == Ok::<AFWorkspaceRowView, DbError>(rows.deep_view()[k]));
            }
        }
        at
    } else {
        Seq::empty()
    }
}

/// The name that is read is that of the first workspace with the identifier.
/// Where there is none, it is not found.
pub proof fn law_select_workspace_name_from_workspace_id(
    db: Database,
    workspace_id: Uuid,
    result: Result<Option<String>, AppError>,
)
    requires
        call_ensures(select_workspace_name_from_workspace_id, (&db, &workspace_id), result),
    ensures
        (forall|i: int|
            0 <= i < db@.workspaces.len() ==> (#[trigger] db@.workspaces[i]).workspace_id
                != workspace_id) ==> result == Err::<Option<String>, AppError>(
            AppError::Database(DbError::RowNotFound),
        ),
        forall|i: int|
            #![trigger db@.workspaces[i]]
            0 <= i < db@.workspaces.len() && db@.workspaces[i].workspace_id == workspace_id && (
            forall|j: int|
                0 <= j < i ==> (#[trigger] db@.workspaces[j]).workspace_id != workspace_id) ==> {
                &&& result matches Ok(value)
                &&& value.deep_view() == db@.workspaces[i].workspace_name
            },
{
    let rows = db@.workspaces;
    let this = workspace_has_id(workspace_id);
    lemma_none_chosen(rows, this);
    if rows.any(this) {
        let i = choose|i: int| 0 <= i < rows.len() && #[trigger] this(rows[i]);
        assert(rows[i].workspace_id == workspace_id);
    }
    assert forall|i: int|
        #![trigger db@.workspaces[i]]
        0 <= i < rows.len() && rows[i].workspace_id == workspace_id && (forall|j: int|
            0 <= j < i ==> (#[trigger] rows[j]).workspace_id != workspace_id) implies {
        &&& result matches Ok(value)
        &&& value.deep_view() == db@.workspaces[i].workspace_name
    } by {
        lemma_first_chosen(rows, this, i);
    }
}

/// The settings that are read are those of the first workspace with the identifier.
/// Where there is none, it is not found.
pub proof fn law_select_workspace_settings(
    db: Database,
    workspace_id: Uuid,
    result: Result<Option<Json>, AppError>,
)
    requires
        call_ensures(select_workspace_settings, (&db, &workspace_id), result),
    ensures
        (forall|i: int|
            0 <= i < db@.workspaces.len() ==> (#[trigger] db@.workspaces[i]).workspace_id
                != workspace_id) ==> result == Err::<Option<Json>, AppError>(
            AppError::Database(DbError::RowNotFound),
        ),
        forall|i: int|
            #![trigger db@.workspaces[i]]
            0 <= i < db@.workspaces.len() && db@.workspaces[i].workspace_id == workspace_id && (
            forall|j: int|
                0 <= j < i ==> (#[trigger] db@.workspaces[j]).workspace_id != workspace_id) ==> {
                &&& result matches Ok(value)
                &&& value.deep_view() == db@.workspaces[i].settings
            },
{
    let rows = db@.workspaces;
    let this = workspace_has_id(workspace_id);
    lemma_none_chosen(rows, this);
    if rows.any(this) {
        let i = choose|i: int| 0 <= i < rows.len() && #[trigger] this(rows[i]);
        assert(rows[i].workspace_id == workspace_id);
    }
    assert forall|i: int|
        #![trigger db@.workspaces[i]]
        0 <= i < rows.len() && rows[i].workspace_id == workspace_id && (forall|j: int|
            0 <= j < i ==> (#[trigger] rows[j]).workspace_id != workspace_id) implies {
        &&& result matches Ok(value)
        &&& value.deep_view() == db@.workspaces[i].settings
    } by {
        lemma_first_chosen(rows, this, i);
    }
}

/// The namespace that is read is that of the first workspace with the identifier.
/// Where there is none, it is not found.
pub proof fn law_select_workspace_publish_namespace(
    db: Database,
    workspace_id: Uuid,
    result: Result<Option<String>, AppError>,
)
    requires
        call_ensures(select_workspace_publish_namespace, (&db, &workspace_id), result),
    ensures
        (forall|i: int|
            0 <= i < db@.workspaces.len() ==> (#[trigger] db@.workspaces[i]).workspace_id
                != workspace_id) ==> result == Err::<Option<String>, AppError>(
            AppError::Database(DbError::RowNotFound),
        ),
        forall|i: int|
            #![trigger db@.workspaces[i]]
            0 <= i < db@.workspaces.len() && db@.workspaces[i].workspace_id == workspace_id && (
            forall|j: int|
                0 <= j < i ==> (#[trigger] db@.workspaces[j]).workspace_id != workspace_id) ==> {
                &&& result matches Ok(value)
                &&& value.deep_view() == db@.workspaces[i].publish_namespace
            },
{
    let rows = db@.workspaces;
    let this = workspace_has_id(workspace_id);
    lemma_none_chosen(rows, this);
    if rows.any(this) {
        let i = choose|i: int| 0 <= i < rows.len() && #[trigger] this(rows[i]);
        assert(rows[i].workspace_id == workspace_id);
    }
    assert forall|i: int|
        #![trigger db@.workspaces[i]]
        0 <= i < rows.len() && rows[i].workspace_id == workspace_id && (forall|j: int|
            0 <= j < i ==> (#[trigger] rows[j]).workspace_id != workspace_id) implies {
        &&& result matches Ok(value)
        &&& value.deep_view() == db@.workspaces[i].publish_namespace
    } by {
        lemma_first_chosen(rows, this, i);
    }
}

/// A workspace exists when a row has its identifier.
pub proof fn law_is_workspace_exist(db: Database, workspace_id: Uuid, result: Result<bool, AppError>)
    requires
        call_ensures(is_workspace_exist, (&db, &workspace_id), result),
    ensures
        result == Ok::<bool, AppError>(
            exists|i: int|
                0 <= i < db@.workspaces.len() && (#[trigger] db@.workspaces[i]).workspace_id
                    == workspace_id,
        ),
{
    let rows = db@.workspaces;
    let this = workspace_has_id(workspace_id);
    if rows.any(this) {
        let i = choose|i: int| 0 <= i < rows.len() && #[trigger] this(rows[i]);
        assert(rows[i].workspace_id == workspace_id);
    }
    if exists|i: int| 0 <= i < rows.len() && (#[trigger] rows[i]).workspace_id == workspace_id {
        let i = choose|i: int|
            0 <= i < rows.len() && (#[trigger] rows[i]).workspace_id == workspace_id;
        assert(this(rows[i]));
    }
}

/// A workspace publishes under a namespace when a row has both.
pub proof fn law_select_workspace_publish_namespace_exists(
    db: Database,
    workspace_id: Uuid,
    namespace: &str,
    result: Result<bool, AppError>,
)
    requires
        call_ensures(
            select_workspace_publish_namespace_exists,
            (&db, &workspace_id, namespace),
            result,
        ),
    ensures
        result == Ok::<bool, AppError>(
            exists|i: int|
                {
                    &&& 0 <= i < db@.workspaces.len()
                    &&& (#[trigger] db@.workspaces[i]).workspace_id == workspace_id
                    &&& db@.workspaces[i].publish_namespace == Some(namespace@)
                },
        ),
{
    let rows = db@.workspaces;
    let this = publishes_under(workspace_id, namespace@);
    if rows.any(this) {
        let i = choose|i: int| 0 <= i < rows.len() && #[trigger] this(rows[i]);
        assert(rows[i].workspace_id == workspace_id);
    }
    if exists|i: int|
        {
            &&& 0 <= i < rows.len()
            &&& (#[trigger] rows[i]).workspace_id == workspace_id
            &&& rows[i].publish_namespace == Some(namespace@)
        } {
        let i = choose|i: int|
            {
                &&& 0 <= i < rows.len()
                &&& (#[trigger] rows[i]).workspace_id == workspace_id
                &&& rows[i].publish_namespace == Some(namespace@)
            };
        assert(this(rows[i]));
    }
}

/// A profile is the first under the identifier, and none where there is none.
pub proof fn law_select_user_profile(
    db: Database,
    user_uuid: Uuid,
    result: Result<Option<AFUserProfileRow>, AppError>,
)
    requires
        call_ensures(select_user_profile, (&db, &user_uuid), result),
    ensures
        (forall|i: int|
            0 <= i < db@.profiles.len() ==> (#[trigger] db@.profiles[i]).uuid != user_uuid)
            ==> result == Ok::<Option<AFUserProfileRow>, AppError>(None),
        forall|i: int|
            #![trigger db@.profiles[i]]
            0 <= i < db@.profiles.len() && db@.profiles[i].uuid == user_uuid && (forall|j: int|
                0 <= j < i ==> (#[trigger] db@.profiles[j]).uuid != user_uuid) ==> {
                &&& result matches Ok(Some(profile))
                &&& profile.uuid == user_uuid
                &&& profile.record.value == db@.profiles[i].record
            },
{
    let rows = db@.profiles;
    let this = is_profile_of(user_uuid);
    lemma_none_chosen(rows, this);
    if rows.any(this) {
        let i = choose|i: int| 0 <= i < rows.len() && #[trigger] this(rows[i]);
        assert(rows[i].uuid == user_uuid);
    }
    assert forall|i: int|
        #![trigger db@.profiles[i]]
        0 <= i < rows.len() && rows[i].uuid == user_uuid && (forall|j: int|
            0 <= j < i ==> (#[trigger] rows[j]).uuid != user_uuid) implies {
        &&& result matches Ok(Some(profile))
        &&& profile.uuid == user_uuid
        &&& profile.record.value == db@.profiles[i].record
    } by {
        lemma_first_chosen(rows, this, i);
    }
}

/// A collab that is added to a workspace adds its length to the workspace's total, whatever the
/// lengths of the others are, and leaves the totals of other workspaces alone. A workspace that had
/// none has that length as its total.
pub proof fn law_collab_adds_its_length(
    db: Database,
    more: Database,
    collab: CollabRecord,
    workspace_id: Uuid,
    total: Result<i64, AppError>,
    new_total: Result<i64, AppError>,
)
    requires
        call_ensures(select_workspace_total_collab_bytes, (&db, &workspace_id), total),
        call_ensures(select_workspace_total_collab_bytes, (&more, &workspace_id), new_total),
        more@.collabs == db@.collabs.push(collab),
    ensures
        collab.workspace_id != workspace_id ==> (total matches Ok(bytes) ==> new_total == Ok::<
            i64,
            AppError,
        >(bytes)),
        collab.workspace_id != workspace_id ==> (total is Err ==> new_total is Err),
        collab.workspace_id == workspace_id ==> (total matches Ok(bytes) ==> if i64::MIN <= bytes
            + collab.len <= i64::MAX {
            new_total == Ok::<i64, AppError>((bytes + collab.len) as i64)
        } else {
            new_total == Err::<i64, AppError>(AppError::Database(DbError::NumericOutOfRange))
        }),
        collab.workspace_id == workspace_id ==> (total matches Err(AppError::RecordNotFound(_))
            ==> new_total == Ok::<i64, AppError>(collab.len as i64)),
{
    let inside = collab_is_in(workspace_id);
    let before = db@.collabs.filter(inside);
    lemma_chosen_after_push(db@.collabs, collab, inside);
    assert(before.push(collab).drop_last() =~= before);
    assert(total_len(before.push(collab)) == total_len(before) + collab.len);
    if before.len() == 0 {
        assert(total_len(before) == 0);
    }
}

/// A total is the sum of the lengths of the collabs that have the workspace's identifier, where that
/// is in range. Without such a collab there is none.
pub proof fn law_select_workspace_total_collab_bytes(
    db: Database,
    workspace_id: Uuid,
    result: Result<i64, AppError>,
)
    requires
        call_ensures(select_workspace_total_collab_bytes, (&db, &workspace_id), result),
    ensures
        ({
            let lengths = db@.collabs.filter(
                |collab: CollabRecord| collab.workspace_id == workspace_id,
            ).map_values(|collab: CollabRecord| collab.len as int);
            let sum = lengths.fold_left(0, |sum: int, length: int| sum + length);
            if lengths.len() == 0 {
                &&& result matches Err(AppError::RecordNotFound(text))
                &&& text@ == "Failed to get total collab bytes for workspace_id: "@ + uuid_text(
                    workspace_id,
                )
            } else if i64::MIN <= sum <= i64::MAX {
                result matches Ok(bytes) && bytes == sum
            } else {
                result == Err::<i64, AppError>(AppError::Database(DbError::NumericOutOfRange))
            }
        }),
{
    let inside = |collab: CollabRecord| collab.workspace_id == workspace_id;
    lemma_same_chosen(db@.collabs, collab_is_in(workspace_id), inside);
    lemma_total_is_sum(db@.collabs.filter(inside));
}

proof fn lemma_total_is_sum(collabs: Seq<CollabRecord>)
    ensures
        total_len(collabs) == collabs.map_values(
            |collab: CollabRecord| collab.len as int,
        ).fold_left(0, |sum: int, length: int| sum + length),
    decreases collabs.len(),
{
    let lengths = collabs.map_values(|collab: CollabRecord| collab.len as int);
    if collabs.len() > 0 {
        let front = collabs.drop_last();
        lemma_total_is_sum(front);
        assert(lengths.drop_last() =~= front.map_values(|collab: CollabRecord| collab.len as int));
        assert(lengths.last() == collabs.last().len);
    }
}

} // verus!
