//! Workspaces.

use vstd::prelude::*;

use crate::error::DbError;
use crate::id::Uuid;
use crate::lemmas::{
    lemma_chosen, lemma_chosen_after_change, lemma_chosen_after_push, lemma_gone, lemma_joined,
    lemma_none_chosen, lemma_nothing_changed, lemma_one_chosen, lemma_one_place, lemma_others_kept,
    lemma_others_unchanged,
};
use crate::member::is_member;
use crate::relation::{changed, join, lemma_each_ok, then_make};
use crate::tables::{
    Tables, WorkspaceRecordView, workspace_has_id, workspace_has_namespace,
};
use crate::workspace::{
    AFWorkspaceRowView, WorkspaceDefaults, first_workspace, has_member, inserting,
    joined_workspace_row, publishes_under, with_icon, with_name, with_namespace, with_settings,
    with_workspace, without_workspace, workspace_found, workspace_row, workspaces_of,
};

verus! {

/// A change to a workspace is seen in that workspace and in no other.
proof fn lemma_workspace_changed(
    tables: Tables,
    workspace_id: Uuid,
    new_row: spec_fn(WorkspaceRecordView) -> WorkspaceRecordView,
)
    requires
        forall|workspace: WorkspaceRecordView|
            (#[trigger] new_row(workspace)).workspace_id == workspace.workspace_id,
    ensures
        first_workspace(with_workspace(tables, workspace_id, new_row), workspace_id) == then_make(
            first_workspace(tables, workspace_id),
            new_row,
        ),
        forall|other: Uuid|
            other != workspace_id ==> with_workspace(
                tables,
                workspace_id,
                new_row,
            ).workspaces.filter(#[trigger] workspace_has_id(other)) == tables.workspaces.filter(
                workspace_has_id(other),
            ),
        !tables.workspaces.any(workspace_has_id(workspace_id)) ==> with_workspace(
            tables,
            workspace_id,
            new_row,
        ) == tables,
{
    let rows = tables.workspaces;
    let this = workspace_has_id(workspace_id);
    let after = changed(rows, this, new_row);
    assert forall|workspace: WorkspaceRecordView| this(workspace) implies this(
        #[trigger] new_row(workspace),
    ) == this(workspace) by {}
    lemma_chosen_after_change(rows, this, new_row, this);
    if rows.filter(this).len() > 0 {
        lemma_chosen(rows, this, 0);
        assert(changed(rows.filter(this), this, new_row)[0] == new_row(rows.filter(this)[0]));
    }
    assert forall|other: Uuid| other != workspace_id implies after.filter(
        #[trigger] workspace_has_id(other),
    ) == rows.filter(workspace_has_id(other)) by {
        lemma_others_unchanged(rows, this, new_row, workspace_has_id(other));
    }
    if !rows.any(this) {
        lemma_nothing_changed(rows, this, new_row);
    }
}

/// A workspace that there is has, once renamed, the new name, and is otherwise what it was; the
/// other workspaces stay as they are.
pub proof fn law_name_is_read_back(tables: Tables, workspace_id: Uuid, name: Seq<char>)
    requires
        tables.workspaces.any(workspace_has_id(workspace_id)),
    ensures
        first_workspace(tables, workspace_id) is Ok,
        first_workspace(
            with_workspace(tables, workspace_id, with_name(name)),
            workspace_id,
        ) == Ok::<WorkspaceRecordView, DbError>(
            WorkspaceRecordView {
                workspace_name: Some(name),
                ..first_workspace(tables, workspace_id)->Ok_0
            },
        ),
        forall|other: Uuid|
            other != workspace_id ==> with_workspace(
                tables,
                workspace_id,
                with_name(name),
            ).workspaces.filter(#[trigger] workspace_has_id(other)) == tables.workspaces.filter(
                workspace_has_id(other),
            ),
{
    lemma_none_chosen(tables.workspaces, workspace_has_id(workspace_id));
    lemma_workspace_changed(tables, workspace_id, with_name(name));
}

/// A workspace that there is has, once its icon was changed, the new icon, and is otherwise what
/// it was; the other workspaces stay as they are.
pub proof fn law_icon_is_read_back(tables: Tables, workspace_id: Uuid, icon: Seq<char>)
    requires
        tables.workspaces.any(workspace_has_id(workspace_id)),
    ensures
        first_workspace(tables, workspace_id) is Ok,
        first_workspace(
            with_workspace(tables, workspace_id, with_icon(icon)),
            workspace_id,
        ) == Ok::<WorkspaceRecordView, DbError>(
            WorkspaceRecordView {
                icon: Some(icon),
                ..first_workspace(tables, workspace_id)->Ok_0
            },
        ),
        forall|other: Uuid|
            other != workspace_id ==> with_workspace(
                tables,
                workspace_id,
                with_icon(icon),
            ).workspaces.filter(#[trigger] workspace_has_id(other)) == tables.workspaces.filter(
                workspace_has_id(other),
            ),
{
    lemma_none_chosen(tables.workspaces, workspace_has_id(workspace_id));
    lemma_workspace_changed(tables, workspace_id, with_icon(icon));
}

/// The settings that were stored for a workspace that there is are read back from it; otherwise
/// it is what it was, and the other workspaces stay as they are.
pub proof fn law_settings_are_read_back(
    tables: Tables,
    workspace_id: Uuid,
    settings: serde_json::Value,
)
    requires
        tables.workspaces.any(workspace_has_id(workspace_id)),
    ensures
        first_workspace(tables, workspace_id) is Ok,
        first_workspace(
            with_workspace(tables, workspace_id, with_settings(settings)),
            workspace_id,
        ) == Ok::<WorkspaceRecordView, DbError>(
            WorkspaceRecordView {
                settings: Some(settings),
                ..first_workspace(tables, workspace_id)->Ok_0
            },
        ),
        forall|other: Uuid|
            other != workspace_id ==> with_workspace(
                tables,
                workspace_id,
                with_settings(settings),
            ).workspaces.filter(#[trigger] workspace_has_id(other)) == tables.workspaces.filter(
                workspace_has_id(other),
            ),
{
    lemma_none_chosen(tables.workspaces, workspace_has_id(workspace_id));
    lemma_workspace_changed(tables, workspace_id, with_settings(settings));
}

/// The namespace that was given to a workspace that there is is read back from it and is found to
/// be its own; otherwise it is what it was, and the other workspaces stay as they are.
pub proof fn law_namespace_is_read_back(tables: Tables, workspace_id: Uuid, namespace: Seq<char>)
    requires
        tables.workspaces.any(workspace_has_id(workspace_id)),
    ensures
        first_workspace(tables, workspace_id) is Ok,
        first_workspace(
            with_workspace(tables, workspace_id, with_namespace(namespace)),
            workspace_id,
        ) == Ok::<WorkspaceRecordView, DbError>(
            WorkspaceRecordView {
                publish_namespace: Some(namespace),
                ..first_workspace(tables, workspace_id)->Ok_0
            },
        ),
        with_workspace(tables, workspace_id, with_namespace(namespace)).workspaces.any(
            publishes_under(workspace_id, namespace),
        ),
        forall|other: Uuid|
            other != workspace_id ==> with_workspace(
                tables,
                workspace_id,
                with_namespace(namespace),
            ).workspaces.filter(#[trigger] workspace_has_id(other)) == tables.workspaces.filter(
                workspace_has_id(other),
            ),
{
    let this = workspace_has_id(workspace_id);
    let after = with_workspace(tables, workspace_id, with_namespace(namespace)).workspaces;
    lemma_none_chosen(tables.workspaces, this);
    lemma_workspace_changed(tables, workspace_id, with_namespace(namespace));
    let k = choose|k: int|
        0 <= k < tables.workspaces.len() && #[trigger] this(tables.workspaces[k]);
    assert(publishes_under(workspace_id, namespace)(after[k]));
}

/// A namespace that no other workspace has leads to the workspace that it was given to.
pub proof fn law_namespace_leads_to_its_workspace(
    tables: Tables,
    workspace_id: Uuid,
    namespace: Seq<char>,
)
    requires
        tables.workspaces.filter(workspace_has_id(workspace_id)).len() == 1,
        forall|i: int|
            0 <= i < tables.workspaces.len() && (#[trigger] tables.workspaces[i]).workspace_id
                != workspace_id ==> tables.workspaces[i].publish_namespace != Some(namespace),
    ensures
        with_workspace(tables, workspace_id, with_namespace(namespace)).workspace_by_namespace(
            namespace,
        ) == Ok::<Option<Uuid>, DbError>(Some(workspace_id)),
{
    let this = workspace_has_id(workspace_id);
    let named = workspace_has_namespace(namespace);
    let after = with_workspace(tables, workspace_id, with_namespace(namespace)).workspaces;
    let at = lemma_one_place(tables.workspaces, this);
    assert forall|i: int| 0 <= i < after.len() implies named(#[trigger] after[i]) == (i == at) by {
        assert(this(tables.workspaces[i]) == (i == at));
    }
    lemma_one_chosen(after, named, at);
    assert(this(tables.workspaces[at]));
}

/// A change to a workspace that there is not changes nothing.
pub proof fn law_unknown_workspace_is_left_alone(
    tables: Tables,
    workspace_id: Uuid,
    text: Seq<char>,
    settings: serde_json::Value,
)
    requires
        !tables.workspaces.any(workspace_has_id(workspace_id)),
    ensures
        with_workspace(tables, workspace_id, with_name(text)) == tables,
        with_workspace(tables, workspace_id, with_icon(text)) == tables,
        with_workspace(tables, workspace_id, with_settings(settings)) == tables,
        with_workspace(tables, workspace_id, with_namespace(text)) == tables,
{
    lemma_workspace_changed(tables, workspace_id, with_name(text));
    lemma_workspace_changed(tables, workspace_id, with_icon(text));
    lemma_workspace_changed(tables, workspace_id, with_settings(settings));
    lemma_workspace_changed(tables, workspace_id, with_namespace(text));
}

/// A workspace that there is not is not found.
pub proof fn law_unknown_workspace_is_not_found(tables: Tables, workspace_id: Uuid)
    requires
        !tables.workspaces.any(workspace_has_id(workspace_id)),
    ensures
        workspace_found(tables, workspace_id) == Err::<AFWorkspaceRowView, DbError>(
            DbError::RowNotFound,
        ),
        first_workspace(tables, workspace_id) == Err::<WorkspaceRecordView, DbError>(
            DbError::RowNotFound,
        ),
{
    lemma_none_chosen(tables.workspaces, workspace_has_id(workspace_id));
}

/// A deleted workspace is gone, and the others stay.
pub proof fn law_deleted_workspace_is_gone(tables: Tables, workspace_id: Uuid)
    ensures
        !without_workspace(tables, workspace_id).workspaces.any(workspace_has_id(workspace_id)),
        first_workspace(without_workspace(tables, workspace_id), workspace_id) == Err::<
            WorkspaceRecordView,
            DbError,
        >(DbError::RowNotFound),
        workspace_found(without_workspace(tables, workspace_id), workspace_id) == Err::<
            AFWorkspaceRowView,
            DbError,
        >(DbError::RowNotFound),
        forall|other: Uuid|
            other != workspace_id ==> without_workspace(tables, workspace_id).workspaces.filter(
                #[trigger] workspace_has_id(other),
            ) == tables.workspaces.filter(workspace_has_id(other)),
{
    let this = workspace_has_id(workspace_id);
    lemma_gone(tables.workspaces, this, this);
    assert forall|other: Uuid| other != workspace_id implies without_workspace(
        tables,
        workspace_id,
    ).workspaces.filter(#[trigger] workspace_has_id(other)) == tables.workspaces.filter(
        workspace_has_id(other),
    ) by {
        lemma_others_kept(tables.workspaces, this, workspace_has_id(other));
    }
}

/// A workspace that was made is found as it was handed out, unless its identifier was in use: then
/// what was found under it before is found. Under an unused identifier it belongs to the user and
/// has the name; and in every case the workspaces under other identifiers stay as they were.
pub proof fn law_new_workspace_is_found(
    tables: Tables,
    user_uuid: Uuid,
    workspace_name: Seq<char>,
    defaults: WorkspaceDefaults,
)
    ensures
        inserting(tables, user_uuid, workspace_name, defaults) matches Ok((workspace, row)) ==> {
            let after = Tables { workspaces: tables.workspaces.push(workspace), ..tables };
            let in_use = tables.workspaces.any(workspace_has_id(defaults.workspace_id));
            &&& row.workspace_id == defaults.workspace_id
            &&& workspace_found(after, defaults.workspace_id) == if in_use {
                workspace_found(tables, defaults.workspace_id)
            } else {
                Ok(row)
            }
            &&& !in_use ==> after.owner_by_workspace(defaults.workspace_id) == tables.uid_by_uuid(
                user_uuid,
            )
            &&& !in_use ==> after.name_by_workspace(defaults.workspace_id) == Ok::<
                Option<Seq<char>>,
                DbError,
            >(Some(workspace_name))
            &&& forall|other: Uuid|
                other != defaults.workspace_id ==> after.workspaces.filter(
                    #[trigger] workspace_has_id(other),
                ) == tables.workspaces.filter(workspace_has_id(other))
        },
{
    if let Ok((workspace, row)) = inserting(tables, user_uuid, workspace_name, defaults) {
        let this = workspace_has_id(defaults.workspace_id);
        let after = Tables { workspaces: tables.workspaces.push(workspace), ..tables };
        let before = tables.workspaces.filter(this);
        let found = after.workspaces.filter(this);
        lemma_none_chosen(tables.workspaces, this);
        lemma_chosen_after_push(tables.workspaces, workspace, this);
        assert(found.drop_last() =~= before);
        assert(workspace_row(after) =~= workspace_row(tables));
        lemma_each_ok(before, workspace_row(tables));
        if before.len() == 0 {
            assert(found =~= seq![workspace]);
        }
        assert forall|other: Uuid| other != defaults.workspace_id implies after.workspaces.filter(
            #[trigger] workspace_has_id(other),
        ) == tables.workspaces.filter(workspace_has_id(other)) by {
            lemma_chosen_after_push(tables.workspaces, workspace, workspace_has_id(other));
        }
    }
}

/// A user is handed exactly the workspaces that the user is a member of.
pub proof fn law_workspaces_are_those_of_the_user(tables: Tables, user_uuid: Uuid, row: AFWorkspaceRowView)
    requires
        workspaces_of(tables, user_uuid) is Ok,
    ensures
        tables.uid_by_uuid(user_uuid) is Ok,
        workspaces_of(tables, user_uuid)->Ok_0.contains(row) <==> exists|workspace: WorkspaceRecordView|
            {
                &&& #[trigger] tables.workspaces.contains(workspace)
                &&& tables.members.any(
                    is_member(workspace.workspace_id, tables.uid_by_uuid(user_uuid)->Ok_0),
                )
                &&& workspace_row(tables)(workspace) == Ok::<AFWorkspaceRowView, DbError>(row)
            },
{
    let uid = tables.uid_by_uuid(user_uuid)->Ok_0;
    let on = has_member(uid);
    let pairs = join(tables.workspaces, tables.members, on);
    let make = joined_workspace_row(tables);
    let rows = workspaces_of(tables, user_uuid)->Ok_0;
    lemma_each_ok(pairs, make);
    if rows.contains(row) {
        let i = choose|i: int| 0 <= i < rows.len() && rows[i] == row;
        let (workspace, member) = pairs[i];
        assert(make(pairs[i]) == Ok::<AFWorkspaceRowView, DbError>(rows[i]));
        assert(pairs.contains((workspace, member)));
        lemma_joined(tables.workspaces, tables.members, on, workspace, member);
        let k = choose|k: int| 0 <= k < tables.members.len() && tables.members[k] == member;
        assert(is_member(workspace.workspace_id, uid)(tables.members[k]));
        assert(tables.workspaces.contains(workspace));
    }
    if exists|workspace: WorkspaceRecordView|
        {
            &&& #[trigger] tables.workspaces.contains(workspace)
            &&& tables.members.any(is_member(workspace.workspace_id, uid))
            &&& workspace_row(tables)(workspace) == Ok::<AFWorkspaceRowView, DbError>(row)
        } {
        let workspace = choose|workspace: WorkspaceRecordView|
            {
                &&& #[trigger] tables.workspaces.contains(workspace)
                &&& tables.members.any(is_member(workspace.workspace_id, uid))
                &&& workspace_row(tables)(workspace) == Ok::<AFWorkspaceRowView, DbError>(row)
            };
        let mine = is_member(workspace.workspace_id, uid);
        let k = choose|k: int| 0 <= k < tables.members.len() && #[trigger] mine(tables.members[k]);
        let member = tables.members[k];
        assert(mine(member));
        lemma_joined(tables.workspaces, tables.members, on, workspace, member);
        let i = choose|i: int| 0 <= i < pairs.len() && pairs[i] == (workspace, member);
        assert(make(pairs[i]) == Ok::<AFWorkspaceRowView, DbError>(rows[i]));
        assert(rows[i] == row);
    }
}

} // verus!
