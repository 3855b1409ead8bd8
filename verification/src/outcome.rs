//! What is made of the database server's reply.

use vstd::hash_map::StringHashMap;
use vstd::prelude::*;

use crate::error::{AppError, AppErrorView, seen};
use crate::id::{Uuid, uuid_text, uuid_to_string};
use crate::statement::{BindView, Statement, StatementView};
use crate::sql::DELETE_WORKSPACE_MEMBERS;
use crate::text::{decimal, decimal_text};

verus! {

/// A yes-or-no answer: no where the server gave none.
pub fn flag(reply: Option<bool>) -> (yes: bool)
    ensures
        yes == (reply == Some(true)),
{
    match reply {
        Some(yes) => yes,
        None => false,
    }
}

/// Whether a statement that was to write one row wrote another number of rows.
pub fn missed_one(rows_affected: u64) -> (missed: bool)
    ensures
        missed == (rows_affected != 1),
{
    rows_affected != 1
}

/// Whether a statement that was to write `asked` rows wrote another number of rows.
pub fn missed_some(rows_affected: u64, asked: usize) -> (missed: bool)
    ensures
        missed == (rows_affected != asked as u64),
{
    rows_affected != asked as u64
}

/// The user published all the views when as many of their rows were counted as views were named.
pub fn select_user_is_collab_publisher_for_all_views(
    count: Option<i64>,
    view_ids: &[Uuid],
) -> (all: bool)
    ensures
        all == (count == Some(view_ids.len() as i64)),
{
    match count {
        Some(count) => count == #[verifier::truncate] (view_ids.len() as i64),
        None => false,
    }
}

/// Accepting an invitation must change exactly one row.
pub open spec fn acceptance(rows_affected: u64, invitee_uuid: Uuid, invite_id: Uuid) -> Result<
    (),
    AppErrorView,
> {
    if rows_affected == 0 {
        Err(
            AppErrorView::RecordNotFound(
                "Invitation not found, invitee_uuid: "@ + uuid_text(invitee_uuid) + ", invite_id: "@
                    + uuid_text(invite_id),
            ),
        )
    } else if rows_affected == 1 {
        Ok(())
    } else {
        Err(
            AppErrorView::Internal(
                "Expected 1 row to be affected, but "@ + decimal(rows_affected as nat)
                    + " rows were affected"@,
            ),
        )
    }
}

pub fn update_workspace_invitation_set_status_accepted(
    rows_affected: u64,
    invitee_uuid: &Uuid,
    invite_id: &Uuid,
) -> (result: Result<(), AppError>)
    ensures
        seen(result) == acceptance(rows_affected, *invitee_uuid, *invite_id),
{
    match rows_affected {
        0 => {
            let mut text = "Invitation not found, invitee_uuid: ".to_owned();
            text.append(uuid_to_string(*invitee_uuid).as_str());
            text.append(", invite_id: ");
            text.append(uuid_to_string(*invite_id).as_str());
            Err(AppError::RecordNotFound(text))
        },
        1 => Ok(()),
        rows => {
            let mut text = "Expected 1 row to be affected, but ".to_owned();
            text.append(decimal_text(rows).as_str());
            text.append(" rows were affected");
            Err(AppError::Internal(text))
        },
    }
}

/// The refusal to remove a workspace's owner from it.
pub open spec fn owner_stays(workspace_id: Uuid, member_email: Seq<char>) -> AppErrorView {
    AppErrorView::NotEnoughPermissions {
        user: member_email,
        action: "delete member from workspace "@ + uuid_text(workspace_id),
    }
}

/// After it was asked whether the member owns the workspace: the deletion to send, or the refusal.
pub fn delete_workspace_members(
    is_owner: Option<bool>,
    workspace_id: &Uuid,
    member_email: &str,
) -> (next: Result<Statement, AppError>)
    ensures
        seen(next) == if is_owner == Some(true) {
            Err(owner_stays(*workspace_id, member_email@))
        } else {
            Ok(
                StatementView {
                    sql: DELETE_WORKSPACE_MEMBERS@,
                    binds: seq![BindView::Uuid(*workspace_id), BindView::Text(member_email@)],
                },
            )
        },
{
    if flag(is_owner) {
        let mut action = "delete member from workspace ".to_owned();
        action.append(uuid_to_string(*workspace_id).as_str());
        Err(AppError::NotEnoughPermissions { user: member_email.to_owned(), action })
    } else {
        Ok(Statement::delete_workspace_members(workspace_id, member_email))
    }
}

/// A workspace without collabs has no total.
pub open spec fn total_bytes(sum: Option<i64>, workspace_id: Uuid) -> Result<i64, AppErrorView> {
    match sum {
        Some(sum) => Ok(sum),
        None => Err(
            AppErrorView::RecordNotFound(
                "Failed to get total collab bytes for workspace_id: "@ + uuid_text(workspace_id),
            ),
        ),
    }
}

pub fn select_workspace_total_collab_bytes(sum: Option<i64>, workspace_id: &Uuid) -> (result: Result<
    i64,
    AppError,
>)
    ensures
        seen(result) == total_bytes(sum, *workspace_id),
{
    match sum {
        Some(sum) => Ok(sum),
        None => {
            let mut text = "Failed to get total collab bytes for workspace_id: ".to_owned();
            text.append(uuid_to_string(*workspace_id).as_str());
            Err(AppError::RecordNotFound(text))
        },
    }
}

/// Identifiers by text; of the rows with one text, the last counts.
pub open spec fn keyed(rows: Seq<(Seq<char>, Uuid)>) -> Map<Seq<char>, Uuid>
    decreases rows.len(),
{
    if rows.len() == 0 {
        Map::empty()
    } else {
        keyed(rows.drop_last()).insert(rows.last().0, rows.last().1)
    }
}

/// The invitations of the reply by the address that they went to.
pub fn select_workspace_pending_invitations(rows: &Vec<(String, Uuid)>) -> (by_email: StringHashMap<
    Uuid,
>)
    ensures
        by_email@ == keyed(rows.deep_view()),
{
    let ghost all = rows.deep_view();
    let mut by_email: StringHashMap<Uuid> = StringHashMap::new();
    let mut i: usize = 0;
    while i < rows.len()
        invariant
            i <= rows.len(),
            all == rows.deep_view(),
            by_email@ == keyed(all.take(i as int)),
        decreases rows.len() - i,
    {
        let row = &rows[i];
        by_email.insert(row.0.clone(), row.1);
        assert(all.take(i + 1).drop_last() =~= all.take(i as int));
        assert(all.take(i + 1).last() == (row.0@, row.1));
        i = i + 1;
    }
    assert(all.take(i as int) =~= all);
    by_email
}

/// The settings, none where none are stored; `parsed` is what reading the stored value as settings
/// gave, with the reader's words where it failed.
pub fn select_workspace_settings<S>(parsed: Option<Result<S, String>>) -> (settings: Result<
    Option<S>,
    AppError,
>)
    ensures
        match parsed {
            None => settings == Ok::<Option<S>, AppError>(None),
            Some(Ok(value)) => settings == Ok::<Option<S>, AppError>(Some(value)),
            Some(Err(words)) => settings == Err::<Option<S>, AppError>(AppError::Serde(words)),
        },
{
    match parsed {
        None => Ok(None),
        Some(Ok(value)) => Ok(Some(value)),
        Some(Err(words)) => Err(AppError::Serde(words)),
    }
}

} // verus!
