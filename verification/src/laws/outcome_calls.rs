//! What is made of each reply.

use vstd::hash_map::StringHashMap;
use vstd::prelude::*;

use crate::error::AppError;
use crate::id::{Uuid, uuid_text};
use crate::laws::invitations::lemma_keyed;
use crate::outcome;
use crate::outcome::keyed;
use crate::sql::DELETE_WORKSPACE_MEMBERS;
use crate::statement::{Bind, Statement};
use crate::text::decimal;

verus! {

/// Only a yes is a yes.
pub proof fn law_flag(reply: Option<bool>, yes: bool)
    requires
        call_ensures(outcome::flag, (reply,), yes),
    ensures
        reply is None ==> !yes,
        reply matches Some(answer) ==> yes == answer,
{
}

/// One row is missed exactly when another number of rows was written, and so are as many as were
/// asked for.
pub proof fn law_missed(
    rows_affected: u64,
    asked: usize,
    missed_one: bool,
    missed_some: bool,
)
    requires
        call_ensures(outcome::missed_one, (rows_affected,), missed_one),
        call_ensures(outcome::missed_some, (rows_affected, asked), missed_some),
    ensures
        !missed_one <==> rows_affected == 1,
        !missed_some <==> rows_affected == asked,
{
}

/// All views are published by the user when the number that was counted is the number of views; a
/// smaller one, a greater one and none are not.
pub proof fn law_counted_publisher(count: Option<i64>, view_ids: &[Uuid], all: bool)
    requires
        call_ensures(
            outcome::select_user_is_collab_publisher_for_all_views,
            (count, view_ids),
            all,
        ),
        view_ids@.len() <= i64::MAX,
    ensures
        count is None ==> !all,
        count matches Some(counted) ==> (all <==> counted == view_ids@.len()),
{
}

/// One changed row is success, none is an invitation that was not found, and more are an error that
/// tells how many.
pub proof fn law_accepted_rows(
    rows_affected: u64,
    invitee_uuid: Uuid,
    invite_id: Uuid,
    result: Result<(), AppError>,
)
    requires
        call_ensures(
            outcome::update_workspace_invitation_set_status_accepted,
            (rows_affected, &invitee_uuid, &invite_id),
            result,
        ),
    ensures
        result is Ok <==> rows_affected == 1,
        rows_affected == 0 ==> {
            &&& result matches Err(AppError::RecordNotFound(text))
            &&& text@ == "Invitation not found, invitee_uuid: "@ + uuid_text(invitee_uuid)
                + ", invite_id: "@ + uuid_text(invite_id)
        },
        rows_affected > 1 ==> {
            &&& result matches Err(AppError::Internal(text))
            &&& text@ == "Expected 1 row to be affected, but "@ + decimal(rows_affected as nat)
                + " rows were affected"@
        },
{
}

/// Unless the member is said to own the workspace, what is sent next is the removal of that member
/// from that workspace; an owner is refused.
pub proof fn law_next_of_delete_workspace_members(
    is_owner: Option<bool>,
    workspace_id: Uuid,
    member_email: &str,
    next: Result<Statement, AppError>,
)
    requires
        call_ensures(
            outcome::delete_workspace_members,
            (is_owner, &workspace_id, member_email),
            next,
        ),
    ensures
        is_owner == Some(true) ==> {
            &&& next matches Err(AppError::NotEnoughPermissions { user, action })
            &&& user@ == member_email@
            &&& action@ == "delete member from workspace "@ + uuid_text(workspace_id)
        },
        is_owner != Some(true) ==> {
            &&& next matches Ok(statement)
            &&& statement.sql@ == DELETE_WORKSPACE_MEMBERS@
            &&& statement.binds@.len() == 2
            &&& statement.binds@[0] == Bind::Uuid(workspace_id)
            &&& statement.binds@[1] matches Bind::Text(text)
            &&& text@ == member_email@
        },
{
    if let Ok(statement) = next {
        let binds = statement.deep_view().binds;
        assert(binds.len() == statement.binds@.len());
        assert(binds[0] == statement.binds@[0].deep_view());
        assert(binds[1] == statement.binds@[1].deep_view());
    }
}

/// A total is handed on as it is; where there is none, that is said of the workspace.
pub proof fn law_total_is_handed_on(
    sum: Option<i64>,
    workspace_id: Uuid,
    result: Result<i64, AppError>,
)
    requires
        call_ensures(outcome::select_workspace_total_collab_bytes, (sum, &workspace_id), result),
    ensures
        sum matches Some(bytes) ==> result == Ok::<i64, AppError>(bytes),
        sum is None ==> {
            &&& result matches Err(AppError::RecordNotFound(text))
            &&& text@ == "Failed to get total collab bytes for workspace_id: "@ + uuid_text(
                workspace_id,
            )
        },
{
}

/// An address has an entry exactly when a row has it, and its entry is that of its last row.
pub proof fn law_last_row_counts(
    rows: Vec<(String, Uuid)>,
    by_email: StringHashMap<Uuid>,
    email: Seq<char>,
)
    requires
        call_ensures(outcome::select_workspace_pending_invitations, (&rows,), by_email),
    ensures
        by_email@.contains_key(email) <==> exists|i: int|
            0 <= i < rows@.len() && (#[trigger] rows@[i]).0@ == email,
        forall|i: int|
            #![trigger rows@[i]]
            0 <= i < rows@.len() && rows@[i].0@ == email && (forall|j: int|
                i < j < rows@.len() ==> (#[trigger] rows@[j]).0@ != email) ==> by_email@[email]
                == rows@[i].1,
{
    let all = rows.deep_view();
    lemma_keyed(all, email);
    assert(all.len() == rows@.len());
    assert forall|i: int| 0 <= i < all.len() implies #[trigger] all[i] == (
        rows@[i].0@,
        rows@[i].1,
    ) by {}
    if by_email@.contains_key(email) {
        let i = choose|i: int| 0 <= i < all.len() && (#[trigger] all[i]).0 == email;
        assert(rows@[i].0@ == email);
    }
    if exists|i: int| 0 <= i < rows@.len() && (#[trigger] rows@[i]).0@ == email {
        let i = choose|i: int| 0 <= i < rows@.len() && (#[trigger] rows@[i]).0@ == email;
        assert(all[i].0 == email);
    }
    assert forall|i: int|
        #![trigger rows@[i]]
        0 <= i < rows@.len() && rows@[i].0@ == email && (forall|j: int|
            i < j < rows@.len() ==> (#[trigger] rows@[j]).0@ != email) implies by_email@[email]
        == rows@[i].1 by {
        assert(all[i].0 == email);
        let m = choose|m: int|
            {
                &&& 0 <= m < all.len()
                &&& (#[trigger] all[m]).0 == email
                &&& all[m].1 == keyed(all)[email]
                &&& forall|l: int| m < l < all.len() ==> (#[trigger] all[l]).0 != email
            };
        assert(rows@[m].0@ == email);
        if m < i {
            assert(all[i].0 != email);
        }
    }
}

/// Settings that are not stored are none, settings that could be read are handed on, and where they
/// could not be read the reader's words are.
pub proof fn law_settings_are_handed_on<S>(
    parsed: Option<Result<S, String>>,
    settings: Result<Option<S>, AppError>,
)
    requires
        call_ensures(outcome::select_workspace_settings::<S>, (parsed,), settings),
    ensures
        settings is Err <==> parsed matches Some(Err(_)),
        parsed is None ==> settings == Ok::<Option<S>, AppError>(None),
        parsed matches Some(Ok(value)) ==> settings == Ok::<Option<S>, AppError>(Some(value)),
        parsed matches Some(Err(words)) ==> settings == Err::<Option<S>, AppError>(
            AppError::Serde(words),
        ),
{
}

/// The digits of a number are those of its tenth and then its last digit; a number below ten is one
/// digit.
pub proof fn law_decimal(number: nat)
    ensures
        number < 10 ==> decimal(number) == seq![('0' as int + number) as char],
        number >= 10 ==> decimal(number) == decimal(number / 10).push(
            ('0' as int + number % 10) as char,
        ),
{
    if number >= 10 {
        assert(decimal(number % 10) =~= seq![('0' as int + number % 10) as char]);
        assert(decimal(number) =~= decimal(number / 10).push(
            ('0' as int + number % 10) as char,
        ));
    }
}

} // verus!
