//! What a caller can tell of each operation on invitations, column by column.

use vstd::hash_map::StringHashMap;
use vstd::prelude::*;

use crate::error::{AppError, DbError};
use crate::id::{Uuid, uuid_text};
use crate::invitation::{
    AFWorkspaceInvitation, AFWorkspaceInvitationMinimal, AFWorkspaceInvitationView,
    InvitationDefaults, address_and_id, get_invitation_by_id, has_id, insert_workspace_invitation,
    invitation_of, is_open, is_pending, minimal_of, select_workspace_invitations_for_user,
    select_workspace_pending_invitations, update_workspace_invitation_set_status_accepted, went_to,
};
use crate::laws::invitations::lemma_keyed;
use crate::laws::lookups::{law_email_by_uid, law_name_by_uid, law_uid_by_email};
use crate::lemmas::{
    lemma_each_chosen, lemma_none_chosen, lemma_places, lemma_same_chosen, lemma_whose_error,
};
use crate::relation::{each, lemma_each_ok};
use crate::tables::{Database, InvitationRecordView, Tables};
use crate::text::decimal;

verus! {

/// An invitation is added with the identifier, the workspace, the address and the role that it was
/// given, from the user who sent it, and with what the database fills in; nothing else is written.
pub proof fn law_insert_workspace_invitation(
    db: &mut Database,
    invite_id: Uuid,
    workspace_id: Uuid,
    inviter_uuid: Uuid,
    invitee_email: &str,
    role_id: i32,
    defaults: InvitationDefaults,
    result: Result<(), AppError>,
)
    requires
        call_ensures(
            insert_workspace_invitation,
            (db, &invite_id, &workspace_id, &inviter_uuid, invitee_email, role_id, defaults),
            result,
        ),
    ensures
        match old(db)@.uid_by_uuid(inviter_uuid) {
            Err(error) => result == Err::<(), AppError>(AppError::Database(error)) && final(db)@
                == old(db)@,
            Ok(inviter) => {
                &&& result is Ok
                &&& final(db)@ == (Tables { invitations: final(db)@.invitations, ..old(db)@ })
                &&& final(db)@.invitations.drop_last() == old(db)@.invitations
                &&& final(db)@.invitations.len() == old(db)@.invitations.len() + 1
                &&& final(db)@.invitations.last().id == invite_id
                &&& final(db)@.invitations.last().workspace_id == workspace_id
                &&& final(db)@.invitations.last().inviter == inviter
                &&& final(db)@.invitations.last().invitee_email == invitee_email@
                &&& final(db)@.invitations.last().role_id == role_id
                &&& final(db)@.invitations.last().status == defaults.status
                &&& final(db)@.invitations.last().updated_at == defaults.updated_at
            },
        },
{
    if old(db)@.uid_by_uuid(inviter_uuid) is Ok {
        assert(final(db)@.invitations.drop_last() =~= old(db)@.invitations);
    }
}

/// Accepting writes 1 as the status of the rows that have the identifier, went to the user's address
/// and had the status 0, and writes nothing else. It is answered with success where that was one
/// row, that none was found where it was none, and that more than one was where it was more.
pub proof fn law_update_workspace_invitation_set_status_accepted(
    db: &mut Database,
    invitee_uuid: Uuid,
    invite_id: Uuid,
    result: Result<(), AppError>,
)
    requires
        call_ensures(
            update_workspace_invitation_set_status_accepted,
            (db, &invitee_uuid, &invite_id),
            result,
        ),
        old(db)@.invitations.len() <= u64::MAX,
    ensures
        match old(db)@.email_by_uuid(invitee_uuid) {
            Err(error) => result == Err::<(), AppError>(AppError::Database(error)) && final(db)@
                == old(db)@,
            Ok(email) => {
                let open = old(db)@.invitations.filter(
                    |row: InvitationRecordView|
                        row.id == invite_id && Some(row.invitee_email) == email && row.status == 0,
                ).len();
                &&& final(db)@ == (Tables { invitations: final(db)@.invitations, ..old(db)@ })
                &&& final(db)@.invitations.len() == old(db)@.invitations.len()
                &&& forall|i: int|
                    0 <= i < old(db)@.invitations.len() ==> #[trigger] final(db)@.invitations[i]
                        == if old(db)@.invitations[i].id == invite_id && Some(
                        old(db)@.invitations[i].invitee_email,
                    ) == email && old(db)@.invitations[i].status == 0 {
                        InvitationRecordView { status: 1, ..old(db)@.invitations[i] }
                    } else {
                        old(db)@.invitations[i]
                    }
                &&& result is Ok <==> open == 1
                &&& open == 0 ==> {
                    &&& result matches Err(AppError::RecordNotFound(text))
                    &&& text@ == "Invitation not found, invitee_uuid: "@ + uuid_text(invitee_uuid)
                        + ", invite_id: "@ + uuid_text(invite_id)
                }
                &&& open > 1 ==> {
                    &&& result matches Err(AppError::Internal(text))
                    &&& text@ == "Expected 1 row to be affected, but "@ + decimal(open)
                        + " rows were affected"@
                }
            },
        },
{
    if let Ok(email) = old(db)@.email_by_uuid(invitee_uuid) {
        let rows = old(db)@.invitations;
        let open = |row: InvitationRecordView|
            row.id == invite_id && Some(row.invitee_email) == email && row.status == 0;
        lemma_same_chosen(rows, is_open(invite_id, email), open);
        rows.lemma_filter_len(open);
    }
}

/// An invitation is handed out with its own columns and the number of the user with its address;
/// the first with the identifier counts. There is an error where none has it, and where the address
/// of one that has it is ambiguous.
pub proof fn law_get_invitation_by_id(
    db: Database,
    invite_id: Uuid,
    result: Result<AFWorkspaceInvitationMinimal, AppError>,
)
    requires
        call_ensures(get_invitation_by_id, (&db, &invite_id), result),
    ensures
        (forall|i: int|
            0 <= i < db@.invitations.len() ==> (#[trigger] db@.invitations[i]).id != invite_id)
            ==> result == Err::<AFWorkspaceInvitationMinimal, AppError>(
            AppError::Database(DbError::RowNotFound),
        ),
        forall|i: int|
            0 <= i < db@.invitations.len() && (#[trigger] db@.invitations[i]).id == invite_id
                && db@.uid_by_email(db@.invitations[i].invitee_email) is Err ==> result == Err::<
                AFWorkspaceInvitationMinimal,
                AppError,
            >(AppError::Database(DbError::CardinalityViolation)),
        forall|i: int|
            #![trigger db@.invitations[i]]
            {
                &&& 0 <= i < db@.invitations.len()
                &&& db@.invitations[i].id == invite_id
                &&& forall|j: int| 0 <= j < i ==> (#[trigger] db@.invitations[j]).id != invite_id
                &&& forall|j: int|
                    0 <= j < db@.invitations.len() && (#[trigger] db@.invitations[j]).id
                        == invite_id ==> db@.uid_by_email(db@.invitations[j].invitee_email) is Ok
            } ==> {
                &&& result matches Ok(row)
                &&& row.workspace_id == db@.invitations[i].workspace_id
                &&& row.inviter_uid == db@.invitations[i].inviter
                &&& db@.uid_by_email(db@.invitations[i].invitee_email) == Ok::<
                    Option<i64>,
                    DbError,
                >(row.invitee_uid)
                &&& row.status == db@.invitations[i].status
                &&& row.role == db@.invitations[i].role_id
            },
{
    let rows = db@.invitations;
    let this = has_id(invite_id);
    let make = minimal_of(db@);
    lemma_none_chosen(rows, this);
    lemma_each_chosen(rows, this, make);
    assert forall|i: int| 0 <= i < rows.len() implies this(#[trigger] rows[i]) == (rows[i].id
        == invite_id) by {}
    assert forall|i: int| 0 <= i < rows.len() implies (make(#[trigger] rows[i]) is Err
        <==> db@.uid_by_email(rows[i].invitee_email) is Err) by {}
    assert forall|i: int| 0 <= i < rows.len() && make(#[trigger] rows[i]) is Err implies make(
        rows[i],
    ) == Err::<AFWorkspaceInvitationMinimal, DbError>(DbError::CardinalityViolation) by {
        law_uid_by_email(db@, rows[i].invitee_email);
    }
    if rows.any(this) {
        let i = choose|i: int| 0 <= i < rows.len() && #[trigger] this(rows[i]);
        assert(rows[i].id == invite_id);
    }
    assert forall|i: int|
        #![trigger db@.invitations[i]]
        {
            &&& 0 <= i < rows.len()
            &&& rows[i].id == invite_id
            &&& forall|j: int| 0 <= j < i ==> (#[trigger] rows[j]).id != invite_id
            &&& forall|j: int|
                0 <= j < rows.len() && (#[trigger] rows[j]).id == invite_id ==> db@.uid_by_email(
                    rows[j].invitee_email,
                ) is Ok
        } implies {
        &&& result matches Ok(row)
        &&& row.workspace_id == db@.invitations[i].workspace_id
        &&& row.inviter_uid == db@.invitations[i].inviter
        &&& db@.uid_by_email(db@.invitations[i].invitee_email) == Ok::<Option<i64>, DbError>(
            row.invitee_uid,
        )
        &&& row.status == db@.invitations[i].status
        &&& row.role == db@.invitations[i].role_id
    } by {
        assert forall|j: int| 0 <= j < i implies !this(#[trigger] rows[j]) by {}
        assert(this(rows[i]));
        assert(each(rows.filter(this), make) is Ok);
    }
}

/// Whether the names that an invitation is listed with can be told.
spec fn names_are_clear(tables: Tables, invitation: InvitationRecordView) -> bool {
    &&& tables.name_by_workspace(invitation.workspace_id) is Ok
    &&& tables.email_by_uid(invitation.inviter) is Ok
    &&& tables.name_by_uid(invitation.inviter) is Ok
}

/// A user's list has one row for each invitation to the user's address that has the status asked
/// for, in order, with the invitation's own columns, the name of its workspace, and the address and
/// the name of the user who sent it, whoever owns the workspace. There is an error where the user,
/// or one of these names, is ambiguous.
pub proof fn law_select_workspace_invitations_for_user(
    db: Database,
    invitee_uuid: Uuid,
    status_filter: Option<i16>,
    result: Result<Vec<AFWorkspaceInvitation>, AppError>,
) -> (at: Seq<int>)
    requires
        call_ensures(
            select_workspace_invitations_for_user,
            (&db, &invitee_uuid, status_filter),
            result,
        ),
    ensures
        db@.email_by_uuid(invitee_uuid) matches Err(error) ==> result == Err::<
            Vec<AFWorkspaceInvitation>,
            AppError,
        >(AppError::Database(error)),
        db@.email_by_uuid(invitee_uuid) matches Ok(email) ==> {
            &&& forall|k: int|
                0 <= k < at.len() ==> {
                    let invitation = db@.invitations[#[trigger] at[k]];
                    &&& 0 <= at[k] < db@.invitations.len()
                    &&& Some(invitation.invitee_email) == email
                    &&& status_filter is None || status_filter == Some(invitation.status)
                }
            &&& forall|i: int|
                0 <= i < db@.invitations.len() && Some(
                    (#[trigger] db@.invitations[i]).invitee_email,
                ) == email && (status_filter is None || status_filter == Some(
                    db@.invitations[i].status,
                )) ==> at.contains(i)
            &&& forall|k: int, l: int| 0 <= k < l < at.len() ==> at[k] < at[l]
            &&& result is Err <==> exists|k: int|
                {
                    let invitation = db@.invitations[#[trigger] at[k]];
                    &&& 0 <= k < at.len()
                    &&& {
                        ||| db@.name_by_workspace(invitation.workspace_id) is Err
                        ||| db@.email_by_uid(invitation.inviter) is Err
                        ||| db@.name_by_uid(invitation.inviter) is Err
                    }
                }
            &&& result matches Err(error) ==> error == AppError::Database(
                DbError::CardinalityViolation,
            )
            &&& result matches Ok(rows) ==> {
                &&& rows@.len() == at.len()
                &&& forall|k: int|
                    #![trigger rows@[k]]
                    #![trigger at[k]]
                    0 <= k < at.len() ==> {
                        let invitation = db@.invitations[at[k]];
                        &&& rows@[k].invite_id == invitation.id
                        &&& rows@[k].workspace_id == invitation.workspace_id
                        &&& db@.name_by_workspace(invitation.workspace_id) == Ok::<
                            Option<Seq<char>>,
                            DbError,
                        >(rows@[k].workspace_name.deep_view())
                        &&& db@.email_by_uid(invitation.inviter) == Ok::<
                            Option<Seq<char>>,
                            DbError,
                        >(rows@[k].inviter_email.deep_view())
                        &&& db@.name_by_uid(invitation.inviter) == Ok::<
                            Option<Seq<char>>,
                            DbError,
                        >(rows@[k].inviter_name.deep_view())
                        &&& rows@[k].status == invitation.status
                        &&& rows@[k].updated_at == invitation.updated_at
                    }
            }
        },
{
    if let Ok(email) = db@.email_by_uuid(invitee_uuid) {
        let asked = went_to(email, status_filter);
        let make = invitation_of(db@);
        let found = db@.invitations.filter(asked);
        let at = lemma_places(db@.invitations, asked);
        lemma_each_ok(found, make);
        lemma_whose_error(found, make);
        assert forall|i: int|
            0 <= i < db@.invitations.len() && Some((#[trigger] db@.invitations[i]).invitee_email)
                == email && (status_filter is None || status_filter == Some(
                db@.invitations[i].status,
            )) implies at.contains(i) by {
            assert(asked(db@.invitations[i]));
        }
        assert forall|k: int| 0 <= k < found.len() implies (make(#[trigger] found[k]) is Ok
            <==> names_are_clear(db@, db@.invitations[at[k]])) by {
            assert(found[k] == db@.invitations[at[k]]);
        }
        if let Err(error) = each(found, make) {
            let k = choose|k: int|
                0 <= k < found.len() && make(#[trigger] found[k]) == Err::<
                    AFWorkspaceInvitationView,
                    DbError,
                >(error);
            assert(found[k] == db@.invitations[at[k]]);
            assert(!names_are_clear(db@, db@.invitations[at[k]]));
        }
        if exists|k: int|
            0 <= k < at.len() && !names_are_clear(db@, db@.invitations[#[trigger] at[k]]) {
            let k = choose|k: int|
                0 <= k < at.len() && !names_are_clear(db@, db@.invitations[#[trigger] at[k]]);
            assert(make(found[k]) is Err);
        }
        if let Ok(rows) = result {
            let list = rows.deep_view();
            assert(list.len() == rows@.len());
            assert forall|k: int|
                #![trigger rows@[k]]
                #![trigger at[k]]
                0 <= k < at.len() implies {
                let invitation = db@.invitations[at[k]];
                &&& rows@[k].invite_id == invitation.id
                &&& rows@[k].workspace_id == invitation.workspace_id
                &&& db@.name_by_workspace(invitation.workspace_id) == Ok::<
                    Option<Seq<char>>,
                    DbError,
                >(rows@[k].workspace_name.deep_view())
                &&& db@.email_by_uid(invitation.inviter) == Ok::<Option<Seq<char>>, DbError>(
                    rows@[k].inviter_email.deep_view(),
                )
                &&& db@.name_by_uid(invitation.inviter) == Ok::<Option<Seq<char>>, DbError>(
                    rows@[k].inviter_name.deep_view(),
                )
                &&& rows@[k].status == invitation.status
                &&& rows@[k].updated_at == invitation.updated_at
            } by {
                assert(list[k] == rows@[k].deep_view());
                assert(make(found[k]) == Ok::<AFWorkspaceInvitationView, DbError>(list[k]));
                assert(found[k] == db@.invitations[at[k]]);
            }
        }
        at
    } else {
        Seq::empty()
    }
}

/// After one user has sent another an invitation, the list of the other shows it as sent by the one,
/// with the address and the name that stand in the one's row, whoever owns the workspace.
pub proof fn law_sender_is_named(
    db: &mut Database,
    invite_id: Uuid,
    workspace_id: Uuid,
    inviter_uuid: Uuid,
    invitee_email: &str,
    role_id: i32,
    defaults: InvitationDefaults,
    sent: Result<(), AppError>,
    inviter: int,
    invitee: int,
    invitee_uuid: Uuid,
    listed: Result<Vec<AFWorkspaceInvitation>, AppError>,
)
    requires
        call_ensures(
            insert_workspace_invitation,
            (db, &invite_id, &workspace_id, &inviter_uuid, invitee_email, role_id, defaults),
            sent,
        ),
        call_ensures(
            select_workspace_invitations_for_user,
            (&*final(db), &invitee_uuid, None::<i16>),
            listed,
        ),
        0 <= inviter < old(db)@.users.len(),
        old(db)@.users[inviter].uuid == inviter_uuid,
        forall|j: int|
            0 <= j < old(db)@.users.len() && j != inviter ==> (#[trigger] old(db)@.users[j]).uuid
                != inviter_uuid && old(db)@.users[j].uid != old(db)@.users[inviter].uid,
        0 <= invitee < old(db)@.users.len(),
        old(db)@.users[invitee].uuid == invitee_uuid,
        old(db)@.users[invitee].email == invitee_email@,
        forall|j: int|
            0 <= j < old(db)@.users.len() && j != invitee ==> (#[trigger] old(db)@.users[j]).uuid
                != invitee_uuid,
    ensures
        sent is Ok,
        listed matches Ok(rows) ==> exists|k: int|
            {
                &&& 0 <= k < rows@.len()
                &&& (#[trigger] rows@[k]).invite_id == invite_id
                &&& rows@[k].workspace_id == workspace_id
                &&& rows@[k].inviter_email.deep_view() == Some(old(db)@.users[inviter].email)
                &&& rows@[k].inviter_name.deep_view() == Some(old(db)@.users[inviter].name)
                &&& rows@[k].status == defaults.status
                &&& rows@[k].updated_at == defaults.updated_at
            },
{
    let t = old(db)@;
    let after = *final(db);
    let uid = t.users[inviter].uid;
    crate::laws::lookups::law_uid_by_uuid(t, inviter_uuid);
    crate::laws::lookups::law_email_by_uuid(after@, invitee_uuid);
    law_insert_workspace_invitation(
        db,
        invite_id,
        workspace_id,
        inviter_uuid,
        invitee_email,
        role_id,
        defaults,
        sent,
    );
    assert(t.uid_by_uuid(inviter_uuid) == Ok::<Option<i64>, DbError>(Some(uid)));
    assert(after@.users == t.users);
    assert(after@.users[invitee].uuid == invitee_uuid);
    assert(after@.email_by_uuid(invitee_uuid) == Ok::<Option<Seq<char>>, DbError>(
        Some(invitee_email@),
    ));
    law_email_by_uid(after@, Some(uid));
    law_name_by_uid(after@, Some(uid));
    assert(after@.users[inviter].uid == uid);
    let at = law_select_workspace_invitations_for_user(after, invitee_uuid, None, listed);
    let n = after@.invitations.len() - 1;
    assert(after@.invitations[n] == after@.invitations.last());
    assert(at.contains(n));
    let k = choose|k: int| 0 <= k < at.len() && at[k] == n;
    if let Ok(rows) = listed {
        assert(rows@[k].invite_id == invite_id);
    }
}

/// An address has something pending exactly when a row has the workspace, the address and the status
/// 0, and what it has pending is the last such row.
pub proof fn law_select_workspace_pending_invitations(
    db: Database,
    workspace_id: Uuid,
    result: Result<StringHashMap<Uuid>, AppError>,
    email: Seq<char>,
)
    requires
        call_ensures(select_workspace_pending_invitations, (&db, &workspace_id), result),
    ensures
        result is Ok,
        result->Ok_0@.contains_key(email) <==> exists|i: int|
            {
                &&& 0 <= i < db@.invitations.len()
                &&& (#[trigger] db@.invitations[i]).workspace_id == workspace_id
                &&& db@.invitations[i].invitee_email == email
                &&& db@.invitations[i].status == 0
            },
        forall|i: int|
            #![trigger db@.invitations[i]]
            {
                &&& 0 <= i < db@.invitations.len()
                &&& db@.invitations[i].workspace_id == workspace_id
                &&& db@.invitations[i].invitee_email == email
                &&& db@.invitations[i].status == 0
                &&& forall|j: int|
                    i < j < db@.invitations.len() ==> !((#[trigger] db@.invitations[j]).workspace_id
                        == workspace_id && db@.invitations[j].invitee_email == email
                        && db@.invitations[j].status == 0)
            } ==> result->Ok_0@[email] == db@.invitations[i].id,
{
    let rows = db@.invitations;
    let asked = is_pending(workspace_id);
    let found = rows.filter(asked);
    let at = lemma_places(rows, asked);
    let keys = found.map_values(address_and_id());
    lemma_keyed(keys, email);
    assert forall|k: int| 0 <= k < keys.len() implies {
        &&& (#[trigger] keys[k]).0 == rows[at[k]].invitee_email
        &&& keys[k].1 == rows[at[k]].id
        &&& 0 <= at[k] < rows.len()
        &&& rows[at[k]].workspace_id == workspace_id
        &&& rows[at[k]].status == 0
    } by {
        assert(found[k] == rows[at[k]]);
    }
    if result->Ok_0@.contains_key(email) {
        let k = choose|k: int| 0 <= k < keys.len() && (#[trigger] keys[k]).0 == email;
        assert(rows[at[k]].invitee_email == email);
    }
    if exists|i: int|
        {
            &&& 0 <= i < rows.len()
            &&& (#[trigger] rows[i]).workspace_id == workspace_id
            &&& rows[i].invitee_email == email
            &&& rows[i].status == 0
        } {
        let i = choose|i: int|
            {
                &&& 0 <= i < rows.len()
                &&& (#[trigger] rows[i]).workspace_id == workspace_id
                &&& rows[i].invitee_email == email
                &&& rows[i].status == 0
            };
        assert(asked(rows[i]));
        let k = choose|k: int| 0 <= k < at.len() && at[k] == i;
        assert(keys[k].0 == email);
    }
    assert forall|i: int|
        #![trigger db@.invitations[i]]
        {
            &&& 0 <= i < rows.len()
            &&& rows[i].workspace_id == workspace_id
            &&& rows[i].invitee_email == email
            &&& rows[i].status == 0
            &&& forall|j: int|
                i < j < rows.len() ==> !((#[trigger] rows[j]).workspace_id == workspace_id
                    && rows[j].invitee_email == email && rows[j].status == 0)
        } implies result->Ok_0@[email] == db@.invitations[i].id by {
        assert(asked(rows[i]));
        let k = choose|k: int| 0 <= k < at.len() && at[k] == i;
        assert(keys[k].0 == email);
        let m = choose|m: int|
            {
                &&& 0 <= m < keys.len()
                &&& (#[trigger] keys[m]).0 == email
                &&& keys[m].1 == crate::outcome::keyed(keys)[email]
                &&& forall|l: int| m < l < keys.len() ==> (#[trigger] keys[l]).0 != email
            };
        if m < k {
            assert(keys[k].0 != email);
        } else if k < m {
            assert(at[k] < at[m]);
            assert(rows[at[m]].invitee_email == email);
        }
    }
}

} // verus!
