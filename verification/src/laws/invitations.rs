//! Invitations.

use vstd::prelude::*;

use crate::error::{AppErrorView, DbError};
use crate::id::Uuid;
use crate::invitation::{
    AFWorkspaceInvitationMinimal, AFWorkspaceInvitationView, InvitationDefaults, STATUS_ACCEPTED,
    STATUS_PENDING, accepted, accepting, address_and_id, has_id, invitation_found, invitation_of,
    invitations_found, inviting, is_open, is_pending, minimal_of, pending, went_to,
};
use crate::lemmas::{
    lemma_chosen, lemma_chosen_after_push, lemma_each_of_chosen, lemma_none_chosen,
    lemma_nothing_changed,
};
use crate::outcome::{acceptance, keyed};
use crate::relation::lemma_each_ok;
use crate::tables::{InvitationRecordView, Tables};

verus! {

/// A sent invitation whose address names at most one user is found, with the workspace, the role
/// and the sender that it was given, unless its identifier was in use: then what was found under it
/// before is found. Where the address names several users, reading it is an error.
pub proof fn law_sent_invitation_is_found(
    tables: Tables,
    invite_id: Uuid,
    workspace_id: Uuid,
    inviter_uuid: Uuid,
    invitee_email: Seq<char>,
    role_id: i32,
    defaults: InvitationDefaults,
)
    ensures
        inviting(
            tables,
            invite_id,
            workspace_id,
            inviter_uuid,
            invitee_email,
            role_id,
            defaults,
        ) matches Ok(sent) ==> match tables.uid_by_email(invitee_email) {
            Ok(invitee_uid) => invitation_found(sent, invite_id) == if tables.invitations.any(
                has_id(invite_id),
            ) {
                invitation_found(tables, invite_id)
            } else {
                Ok(
                    AFWorkspaceInvitationMinimal {
                        workspace_id,
                        inviter_uid: tables.uid_by_uuid(inviter_uuid)->Ok_0,
                        invitee_uid,
                        status: defaults.status,
                        role: role_id,
                    },
                )
            },
            Err(_) => invitation_found(sent, invite_id) is Err,
        },
{
    let invited = inviting(
        tables,
        invite_id,
        workspace_id,
        inviter_uuid,
        invitee_email,
        role_id,
        defaults,
    );
    if invited is Ok {
        let sent = invited->Ok_0;
        let row = sent.invitations.last();
        lemma_found_after_push(tables, sent, tables.invitations, row, invite_id);
    }
}

/// What is found under an identifier after an invitation with it was added to `rows`.
proof fn lemma_found_after_push(
    tables: Tables,
    after: Tables,
    rows: Seq<InvitationRecordView>,
    row: InvitationRecordView,
    invite_id: Uuid,
)
    requires
        after.users == tables.users,
        after.invitations == rows.push(row),
        row.id == invite_id,
    ensures
        minimal_of(tables)(row) matches Ok(minimal) ==> invitation_found(after, invite_id)
            == if rows.any(has_id(invite_id)) {
            invitation_found(Tables { invitations: rows, ..tables }, invite_id)
        } else {
            Ok(minimal)
        },
        minimal_of(tables)(row) is Err ==> invitation_found(after, invite_id) is Err,
{
    let this = has_id(invite_id);
    let before = rows.filter(this);
    let found = after.invitations.filter(this);
    let make = minimal_of(tables);
    lemma_none_chosen(rows, this);
    lemma_chosen_after_push(rows, row, this);
    assert(found.drop_last() =~= before);
    assert(minimal_of(after) =~= make);
    assert(minimal_of(Tables { invitations: rows, ..tables }) =~= make);
    lemma_each_ok(before, make);
}

/// A sent invitation whose address names at most one user is found, once accepted, as it was sent,
/// but accepted, unless its identifier was in use: then what accepting leaves of the one that was
/// found before is found.
pub proof fn law_accepted_invitation_is_found(
    tables: Tables,
    invite_id: Uuid,
    workspace_id: Uuid,
    inviter_uuid: Uuid,
    invitee_email: Seq<char>,
    role_id: i32,
    defaults: InvitationDefaults,
    invitee_uuid: Uuid,
)
    ensures
        inviting(
            tables,
            invite_id,
            workspace_id,
            inviter_uuid,
            invitee_email,
            role_id,
            defaults,
        ) matches Ok(sent) ==> accepting(sent, invitee_uuid, invite_id).0 is Ok ==> {
            let after = accepting(sent, invitee_uuid, invite_id).1;
            match tables.uid_by_email(invitee_email) {
                Ok(invitee_uid) => invitation_found(after, invite_id)
                    == if tables.invitations.any(has_id(invite_id)) {
                    invitation_found(accepting(tables, invitee_uuid, invite_id).1, invite_id)
                } else {
                    Ok(
                        AFWorkspaceInvitationMinimal {
                            workspace_id,
                            inviter_uid: tables.uid_by_uuid(inviter_uuid)->Ok_0,
                            invitee_uid,
                            status: STATUS_ACCEPTED,
                            role: role_id,
                        },
                    )
                },
                Err(_) => invitation_found(after, invite_id) is Err,
            }
        },
{
    let invited = inviting(
        tables,
        invite_id,
        workspace_id,
        inviter_uuid,
        invitee_email,
        role_id,
        defaults,
    );
    if invited is Ok && accepting(invited->Ok_0, invitee_uuid, invite_id).0 is Ok {
        let sent = invited->Ok_0;
        let row = sent.invitations.last();
        let after = accepting(sent, invitee_uuid, invite_id).1;
        let alone = accepting(tables, invitee_uuid, invite_id).1;
        let email = sent.email_by_uuid(invitee_uuid)->Ok_0;
        let open = is_open(invite_id, email);
        let this = has_id(invite_id);
        let new_row = if open(row) {
            accepted()(row)
        } else {
            row
        };
        assert(sent.email_by_uuid(invitee_uuid) == tables.email_by_uuid(invitee_uuid));
        assert(after.invitations =~= alone.invitations.push(new_row));
        if tables.invitations.any(this) {
            let k = choose|k: int|
                0 <= k < tables.invitations.len() && #[trigger] this(tables.invitations[k]);
            assert(this(alone.invitations[k]));
        } else {
            lemma_none_chosen(sent.invitations, open);
            let k = choose|k: int|
                0 <= k < sent.invitations.len() && #[trigger] open(sent.invitations[k]);
            if k < tables.invitations.len() {
                assert(!this(tables.invitations[k]));
            }
            assert(open(row));
            if alone.invitations.any(this) {
                let k = choose|k: int|
                    0 <= k < alone.invitations.len() && #[trigger] this(alone.invitations[k]);
                assert(this(tables.invitations[k]));
            }
        }
        lemma_found_after_push(alone, after, alone.invitations, new_row, invite_id);
        assert(alone.uid_by_email(invitee_email) == tables.uid_by_email(invitee_email));
    }
}

/// An invitation that was never sent is not found.
pub proof fn law_unknown_invitation_is_not_found(tables: Tables, invite_id: Uuid)
    requires
        !tables.invitations.any(has_id(invite_id)),
    ensures
        invitation_found(tables, invite_id) == Err::<AFWorkspaceInvitationMinimal, DbError>(
            DbError::RowNotFound,
        ),
{
    lemma_none_chosen(tables.invitations, has_id(invite_id));
}

/// An invitation that is sent unanswered is the one that the workspace has pending for the
/// address.
pub proof fn law_sent_invitation_is_pending(
    tables: Tables,
    invite_id: Uuid,
    workspace_id: Uuid,
    inviter_uuid: Uuid,
    invitee_email: Seq<char>,
    role_id: i32,
    defaults: InvitationDefaults,
)
    requires
        defaults.status == STATUS_PENDING,
    ensures
        inviting(
            tables,
            invite_id,
            workspace_id,
            inviter_uuid,
            invitee_email,
            role_id,
            defaults,
        ) matches Ok(after) ==> pending(after, workspace_id) == pending(
            tables,
            workspace_id,
        ).insert(invitee_email, invite_id),
{
    if let Ok(inviter) = tables.uid_by_uuid(inviter_uuid) {
        let after = inviting(
            tables,
            invite_id,
            workspace_id,
            inviter_uuid,
            invitee_email,
            role_id,
            defaults,
        )->Ok_0;
        let sent = after.invitations.last();
        let before = tables.invitations.filter(is_pending(workspace_id));
        lemma_chosen_after_push(tables.invitations, sent, is_pending(workspace_id));
        let rows = before.push(sent).map_values(address_and_id());
        assert(rows.drop_last() =~= before.map_values(address_and_id()));
    }
}

/// An invitation is accepted once: trying again finds none and changes nothing.
pub proof fn law_invitation_is_accepted_once(tables: Tables, invitee_uuid: Uuid, invite_id: Uuid)
    requires
        tables.email_by_uuid(invitee_uuid) is Ok,
    ensures
        accepting(
            accepting(tables, invitee_uuid, invite_id).1,
            invitee_uuid,
            invite_id,
        ) == (acceptance(0, invitee_uuid, invite_id), accepting(tables, invitee_uuid, invite_id).1),
        accepting(
            accepting(tables, invitee_uuid, invite_id).1,
            invitee_uuid,
            invite_id,
        ).0 matches Err(AppErrorView::RecordNotFound(_)),
{
    let after = accepting(tables, invitee_uuid, invite_id).1;
    let email = tables.email_by_uuid(invitee_uuid)->Ok_0;
    let open = is_open(invite_id, email);
    assert(after.email_by_uuid(invitee_uuid) == tables.email_by_uuid(invitee_uuid));
    if after.invitations.any(open) {
        let k = choose|k: int|
            0 <= k < after.invitations.len() && #[trigger] open(after.invitations[k]);
        assert(open(tables.invitations[k]));
    }
    lemma_none_chosen(after.invitations, open);
    lemma_nothing_changed(after.invitations, open, accepted());
}

/// Accepting succeeds for one unanswered invitation to the user's address, and is answered that
/// none was found where there is none.
pub proof fn law_when_an_invitation_is_accepted(
    tables: Tables,
    invitee_uuid: Uuid,
    invite_id: Uuid,
    email: Option<Seq<char>>,
)
    requires
        tables.email_by_uuid(invitee_uuid) == Ok::<Option<Seq<char>>, DbError>(email),
        tables.invitations.len() <= u64::MAX,
    ensures
        accepting(tables, invitee_uuid, invite_id).0 is Ok <==> tables.invitations.filter(
            is_open(invite_id, email),
        ).len() == 1,
        accepting(tables, invitee_uuid, invite_id).0 matches Err(AppErrorView::RecordNotFound(_))
            <==> !tables.invitations.any(is_open(invite_id, email)),
{
    tables.invitations.lemma_filter_len(is_open(invite_id, email));
    lemma_none_chosen(tables.invitations, is_open(invite_id, email));
}

/// Accepting takes an invitation from unanswered to accepted and alters nothing else of it; what
/// is not an unanswered invitation under the identifier stays as it is.
pub proof fn law_accepting_alters_the_status_only(
    tables: Tables,
    invitee_uuid: Uuid,
    invite_id: Uuid,
    i: int,
)
    requires
        0 <= i < tables.invitations.len(),
    ensures
        ({
            let before = tables.invitations[i];
            let after = accepting(tables, invitee_uuid, invite_id).1.invitations[i];
            ||| after == before
            ||| before.id == invite_id && before.status == STATUS_PENDING && after == (
                InvitationRecordView { status: STATUS_ACCEPTED, ..before })
        }),
        accepting(tables, invitee_uuid, invite_id).1.invitations.len() == tables.invitations.len(),
{
}

/// An accepted invitation is no longer among those that its workspace has pending.
pub proof fn law_accepted_invitation_is_not_pending(
    tables: Tables,
    invitee_uuid: Uuid,
    invite_id: Uuid,
    workspace_id: Uuid,
    email: Seq<char>,
)
    requires
        tables.email_by_uuid(invitee_uuid) == Ok::<Option<Seq<char>>, DbError>(Some(email)),
    ensures
        pending(accepting(tables, invitee_uuid, invite_id).1, workspace_id).contains_key(email)
            ==> pending(accepting(tables, invitee_uuid, invite_id).1, workspace_id)[email]
            != invite_id,
{
    let after = accepting(tables, invitee_uuid, invite_id).1;
    let asked = is_pending(workspace_id);
    let found = after.invitations.filter(asked);
    let rows = found.map_values(address_and_id());
    if pending(after, workspace_id).contains_key(email) {
        lemma_keyed(rows, email);
        let i = choose|i: int|
            0 <= i < rows.len() && (#[trigger] rows[i]).0 == email && rows[i].1 == keyed(
                rows,
            )[email];
        lemma_chosen(after.invitations, asked, i);
        let k = choose|k: int|
            0 <= k < after.invitations.len() && after.invitations[k] == found[i];
        assert(after.invitations[k].status == STATUS_PENDING);
        assert(!is_open(invite_id, Some(email))(tables.invitations[k]));
    }
}

/// Which address has an entry, and that the last row of an address is its entry.
pub proof fn lemma_keyed(rows: Seq<(Seq<char>, Uuid)>, email: Seq<char>)
    ensures
        keyed(rows).contains_key(email) <==> exists|i: int|
            0 <= i < rows.len() && (#[trigger] rows[i]).0 == email,
        keyed(rows).contains_key(email) ==> exists|i: int|
            {
                &&& 0 <= i < rows.len()
                &&& (#[trigger] rows[i]).0 == email
                &&& rows[i].1 == keyed(rows)[email]
                &&& forall|j: int| i < j < rows.len() ==> (#[trigger] rows[j]).0 != email
            },
    decreases rows.len(),
{
    if rows.len() > 0 {
        let front = rows.drop_last();
        lemma_keyed(front, email);
        if rows.last().0 == email {
            assert(rows[rows.len() - 1].0 == email);
        } else {
            if keyed(front).contains_key(email) {
                let i = choose|i: int|
                    {
                        &&& 0 <= i < front.len()
                        &&& (#[trigger] front[i]).0 == email
                        &&& front[i].1 == keyed(front)[email]
                        &&& forall|j: int| i < j < front.len() ==> (#[trigger] front[j]).0 != email
                    };
                assert(rows[i].0 == email);
                assert forall|j: int| i < j < rows.len() implies (#[trigger] rows[j]).0
                    != email by {
                    if j < front.len() {
                        assert(front[j].0 != email);
                    }
                }
            }
            if exists|i: int| 0 <= i < rows.len() && (#[trigger] rows[i]).0 == email {
                let i = choose|i: int| 0 <= i < rows.len() && (#[trigger] rows[i]).0 == email;
                assert(front[i].0 == email);
            }
        }
    }
}

/// An address has something pending exactly when an unanswered invitation to the workspace went
/// to it, and what it has pending is such an invitation.
pub proof fn law_pending_are_the_unanswered(
    tables: Tables,
    workspace_id: Uuid,
    email: Seq<char>,
)
    ensures
        pending(tables, workspace_id).contains_key(email) <==> exists|k: int|
            {
                &&& 0 <= k < tables.invitations.len()
                &&& is_pending(workspace_id)(#[trigger] tables.invitations[k])
                &&& tables.invitations[k].invitee_email == email
            },
        pending(tables, workspace_id).contains_key(email) ==> exists|k: int|
            {
                &&& 0 <= k < tables.invitations.len()
                &&& is_pending(workspace_id)(#[trigger] tables.invitations[k])
                &&& tables.invitations[k].invitee_email == email
                &&& tables.invitations[k].id == pending(tables, workspace_id)[email]
            },
{
    let asked = is_pending(workspace_id);
    let found = tables.invitations.filter(asked);
    let rows = found.map_values(address_and_id());
    lemma_keyed(rows, email);
    if pending(tables, workspace_id).contains_key(email) {
        let i = choose|i: int|
            0 <= i < rows.len() && (#[trigger] rows[i]).0 == email && rows[i].1 == keyed(
                rows,
            )[email];
        lemma_chosen(tables.invitations, asked, i);
        let k = choose|k: int|
            0 <= k < tables.invitations.len() && tables.invitations[k] == found[i];
        assert(asked(tables.invitations[k]));
    }
    if exists|k: int|
        {
            &&& 0 <= k < tables.invitations.len()
            &&& asked(#[trigger] tables.invitations[k])
            &&& tables.invitations[k].invitee_email == email
        } {
        let k = choose|k: int|
            {
                &&& 0 <= k < tables.invitations.len()
                &&& asked(#[trigger] tables.invitations[k])
                &&& tables.invitations[k].invitee_email == email
            };
        tables.invitations.lemma_filter_contains(asked, k);
        let i = choose|i: int| 0 <= i < found.len() && found[i] == tables.invitations[k];
        assert(rows[i].0 == email);
    }
}

/// The list of a user's invitations of one status is the list of them all without those of another
/// status.
pub proof fn law_status_narrows_the_list(tables: Tables, invitee_uuid: Uuid, status: i16)
    ensures
        invitations_found(tables, invitee_uuid, None) matches Ok(all) ==> invitations_found(
            tables,
            invitee_uuid,
            Some(status),
        ) == Ok::<Seq<AFWorkspaceInvitationView>, DbError>(
            all.filter(|row: AFWorkspaceInvitationView| row.status == status),
        ),
{
    if let Ok(email) = tables.email_by_uuid(invitee_uuid) {
        let asked = |invitation: InvitationRecordView| invitation.status == status;
        let shown = |row: AFWorkspaceInvitationView| row.status == status;
        lemma_narrowed(tables.invitations, email, status);
        if invitations_found(tables, invitee_uuid, None) is Ok {
            lemma_each_of_chosen(
                tables.invitations.filter(went_to(email, None)),
                invitation_of(tables),
                asked,
                shown,
            );
        }
    }
}

proof fn lemma_narrowed(
    invitations: Seq<InvitationRecordView>,
    email: Option<Seq<char>>,
    status: i16,
)
    ensures
        invitations.filter(went_to(email, Some(status))) == invitations.filter(
            went_to(email, None),
        ).filter(|invitation: InvitationRecordView| invitation.status == status),
    decreases invitations.len(),
{
    reveal(Seq::filter);
    if invitations.len() > 0 {
        let front = invitations.drop_last();
        let last = invitations.last();
        lemma_narrowed(front, email, status);
        lemma_chosen_after_push(
            front.filter(went_to(email, None)),
            last,
            |invitation: InvitationRecordView| invitation.status == status,
        );
    }
}

} // verus!
