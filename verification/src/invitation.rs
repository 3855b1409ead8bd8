//! Invitations to workspaces.

use vstd::hash_map::StringHashMap;
use vstd::prelude::*;

use crate::error::{AppError, AppErrorView, DbError, handed_on, seen};
use crate::id::Uuid;
use crate::outcome;
use crate::outcome::{acceptance, keyed};
use crate::relation::{
    changed, each, each_row, fetch_all, fetch_one, first_of, plain, positions, then_make,
    update_where,
};
use crate::tables::{
    InvitationRecord, InvitationRecordView, Database, Tables, is_text, wrote,
};

verus! {

/// The status of an invitation that was not answered.
pub const STATUS_PENDING: i16 = 0;

/// The status of an invitation that was accepted.
pub const STATUS_ACCEPTED: i16 = 1;

/// What the database fills in for a new invitation.
#[derive(Clone, Copy, Debug, PartialEq)]
pub struct InvitationDefaults {
    pub status: i16,
    pub updated_at: i64,
}

/// What inviting does to the tables.
pub open spec fn inviting(
    tables: Tables,
    invite_id: Uuid,
    workspace_id: Uuid,
    inviter_uuid: Uuid,
    invitee_email: Seq<char>,
    role_id: i32,
    defaults: InvitationDefaults,
) -> Result<Tables, DbError> {
    then_make(
        tables.uid_by_uuid(inviter_uuid),
        |inviter: Option<i64>|
            Tables {
                invitations: tables.invitations.push(
                    InvitationRecordView {
                        id: invite_id,
                        workspace_id,
                        inviter,
                        invitee_email,
                        role_id,
                        status: defaults.status,
                        updated_at: defaults.updated_at,
                    },
                ),
                ..tables
            },
    )
}

/// Invites the owner of an address to a workspace in the name of a user.
pub fn insert_workspace_invitation(
    db: &mut Database,
    invite_id: &Uuid,
    workspace_id: &Uuid,
    inviter_uuid: &Uuid,
    invitee_email: &str,
    role_id: i32,
    defaults: InvitationDefaults,
) -> (result: Result<(), AppError>)
    ensures
        wrote(
            result,
            old(db)@,
            final(db)@,
            handed_on(
                inviting(
                    old(db)@,
                    *invite_id,
                    *workspace_id,
                    *inviter_uuid,
                    invitee_email@,
                    role_id,
                    defaults,
                ),
            ),
        ),
{
    let ghost before = db@;
    match db.uid_by_uuid(inviter_uuid) {
        Ok(inviter) => {
            let invitation = InvitationRecord {
                id: *invite_id,
                workspace_id: *workspace_id,
                inviter,
                invitee_email: invitee_email.to_owned(),
                role_id,
                status: defaults.status,
                updated_at: defaults.updated_at,
            };
            let ghost row = invitation.deep_view();
            db.invitations.push(invitation);
            assert(db@.invitations =~= before.invitations.push(row));
            assert(db@ =~= (Tables { invitations: before.invitations.push(row), ..before }));
            Ok(())
        },
        Err(error) => Err(AppError::Database(error)),
    }
}

/// An unanswered invitation that went to the address.
pub open spec fn is_open(invite_id: Uuid, email: Option<Seq<char>>) -> spec_fn(
    InvitationRecordView,
) -> bool {
    |invitation: InvitationRecordView|
        Some(invitation.invitee_email) == email && invitation.id == invite_id && invitation.status
            == STATUS_PENDING
}

pub open spec fn accepted() -> spec_fn(InvitationRecordView) -> InvitationRecordView {
    |invitation: InvitationRecordView|
        InvitationRecordView { status: STATUS_ACCEPTED, ..invitation }
}

fn is_address(address: &String, email: &Option<String>) -> (same: bool)
    ensures
        same == (Some(address@) == email.deep_view()),
{
    is_text(email, address)
}

/// What accepting an invitation answers and leaves behind.
pub open spec fn accepting(tables: Tables, invitee_uuid: Uuid, invite_id: Uuid) -> (
    Result<(), AppErrorView>,
    Tables,
) {
    match tables.email_by_uuid(invitee_uuid) {
        Ok(email) => (
            acceptance(
                tables.invitations.filter(is_open(invite_id, email)).len() as u64,
                invitee_uuid,
                invite_id,
            ),
            Tables {
                invitations: changed(tables.invitations, is_open(invite_id, email), accepted()),
                ..tables
            },
        ),
        Err(error) => (Err(AppErrorView::Database(error)), tables),
    }
}

/// Accepts an invitation for the user whom it went to. It fails when no such invitation is
/// unanswered.
pub fn update_workspace_invitation_set_status_accepted(
    db: &mut Database,
    invitee_uuid: &Uuid,
    invite_id: &Uuid,
) -> (result: Result<(), AppError>)
    ensures
        (seen(result), final(db)@) == accepting(old(db)@, *invitee_uuid, *invite_id),
{
    let email: Option<String> = match db.email_by_uuid(invitee_uuid) {
        Ok(email) => email,
        Err(error) => {
            return Err(AppError::Database(error));
        },
    };
    let ghost address = email.deep_view();
    let keep = |invitation: &InvitationRecord| -> (kept: bool)
        ensures
            kept == is_open(*invite_id, email.deep_view())(invitation.deep_view()),
    {
        is_address(&invitation.invitee_email, &email) && invitation.id == *invite_id
            && invitation.status == STATUS_PENDING
    };
    let change = |invitation: &InvitationRecord| -> (made: InvitationRecord)
        ensures
            made.deep_view() == accepted()(invitation.deep_view()),
    {
        InvitationRecord {
            status: STATUS_ACCEPTED,
            invitee_email: invitation.invitee_email.clone(),
            ..*invitation
        }
    };
    let count: usize = update_where(
        &mut db.invitations,
        keep,
        change,
        Ghost(is_open(*invite_id, address)),
        Ghost(accepted()),
    );
    outcome::update_workspace_invitation_set_status_accepted(
        count as u64,
        invitee_uuid,
        invite_id,
    )
}

/// What accepting an invitation needs to know of it.
#[derive(Clone, Copy, Debug, PartialEq)]
pub struct AFWorkspaceInvitationMinimal {
    pub workspace_id: Uuid,
    pub inviter_uid: Option<i64>,
    pub invitee_uid: Option<i64>,
    pub status: i16,
    pub role: i32,
}

impl DeepView for AFWorkspaceInvitationMinimal {
    type V = AFWorkspaceInvitationMinimal;

    open spec fn deep_view(&self) -> AFWorkspaceInvitationMinimal {
        *self
    }
}

pub open spec fn has_id(invite_id: Uuid) -> spec_fn(InvitationRecordView) -> bool {
    |invitation: InvitationRecordView| invitation.id == invite_id
}

pub open spec fn minimal_of(tables: Tables) -> spec_fn(InvitationRecordView) -> Result<
    AFWorkspaceInvitationMinimal,
    DbError,
> {
    |invitation: InvitationRecordView|
        then_make(
            tables.uid_by_email(invitation.invitee_email),
            |invitee_uid: Option<i64>|
                AFWorkspaceInvitationMinimal {
                    workspace_id: invitation.workspace_id,
                    inviter_uid: invitation.inviter,
                    invitee_uid,
                    status: invitation.status,
                    role: invitation.role_id,
                },
        )
}

/// The invitation as it is handed out.
pub open spec fn invitation_found(tables: Tables, invite_id: Uuid) -> Result<
    AFWorkspaceInvitationMinimal,
    DbError,
> {
    first_of(each(tables.invitations.filter(has_id(invite_id)), minimal_of(tables)))
}

/// An invitation.
pub fn get_invitation_by_id(db: &Database, invite_id: &Uuid) -> (result: Result<
    AFWorkspaceInvitationMinimal,
    AppError,
>)
    ensures
        seen(result) == handed_on(invitation_found(db@, *invite_id)),
{
    let keep = |invitation: &InvitationRecord| -> (kept: bool)
        ensures
            kept == has_id(*invite_id)(invitation.deep_view()),
    { invitation.id == *invite_id };
    let found = positions(&db.invitations, keep, Ghost(has_id(*invite_id)));
    let make = |invitation: &InvitationRecord| -> (made: Result<
        AFWorkspaceInvitationMinimal,
        DbError,
    >)
        ensures
            plain(made) == minimal_of(db@)(invitation.deep_view()),
    {
        match db.uid_by_email(&invitation.invitee_email) {
            Ok(invitee_uid) => Ok(
                AFWorkspaceInvitationMinimal {
                    workspace_id: invitation.workspace_id,
                    inviter_uid: invitation.inviter,
                    invitee_uid,
                    status: invitation.status,
                    role: invitation.role_id,
                },
            ),
            Err(error) => Err(error),
        }
    };
    fetch_one(each_row(&db.invitations, &found, make, Ghost(minimal_of(db@))))
}

/// An invitation with the names of its workspace and of who sent it.
#[derive(Debug, PartialEq)]
pub struct AFWorkspaceInvitation {
    pub invite_id: Uuid,
    pub workspace_id: Uuid,
    pub workspace_name: Option<String>,
    pub inviter_email: Option<String>,
    pub inviter_name: Option<String>,
    pub status: i16,
    pub updated_at: i64,
}

/// [`AFWorkspaceInvitation`] with its texts as sequences.
pub struct AFWorkspaceInvitationView {
    pub invite_id: Uuid,
    pub workspace_id: Uuid,
    pub workspace_name: Option<Seq<char>>,
    pub inviter_email: Option<Seq<char>>,
    pub inviter_name: Option<Seq<char>>,
    pub status: i16,
    pub updated_at: i64,
}

impl DeepView for AFWorkspaceInvitation {
    type V = AFWorkspaceInvitationView;

    open spec fn deep_view(&self) -> AFWorkspaceInvitationView {
        AFWorkspaceInvitationView {
            invite_id: self.invite_id,
            workspace_id: self.workspace_id,
            workspace_name: self.workspace_name.deep_view(),
            inviter_email: self.inviter_email.deep_view(),
            inviter_name: self.inviter_name.deep_view(),
            status: self.status,
            updated_at: self.updated_at,
        }
    }
}

/// An invitation that went to the address and has the status, where one is asked for.
pub open spec fn went_to(email: Option<Seq<char>>, status_filter: Option<i16>) -> spec_fn(
    InvitationRecordView,
) -> bool {
    |invitation: InvitationRecordView|
        Some(invitation.invitee_email) == email && (status_filter is None || status_filter == Some(
            invitation.status,
        ))
}

pub open spec fn invitation_of(tables: Tables) -> spec_fn(InvitationRecordView) -> Result<
    AFWorkspaceInvitationView,
    DbError,
> {
    |invitation: InvitationRecordView|
        match (
            tables.name_by_workspace(invitation.workspace_id),
            tables.email_by_uid(invitation.inviter),
            tables.name_by_uid(invitation.inviter),
        ) {
            (Ok(workspace_name), Ok(inviter_email), Ok(inviter_name)) => Ok(
                AFWorkspaceInvitationView {
                    invite_id: invitation.id,
                    workspace_id: invitation.workspace_id,
                    workspace_name,
                    inviter_email,
                    inviter_name,
                    status: invitation.status,
                    updated_at: invitation.updated_at,
                },
            ),
            _ => Err(DbError::CardinalityViolation),
        }
}

/// The invitations of the user as they are handed out.
pub open spec fn invitations_found(
    tables: Tables,
    invitee_uuid: Uuid,
    status_filter: Option<i16>,
) -> Result<Seq<AFWorkspaceInvitationView>, DbError> {
    match tables.email_by_uuid(invitee_uuid) {
        Ok(email) => each(
            tables.invitations.filter(went_to(email, status_filter)),
            invitation_of(tables),
        ),
        Err(error) => Err(error),
    }
}

/// The invitations that went to the user, of one status where one is asked for.
pub fn select_workspace_invitations_for_user(
    db: &Database,
    invitee_uuid: &Uuid,
    status_filter: Option<i16>,
) -> (result: Result<Vec<AFWorkspaceInvitation>, AppError>)
    ensures
        seen(result) == handed_on(invitations_found(db@, *invitee_uuid, status_filter)),
{
    let email: Option<String> = match db.email_by_uuid(invitee_uuid) {
        Ok(email) => email,
        Err(error) => {
            return Err(AppError::Database(error));
        },
    };
    let ghost address = email.deep_view();
    let keep = |invitation: &InvitationRecord| -> (kept: bool)
        ensures
            kept == went_to(email.deep_view(), status_filter)(invitation.deep_view()),
    {
        is_address(&invitation.invitee_email, &email) && match status_filter {
            Some(status) => invitation.status == status,
            None => true,
        }
    };
    let found = positions(&db.invitations, keep, Ghost(went_to(address, status_filter)));
    let make = |invitation: &InvitationRecord| -> (made: Result<
        AFWorkspaceInvitation,
        DbError,
    >)
        ensures
            plain(made) == invitation_of(db@)(invitation.deep_view()),
    {
        match (
            db.name_by_workspace(&invitation.workspace_id),
            db.email_by_uid(invitation.inviter),
            db.name_by_uid(invitation.inviter),
        ) {
            (Ok(workspace_name), Ok(inviter_email), Ok(inviter_name)) => Ok(
                AFWorkspaceInvitation {
                    invite_id: invitation.id,
                    workspace_id: invitation.workspace_id,
                    workspace_name,
                    inviter_email,
                    inviter_name,
                    status: invitation.status,
                    updated_at: invitation.updated_at,
                },
            ),
            _ => Err(DbError::CardinalityViolation),
        }
    };
    fetch_all(each_row(&db.invitations, &found, make, Ghost(invitation_of(db@))))
}

pub open spec fn is_pending(workspace_id: Uuid) -> spec_fn(InvitationRecordView) -> bool {
    |invitation: InvitationRecordView|
        invitation.workspace_id == workspace_id && invitation.status == STATUS_PENDING
}

pub open spec fn address_and_id() -> spec_fn(InvitationRecordView) -> (Seq<char>, Uuid) {
    |invitation: InvitationRecordView| (invitation.invitee_email, invitation.id)
}

/// The unanswered invitations to the workspace by the address that they went to.
pub open spec fn pending(tables: Tables, workspace_id: Uuid) -> Map<Seq<char>, Uuid> {
    keyed(tables.invitations.filter(is_pending(workspace_id)).map_values(address_and_id()))
}

/// The unanswered invitations to the workspace by the address that they went to.
pub fn select_workspace_pending_invitations(db: &Database, workspace_id: &Uuid) -> (result: Result<
    StringHashMap<Uuid>,
    AppError,
>)
    ensures
        result is Ok,
        result->Ok_0@ == pending(db@, *workspace_id),
{
    let keep = |invitation: &InvitationRecord| -> (kept: bool)
        ensures
            kept == is_pending(*workspace_id)(invitation.deep_view()),
    { invitation.workspace_id == *workspace_id && invitation.status == STATUS_PENDING };
    let found = positions(&db.invitations, keep, Ghost(is_pending(*workspace_id)));
    let ghost chosen = found@.map_values(|p: usize| db@.invitations[p as int]);
    let mut rows: Vec<(String, Uuid)> = Vec::new();
    let mut k: usize = 0;
    while k < found.len()
        invariant
            k <= found.len(),
            chosen == found@.map_values(|p: usize| db@.invitations[p as int]),
            forall|k: int| 0 <= k < found.len() ==> #[trigger] found[k] < db.invitations.len(),
            rows.deep_view() =~= chosen.take(k as int).map_values(address_and_id()),
        decreases found.len() - k,
    {
        let ghost before = rows.deep_view();
        let invitation = &db.invitations[found[k]];
        assert(chosen[k as int] == invitation.deep_view());
        rows.push((invitation.invitee_email.clone(), invitation.id));
        assert(rows.deep_view() =~= before.push(address_and_id()(chosen[k as int])));
        k = k + 1;
    }
    assert(chosen.take(k as int) =~= chosen);
    Ok(outcome::select_workspace_pending_invitations(&rows))
}

} // verus!
