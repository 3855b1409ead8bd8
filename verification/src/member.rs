//! Members of workspaces.

use vstd::prelude::*;

use crate::error::{AppError, AppErrorView, DbError, handed_on, seen};
use crate::id::Uuid;
use crate::lemmas::lemma_chosen;
use crate::outcome;
use crate::outcome::owner_stays;
use crate::relation::{
    any_where, changed, delete_where, each_pair, fetch_all, fetch_one, first_of, join, joined,
    lemma_each_map, plain, positions, then_make, update_where, without,
};
use crate::tables::{
    Database, MemberRecord, RoleRecord, RoleRecordView, Tables, UserRecord, UserRecordView,
    WorkspaceRecord, WorkspaceRecordView, is_id, same_id, user_has_email, wrote,
};

verus! {

/// Whether the user is recorded as the owner of the workspace.
pub open spec fn owns(workspace_id: Uuid, uid: Option<i64>) -> spec_fn(WorkspaceRecordView) -> bool {
    |workspace: WorkspaceRecordView|
        workspace.workspace_id == workspace_id && uid is Some && workspace.owner_uid == uid
}

pub open spec fn is_removable(
    workspace_id: Uuid,
    uid: Option<i64>,
    owner: Option<i64>,
) -> spec_fn(MemberRecord) -> bool {
    |member: MemberRecord|
        member.workspace_id == workspace_id && Some(member.uid) == uid && owner is Some && Some(
            member.uid,
        ) != owner
}

/// What removing a member does to the tables. The owner of a workspace is not removed from it.
pub open spec fn removing(tables: Tables, workspace_id: Uuid, member_email: Seq<char>) -> Result<
    Tables,
    AppErrorView,
> {
    match tables.uid_by_email(member_email) {
        Err(error) => Err(AppErrorView::Database(error)),
        Ok(uid) => if tables.workspaces.any(owns(workspace_id, uid)) {
            Err(owner_stays(workspace_id, member_email))
        } else {
            match tables.owner_by_workspace(workspace_id) {
                Err(error) => Err(AppErrorView::Database(error)),
                Ok(owner) => Ok(
                    Tables {
                        members: without(tables.members, is_removable(workspace_id, uid, owner)),
                        ..tables
                    },
                ),
            }
        },
    }
}

/// Removes the user with the address from the workspace.
pub fn delete_workspace_members(db: &mut Database, workspace_id: &Uuid, member_email: &str) -> (result:
    Result<(), AppError>)
    ensures
        wrote(
            result,
            old(db)@,
            final(db)@,
            removing(old(db)@, *workspace_id, member_email@),
        ),
{
    let email = member_email.to_owned();
    let uid: Option<i64> = match db.uid_by_email(&email) {
        Ok(uid) => uid,
        Err(error) => {
            return Err(AppError::Database(error));
        },
    };
    let owned = |workspace: &WorkspaceRecord| -> (kept: bool)
        ensures
            kept == owns(*workspace_id, uid)(workspace.deep_view()),
    { workspace.workspace_id == *workspace_id && same_id(workspace.owner_uid, uid) };
    let is_owner = any_where(&db.workspaces, owned, Ghost(owns(*workspace_id, uid)));
    match outcome::delete_workspace_members(Some(is_owner), workspace_id, member_email) {
        Ok(_) => {},
        Err(error) => {
            return Err(error);
        },
    }
    let owner: Option<i64> = match db.owner_by_workspace(workspace_id) {
        Ok(owner) => owner,
        Err(error) => {
            return Err(AppError::Database(error));
        },
    };
    let drop = |member: &MemberRecord| -> (dropped: bool)
        ensures
            dropped == is_removable(*workspace_id, uid, owner)(member.deep_view()),
    {
        member.workspace_id == *workspace_id && is_id(uid, member.uid) && owner.is_some() && !is_id(
            owner,
            member.uid,
        )
    };
    delete_where(&mut db.members, drop, Ghost(is_removable(*workspace_id, uid, owner)));
    Ok(())
}

/// What the database fills in for a new member.
#[derive(Clone, Copy, Debug, PartialEq)]
pub struct MemberDefaults {
    pub created_at: i64,
    pub updated_at: i64,
}

pub open spec fn is_member(workspace_id: Uuid, uid: Option<i64>) -> spec_fn(
    MemberRecord,
) -> bool {
    |member: MemberRecord| member.workspace_id == workspace_id && Some(member.uid) == uid
}

pub open spec fn new_member(
    workspace_id: Uuid,
    uid: i64,
    role_id: i32,
    defaults: MemberDefaults,
) -> MemberRecord {
    MemberRecord {
        workspace_id,
        uid,
        role_id,
        created_at: defaults.created_at,
        updated_at: defaults.updated_at,
    }
}

/// The members after each of the users was added, save those who were members already.
pub open spec fn with_users(
    members: Seq<MemberRecord>,
    workspace_id: Uuid,
    users: Seq<UserRecordView>,
    role_id: i32,
    defaults: MemberDefaults,
) -> Seq<MemberRecord>
    decreases users.len(),
{
    if users.len() == 0 {
        members
    } else {
        let uid = users.last().uid;
        let so_far = with_users(members, workspace_id, users.drop_last(), role_id, defaults);
        if so_far.any(is_member(workspace_id, Some(uid))) {
            so_far
        } else {
            so_far.push(new_member(workspace_id, uid, role_id, defaults))
        }
    }
}

/// What making the user with the address a member does to the tables.
pub open spec fn joining(
    tables: Tables,
    workspace_id: Uuid,
    member_email: Seq<char>,
    role_id: i32,
    defaults: MemberDefaults,
) -> Tables {
    Tables {
        members: with_users(
            tables.members,
            workspace_id,
            tables.users.filter(user_has_email(member_email)),
            role_id,
            defaults,
        ),
        ..tables
    }
}

/// Makes the user with the address a member of the workspace. One who is a member already keeps
/// the role.
pub fn upsert_workspace_member_with_txn(
    db: &mut Database,
    workspace_id: &Uuid,
    member_email: &str,
    role_id: i32,
    defaults: MemberDefaults,
) -> (result: Result<(), AppError>)
    ensures
        wrote(
            result,
            old(db)@,
            final(db)@,
            Ok(joining(old(db)@, *workspace_id, member_email@, role_id, defaults)),
        ),
{
    let ghost before = db@;
    let email = member_email.to_owned();
    let keep = |user: &UserRecord| -> (kept: bool)
        ensures
            kept == user_has_email(member_email@)(user.deep_view()),
    { user.email == email };
    let found = positions(&db.users, keep, Ghost(user_has_email(member_email@)));
    let ghost chosen = found@.map_values(|p: usize| before.users[p as int]);
    let mut k: usize = 0;
    while k < found.len()
        invariant
            k <= found.len(),
            db.users.deep_view() == before.users,
            chosen == found@.map_values(|p: usize| before.users[p as int]),
            forall|k: int| 0 <= k < found.len() ==> #[trigger] found[k] < db.users.len(),
            db@ == (Tables {
                members: with_users(
                    before.members,
                    *workspace_id,
                    chosen.take(k as int),
                    role_id,
                    defaults,
                ),
                ..before
            }),
        decreases found.len() - k,
    {
        let ghost now = db@.members;
        let p: usize = found[k];
        let uid: i64 = db.users[p].uid;
        assert(chosen[k as int] == db.users[p as int].deep_view());
        assert(chosen.take(k + 1).drop_last() =~= chosen.take(k as int));
        assert(chosen.take(k + 1).last() == chosen[k as int]);
        let same = |member: &MemberRecord| -> (kept: bool)
            ensures
                kept == is_member(*workspace_id, Some(uid))(member.deep_view()),
        { member.workspace_id == *workspace_id && member.uid == uid };
        if !any_where(&db.members, same, Ghost(is_member(*workspace_id, Some(uid)))) {
            db.members.push(
                MemberRecord {
                    workspace_id: *workspace_id,
                    uid,
                    role_id,
                    created_at: defaults.created_at,
                    updated_at: defaults.updated_at,
                },
            );
            assert(db@.members =~= now.push(new_member(*workspace_id, uid, role_id, defaults)));
        }
        assert(db@ =~= (Tables {
            members: with_users(
                before.members,
                *workspace_id,
                chosen.take(k + 1),
                role_id,
                defaults,
            ),
            ..before
        }));
        k = k + 1;
    }
    assert(chosen.take(k as int) =~= chosen);
    Ok(())
}

pub open spec fn with_role(role_id: i32) -> spec_fn(MemberRecord) -> MemberRecord {
    |member: MemberRecord| MemberRecord { role_id, ..member }
}

pub open spec fn with_update(updated_at: i64) -> spec_fn(MemberRecord) -> MemberRecord {
    |member: MemberRecord| MemberRecord { updated_at, ..member }
}

/// What giving the user with the address another role does to the tables.
pub open spec fn changing_role(
    tables: Tables,
    workspace_id: Uuid,
    email: Seq<char>,
    role_id: i32,
) -> Result<Tables, DbError> {
    then_make(
        tables.uid_by_email(email),
        |uid: Option<i64>|
            Tables {
                members: changed(tables.members, is_member(workspace_id, uid), with_role(role_id)),
                ..tables
            },
    )
}

/// Gives the user with the address another role in the workspace. One who is no member does not
/// become one.
pub fn upsert_workspace_member(
    db: &mut Database,
    workspace_id: &Uuid,
    email: &str,
    role_id: i32,
) -> (result: Result<(), DbError>)
    ensures
        match changing_role(old(db)@, *workspace_id, email@, role_id) {
            Ok(tables) => result is Ok && final(db)@ == tables,
            Err(error) => result == Err::<(), DbError>(error) && final(db)@ == old(db)@,
        },
{
    let email = email.to_owned();
    let uid: Option<i64> = match db.uid_by_email(&email) {
        Ok(uid) => uid,
        Err(error) => {
            return Err(error);
        },
    };
    let same = |member: &MemberRecord| -> (kept: bool)
        ensures
            kept == is_member(*workspace_id, uid)(member.deep_view()),
    { member.workspace_id == *workspace_id && is_id(uid, member.uid) };
    let change = |member: &MemberRecord| -> (made: MemberRecord)
        ensures
            made.deep_view() == with_role(role_id)(member.deep_view()),
    { MemberRecord { role_id, ..*member } };
    update_where(
        &mut db.members,
        same,
        change,
        Ghost(is_member(*workspace_id, uid)),
        Ghost(with_role(role_id)),
    );
    Ok(())
}

/// What recording the user's visit does to the tables.
pub open spec fn visiting(tables: Tables, user_uuid: Uuid, workspace_id: Uuid, now: i64) -> Result<
    Tables,
    DbError,
> {
    then_make(
        tables.uid_by_uuid(user_uuid),
        |uid: Option<i64>|
            Tables {
                members: changed(tables.members, is_member(workspace_id, uid), with_update(now)),
                ..tables
            },
    )
}

/// Records that the user was in the workspace; `now` is the database's current time.
pub fn update_updated_at_of_workspace(
    db: &mut Database,
    user_uuid: &Uuid,
    workspace_id: &Uuid,
    now: i64,
) -> (result: Result<(), AppError>)
    ensures
        wrote(
            result,
            old(db)@,
            final(db)@,
            handed_on(visiting(old(db)@, *user_uuid, *workspace_id, now)),
        ),
{
    let uid: Option<i64> = match db.uid_by_uuid(user_uuid) {
        Ok(uid) => uid,
        Err(error) => {
            return Err(AppError::Database(error));
        },
    };
    let same = |member: &MemberRecord| -> (kept: bool)
        ensures
            kept == is_member(*workspace_id, uid)(member.deep_view()),
    { member.workspace_id == *workspace_id && is_id(uid, member.uid) };
    let change = |member: &MemberRecord| -> (made: MemberRecord)
        ensures
            made.deep_view() == with_update(now)(member.deep_view()),
    { MemberRecord { updated_at: now, ..*member } };
    update_where(
        &mut db.members,
        same,
        change,
        Ghost(is_member(*workspace_id, uid)),
        Ghost(with_update(now)),
    );
    Ok(())
}

pub open spec fn role_named(role_id: i32, name: Seq<char>) -> spec_fn(RoleRecordView) -> bool {
    |role: RoleRecordView| role.id == role_id && role.name == name
}

pub open spec fn is_owner_member(tables: Tables, workspace_id: Uuid, uid: Option<i64>) -> spec_fn(
    MemberRecord,
) -> bool {
    |member: MemberRecord|
        member.workspace_id == workspace_id && Some(member.uid) == uid && tables.roles.any(
            role_named(member.role_id, "Owner"@),
        )
}

/// Whether the user is a member of the workspace in a role named `Owner`.
pub open spec fn is_owner(tables: Tables, user_uuid: Uuid, workspace_id: Uuid) -> Result<
    bool,
    DbError,
> {
    then_make(
        tables.uid_by_uuid(user_uuid),
        |uid: Option<i64>| tables.members.any(is_owner_member(tables, workspace_id, uid)),
    )
}

/// Checks whether a user is an `Owner` of a workspace.
pub fn select_user_is_workspace_owner(
    db: &Database,
    user_uuid: &Uuid,
    workspace_uuid: &Uuid,
) -> (result: Result<bool, AppError>)
    ensures
        seen(result) == handed_on(is_owner(db@, *user_uuid, *workspace_uuid)),
{
    let uid: Option<i64> = match db.uid_by_uuid(user_uuid) {
        Ok(uid) => uid,
        Err(error) => {
            return Err(AppError::Database(error));
        },
    };
    let name = "Owner".to_owned();
    let keep = |member: &MemberRecord| -> (kept: bool)
        ensures
            kept == is_owner_member(db@, *workspace_uuid, uid)(member.deep_view()),
    {
        member.workspace_id == *workspace_uuid && is_id(uid, member.uid) && has_role_named(
            db,
            member.role_id,
            &name,
        )
    };
    let exists = any_where(&db.members, keep, Ghost(is_owner_member(db@, *workspace_uuid, uid)));
    Ok(outcome::flag(Some(exists)))
}

fn has_role_named(db: &Database, role_id: i32, name: &String) -> (has: bool)
    ensures
        has == db@.roles.any(role_named(role_id, name@)),
{
    let named = |role: &RoleRecord| -> (kept: bool)
        ensures
            kept == role_named(role_id, name@)(role.deep_view()),
    { role.id == role_id && role.name == *name };
    any_where(&db.roles, named, Ghost(role_named(role_id, name@)))
}

/// The role of the user in the workspace, by its number.
pub open spec fn role_in(tables: Tables, uid: i64, workspace_id: Uuid) -> Result<i32, DbError> {
    then_make(
        first_of(Ok(tables.members.filter(is_member(workspace_id, Some(uid))))),
        |member: MemberRecord| member.role_id,
    )
}

/// The role of the user in the workspace, by its number.
pub fn select_user_role(db: &Database, uid: &i64, workspace_uuid: &Uuid) -> (result: Result<
    i32,
    AppError,
>)
    ensures
        seen(result) == handed_on(role_in(db@, *uid, *workspace_uuid)),
{
    let keep = |member: &MemberRecord| -> (kept: bool)
        ensures
            kept == is_member(*workspace_uuid, Some(*uid))(member.deep_view()),
    { member.workspace_id == *workspace_uuid && member.uid == *uid };
    let found = positions(&db.members, keep, Ghost(is_member(*workspace_uuid, Some(*uid))));
    let ghost chosen = found@.map_values(|p: usize| db@.members[p as int]);
    assert(chosen.len() == found.len());
    if found.len() == 0 {
        Err(AppError::Database(DbError::RowNotFound))
    } else {
        assert(chosen[0] == db@.members[found[0] as int]);
        Ok(db.members[found[0]].role_id)
    }
}

pub open spec fn is_in(workspace_id: Uuid) -> spec_fn(MemberRecord) -> bool {
    |member: MemberRecord| member.workspace_id == workspace_id
}

/// The number of members of the workspace.
pub fn select_workspace_member_count_from_workspace_id(db: &Database, workspace_id: &Uuid) -> (result:
    Result<Option<i64>, AppError>)
    ensures
        result == Ok::<Option<i64>, AppError>(
            Some(db@.members.filter(is_in(*workspace_id)).len() as i64),
        ),
{
    let keep = |member: &MemberRecord| -> (kept: bool)
        ensures
            kept == is_in(*workspace_id)(member.deep_view()),
    { member.workspace_id == *workspace_id };
    let found = positions(&db.members, keep, Ghost(is_in(*workspace_id)));
    proof {
        let chosen = found@.map_values(|p: usize| db@.members[p as int]);
        assert(chosen.len() == found.len());
    }
    let count: i64 = #[verifier::truncate]
    (found.len() as i64);
    Ok(Some(count))
}

/// A member's role in a workspace.
#[derive(Clone, Copy, Debug, PartialEq)]
pub struct AFWorkspaceMemberPermRow {
    pub uid: i64,
    pub role: i32,
    pub workspace_id: Uuid,
}

impl DeepView for AFWorkspaceMemberPermRow {
    type V = AFWorkspaceMemberPermRow;

    open spec fn deep_view(&self) -> AFWorkspaceMemberPermRow {
        *self
    }
}

/// The role of every member of every workspace.
pub fn select_workspace_member_perm_stream(db: &Database) -> (rows: Vec<AFWorkspaceMemberPermRow>)
    ensures
        rows@ == db@.members.map_values(
            |member: MemberRecord|
                AFWorkspaceMemberPermRow {
                    uid: member.uid,
                    role: member.role_id,
                    workspace_id: member.workspace_id,
                },
        ),
{
    let ghost perm = |member: MemberRecord|
        AFWorkspaceMemberPermRow {
            uid: member.uid,
            role: member.role_id,
            workspace_id: member.workspace_id,
        };
    let mut rows: Vec<AFWorkspaceMemberPermRow> = Vec::new();
    let mut i: usize = 0;
    while i < db.members.len()
        invariant
            i <= db.members.len(),
            rows@ =~= db@.members.take(i as int).map_values(perm),
            perm == (|member: MemberRecord|
                AFWorkspaceMemberPermRow {
                    uid: member.uid,
                    role: member.role_id,
                    workspace_id: member.workspace_id,
                }),
        decreases db.members.len() - i,
    {
        let member: MemberRecord = db.members[i];
        rows.push(
            AFWorkspaceMemberPermRow {
                uid: member.uid,
                role: member.role_id,
                workspace_id: member.workspace_id,
            },
        );
        i = i + 1;
    }
    assert(db@.members.take(i as int) =~= db@.members);
    rows
}

pub open spec fn created_at_is(time: i64) -> spec_fn(MemberRecord) -> bool {
    |member: MemberRecord| member.created_at == time
}

pub open spec fn is_ordered(members: Seq<MemberRecord>) -> bool {
    forall|i: int, j: int|
        0 <= i < j < members.len() ==> members[i].created_at <= members[j].created_at
}

/// `ordered` holds the members, the earliest first, and those of one time in the order that they
/// had.
pub open spec fn in_creation_order(
    ordered: Seq<MemberRecord>,
    members: Seq<MemberRecord>,
) -> bool {
    &&& is_ordered(ordered)
    &&& ordered.to_multiset() == members.to_multiset()
    &&& forall|time: i64|
        #![trigger ordered.filter(created_at_is(time))]
        #![trigger members.filter(created_at_is(time))]
        ordered.filter(created_at_is(time)) == members.filter(created_at_is(time))
}

proof fn lemma_insert_in_order(
    ordered: Seq<MemberRecord>,
    members: Seq<MemberRecord>,
    member: MemberRecord,
    at: int,
)
    requires
        in_creation_order(ordered, members),
        0 <= at <= ordered.len(),
        forall|i: int| 0 <= i < at ==> ordered[i].created_at <= member.created_at,
        forall|i: int| at <= i < ordered.len() ==> member.created_at < ordered[i].created_at,
    ensures
        in_creation_order(ordered.insert(at, member), members.push(member)),
{
    broadcast use vstd::seq_lib::group_to_multiset_ensures;

    let new = ordered.insert(at, member);
    let all = members.push(member);
    let front = ordered.take(at);
    let back = ordered.skip(at);
    assert(front + back =~= ordered);
    assert(new =~= front.push(member) + back);
    assert(all.to_multiset() =~= members.to_multiset().insert(member));
    assert(new.to_multiset() =~= ordered.to_multiset().insert(member)) by {
        vstd::seq_lib::to_multiset_insert(ordered, at, member);
    }
    assert forall|time: i64|
        #![trigger new.filter(created_at_is(time))]
        #![trigger all.filter(created_at_is(time))]
        new.filter(created_at_is(time)) == all.filter(created_at_is(time)) by {
        let pred = created_at_is(time);
        assert(ordered.filter(pred) == members.filter(pred));
        reveal(Seq::filter);
        Seq::filter_distributes_over_add(front, back, pred);
        Seq::filter_distributes_over_add(front.push(member), back, pred);
        assert(front.push(member).drop_last() =~= front);
        assert(all.drop_last() =~= members);
        if member.created_at == time {
            assert(back.filter(pred).len() == 0) by {
                if back.filter(pred).len() > 0 {
                    let one = back.filter(pred)[0];
                    lemma_chosen(back, pred, 0);
                    let k = choose|k: int| 0 <= k < back.len() && back[k] == one;
                    assert(back[k] == ordered[at + k]);
                }
            }
            assert(back.filter(pred) =~= Seq::empty());
            assert(ordered.filter(pred) =~= front.filter(pred));
            assert(new.filter(pred) =~= front.filter(pred).push(member));
        }
    }
}

/// The members of the workspace, the earliest first.
fn by_creation(db: &Database, workspace_id: &Uuid) -> (ordered: Vec<MemberRecord>)
    ensures
        in_creation_order(ordered@, db@.members.filter(is_in(*workspace_id))),
{
    let keep = |member: &MemberRecord| -> (kept: bool)
        ensures
            kept == is_in(*workspace_id)(member.deep_view()),
    { member.workspace_id == *workspace_id };
    let found = positions(&db.members, keep, Ghost(is_in(*workspace_id)));
    let ghost chosen = found@.map_values(|p: usize| db@.members[p as int]);
    let mut ordered: Vec<MemberRecord> = Vec::new();
    let mut k: usize = 0;
    assert(chosen.take(0) =~= ordered@);
    while k < found.len()
        invariant
            k <= found.len(),
            chosen == found@.map_values(|p: usize| db@.members[p as int]),
            forall|k: int| 0 <= k < found.len() ==> #[trigger] found[k] < db.members.len(),
            in_creation_order(ordered@, chosen.take(k as int)),
        decreases found.len() - k,
    {
        let member: MemberRecord = db.members[found[k]];
        assert(chosen[k as int] == member);
        let mut at: usize = ordered.len();
        while at > 0 && member.created_at < ordered[at - 1].created_at
            invariant
                at <= ordered.len(),
                forall|i: int|
                    at <= i < ordered.len() ==> member.created_at < ordered[i].created_at,
            decreases at,
        {
            at = at - 1;
        }
        proof {
            assert forall|i: int| 0 <= i < at implies ordered[i].created_at
                <= member.created_at by {
                if i < at - 1 {
                    assert(ordered@[i].created_at <= ordered@[at - 1].created_at);
                }
            }
            lemma_insert_in_order(ordered@, chosen.take(k as int), member, at as int);
            assert(chosen.take(k + 1) =~= chosen.take(k as int).push(member));
        }
        ordered.insert(at, member);
        k = k + 1;
    }
    assert(chosen.take(k as int) =~= chosen);
    ordered
}

/// A member with the user's name and address.
#[derive(Debug, PartialEq)]
pub struct AFWorkspaceMemberRow {
    pub uid: i64,
    pub name: String,
    pub email: String,
    pub role: i32,
}

/// [`AFWorkspaceMemberRow`] with its texts as sequences.
pub struct AFWorkspaceMemberRowView {
    pub uid: i64,
    pub name: Seq<char>,
    pub email: Seq<char>,
    pub role: i32,
}

impl DeepView for AFWorkspaceMemberRow {
    type V = AFWorkspaceMemberRowView;

    open spec fn deep_view(&self) -> AFWorkspaceMemberRowView {
        AFWorkspaceMemberRowView {
            uid: self.uid,
            name: self.name@,
            email: self.email@,
            role: self.role,
        }
    }
}

pub open spec fn is_user_of() -> spec_fn(MemberRecord, UserRecordView) -> bool {
    |member: MemberRecord, user: UserRecordView| member.uid == user.uid
}

pub open spec fn member_row() -> spec_fn((MemberRecord, UserRecordView)) -> AFWorkspaceMemberRowView {
    |pair: (MemberRecord, UserRecordView)|
        AFWorkspaceMemberRowView {
            uid: pair.1.uid,
            name: pair.1.name,
            email: pair.1.email,
            role: pair.0.role_id,
        }
}

/// The rows of members joined with their users.
fn member_rows(
    members: &Vec<MemberRecord>,
    users: &Vec<UserRecord>,
) -> (rows: Result<Vec<AFWorkspaceMemberRow>, DbError>)
    ensures
        plain(rows) == Ok::<Seq<AFWorkspaceMemberRowView>, DbError>(
            join(members.deep_view(), users.deep_view(), is_user_of()).map_values(member_row()),
        ),
{
    let on = |member: &MemberRecord, user: &UserRecord| -> (kept: bool)
        ensures
            kept == is_user_of()(member.deep_view(), user.deep_view()),
    { member.uid == user.uid };
    let found = joined(members, users, on, Ghost(is_user_of()));
    let ghost row_of = |pair: (MemberRecord, UserRecordView)|
        Ok::<AFWorkspaceMemberRowView, DbError>(member_row()(pair));
    let make = |member: &MemberRecord, user: &UserRecord| -> (made: Result<
        AFWorkspaceMemberRow,
        DbError,
    >)
        ensures
            plain(made) == Ok::<AFWorkspaceMemberRowView, DbError>(
                member_row()((member.deep_view(), user.deep_view())),
            ),
    {
        Ok(
            AFWorkspaceMemberRow {
                uid: user.uid,
                name: user.name.clone(),
                email: user.email.clone(),
                role: member.role_id,
            },
        )
    };
    proof {
        lemma_each_map(
            join(members.deep_view(), users.deep_view(), is_user_of()),
            row_of,
            member_row(),
        );
    }
    each_pair(members, users, &found, make, Ghost(row_of))
}

/// The members in the given order as they are handed out.
pub open spec fn listed(tables: Tables, ordered: Seq<MemberRecord>) -> Seq<
    AFWorkspaceMemberRowView,
> {
    join(ordered, tables.users, is_user_of()).map_values(member_row())
}

/// The members of the workspace, sorted by the time that they became members.
pub fn select_workspace_member_list(db: &Database, workspace_id: &Uuid) -> (result: Result<
    Vec<AFWorkspaceMemberRow>,
    AppError,
>)
    ensures
        exists|ordered: Seq<MemberRecord>| #[trigger]
            in_creation_order(ordered, db@.members.filter(is_in(*workspace_id))) && seen(result)
                == Ok::<Seq<AFWorkspaceMemberRowView>, AppErrorView>(listed(db@, ordered)),
{
    let ordered = by_creation(db, workspace_id);
    assert(ordered.deep_view() =~= ordered@);
    fetch_all(member_rows(&ordered, &db.users))
}

/// The member of the workspace as it is handed out.
pub open spec fn member_found(tables: Tables, uid: i64, workspace_id: Uuid) -> Result<
    AFWorkspaceMemberRowView,
    DbError,
> {
    first_of(Ok(listed(tables, tables.members.filter(is_member(workspace_id, Some(uid))))))
}

/// A member of the workspace.
pub fn select_workspace_member(db: &Database, uid: &i64, workspace_id: &Uuid) -> (result: Result<
    AFWorkspaceMemberRow,
    AppError,
>)
    ensures
        seen(result) == handed_on(member_found(db@, *uid, *workspace_id)),
{
    let keep = |member: &MemberRecord| -> (kept: bool)
        ensures
            kept == is_member(*workspace_id, Some(*uid))(member.deep_view()),
    { member.workspace_id == *workspace_id && member.uid == *uid };
    let found = positions(&db.members, keep, Ghost(is_member(*workspace_id, Some(*uid))));
    let ghost chosen = found@.map_values(|p: usize| db@.members[p as int]);
    let mut members: Vec<MemberRecord> = Vec::new();
    let mut k: usize = 0;
    while k < found.len()
        invariant
            k <= found.len(),
            chosen == found@.map_values(|p: usize| db@.members[p as int]),
            forall|k: int| 0 <= k < found.len() ==> #[trigger] found[k] < db.members.len(),
            members@ =~= chosen.take(k as int),
        decreases found.len() - k,
    {
        members.push(db.members[found[k]]);
        k = k + 1;
    }
    assert(members.deep_view() =~= chosen);
    fetch_one(member_rows(&members, &db.users))
}

} // verus!
