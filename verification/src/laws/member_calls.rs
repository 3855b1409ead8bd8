//! What a caller can tell of each operation on members, column by column.

use vstd::prelude::*;

use crate::error::{AppError, AppErrorView, DbError, seen};
use crate::id::{Uuid, uuid_text};
use crate::laws::members::lemma_added;
use crate::lemmas::{
    lemma_chosen, lemma_first_chosen, lemma_joined_places, lemma_none_chosen, lemma_places,
    lemma_same_chosen,
};
use crate::member::{
    AFWorkspaceMemberPermRow, AFWorkspaceMemberRow, AFWorkspaceMemberRowView, MemberDefaults,
    delete_workspace_members, in_creation_order, is_in, is_member, is_owner_member, is_removable,
    is_user_of, joining, listed, new_member, owns, role_named, select_user_is_workspace_owner,
    select_user_role, select_workspace_member, select_workspace_member_count_from_workspace_id,
    select_workspace_member_list, select_workspace_member_perm_stream,
    update_updated_at_of_workspace, upsert_workspace_member, upsert_workspace_member_with_txn,
    with_users,
};
use crate::relation::join;
use crate::tables::{Database, MemberRecord, Tables, UserRecordView, user_has_email};

verus! {

/// Whoever is recorded as the owner of the workspace is refused, in words that name the address and
/// the workspace, and stays. Of anybody else in a workspace that has an owner, the memberships in
/// that workspace go and nothing else does. From a workspace without an owner nobody goes.
pub proof fn law_delete_workspace_members(
    db: &mut Database,
    workspace_id: Uuid,
    member_email: &str,
    result: Result<(), AppError>,
)
    requires
        call_ensures(delete_workspace_members, (db, &workspace_id, member_email), result),
    ensures
        final(db)@ == (Tables { members: final(db)@.members, ..old(db)@ }),
        result is Err ==> final(db)@ == old(db)@,
        match old(db)@.uid_by_email(member_email@) {
            Err(error) => result == Err::<(), AppError>(AppError::Database(error)),
            Ok(None) => match old(db)@.owner_by_workspace(workspace_id) {
                Err(error) => result == Err::<(), AppError>(AppError::Database(error)),
                Ok(_) => result is Ok && final(db)@ == old(db)@,
            },
            Ok(Some(uid)) => if exists|i: int|
                {
                    &&& 0 <= i < old(db)@.workspaces.len()
                    &&& (#[trigger] old(db)@.workspaces[i]).workspace_id == workspace_id
                    &&& old(db)@.workspaces[i].owner_uid == Some(uid)
                } {
                &&& result matches Err(AppError::NotEnoughPermissions { user, action })
                &&& user@ == member_email@
                &&& action@ == "delete member from workspace "@ + uuid_text(workspace_id)
            } else {
                match old(db)@.owner_by_workspace(workspace_id) {
                    Err(error) => result == Err::<(), AppError>(AppError::Database(error)),
                    Ok(None) => result is Ok && final(db)@ == old(db)@,
                    Ok(Some(_)) => result is Ok && final(db)@.members == old(db)@.members.filter(
                        |member: MemberRecord|
                            !(member.workspace_id == workspace_id && member.uid == uid),
                    ),
                }
            },
        },
{
    let t = old(db)@;
    if let Ok(uid) = t.uid_by_email(member_email@) {
        let mine = owns(workspace_id, uid);
        if t.workspaces.any(mine) {
            let i = choose|i: int|
                0 <= i < t.workspaces.len() && #[trigger] mine(t.workspaces[i]);
            assert(t.workspaces[i].workspace_id == workspace_id);
        }
        if let Some(number) = uid {
            if exists|i: int|
                {
                    &&& 0 <= i < t.workspaces.len()
                    &&& (#[trigger] t.workspaces[i]).workspace_id == workspace_id
                    &&& t.workspaces[i].owner_uid == Some(number)
                } {
                let i = choose|i: int|
                    {
                        &&& 0 <= i < t.workspaces.len()
                        &&& (#[trigger] t.workspaces[i]).workspace_id == workspace_id
                        &&& t.workspaces[i].owner_uid == Some(number)
                    };
                assert(mine(t.workspaces[i]));
            }
        }
        if let Ok(owner) = t.owner_by_workspace(workspace_id) {
            let gone = is_removable(workspace_id, uid, owner);
            let everybody = |member: MemberRecord| true;
            if uid is None || owner is None {
                lemma_same_chosen(t.members, |member: MemberRecord| !gone(member), everybody);
                lemma_all_chosen(t.members);
            } else if !t.workspaces.any(mine) {
                let number = uid->0;
                crate::laws::lookups::law_owner_by_workspace(t, workspace_id);
                assert(owner != uid) by {
                    lemma_owner_is_recorded(t, workspace_id, owner->0);
                    if owner == uid {
                        let i = choose|i: int|
                            {
                                &&& 0 <= i < t.workspaces.len()
                                &&& (#[trigger] t.workspaces[i]).workspace_id == workspace_id
                                &&& t.workspaces[i].owner_uid == owner
                            };
                        assert(mine(t.workspaces[i]));
                    }
                }
                lemma_same_chosen(
                    t.members,
                    |member: MemberRecord| !gone(member),
                    |member: MemberRecord|
                        !(member.workspace_id == workspace_id && member.uid == number),
                );
            }
        }
    }
}

proof fn lemma_all_chosen<T>(rows: Seq<T>)
    ensures
        rows.filter(|row: T| true) == rows,
    decreases rows.len(),
{
    reveal(Seq::filter);
    if rows.len() > 0 {
        lemma_all_chosen(rows.drop_last());
        assert(rows.drop_last().push(rows.last()) =~= rows);
    } else {
        assert(rows.filter(|row: T| true) =~= rows);
    }
}

/// The owner that a workspace has stands in a row of it.
proof fn lemma_owner_is_recorded(tables: Tables, workspace_id: Uuid, owner: i64)
    requires
        tables.owner_by_workspace(workspace_id) == Ok::<Option<i64>, DbError>(Some(owner)),
    ensures
        exists|i: int|
            {
                &&& 0 <= i < tables.workspaces.len()
                &&& (#[trigger] tables.workspaces[i]).workspace_id == workspace_id
                &&& tables.workspaces[i].owner_uid == Some(owner)
            },
{
    let this = crate::tables::workspace_has_id(workspace_id);
    lemma_chosen(tables.workspaces, this, 0);
    let i = choose|i: int|
        0 <= i < tables.workspaces.len() && tables.workspaces[i] == tables.workspaces.filter(
            this,
        )[0];
    assert(tables.workspaces[i].workspace_id == workspace_id);
}

/// Those with the address who were no members are added, each once, to that workspace, in the given
/// role, with what the database fills in. All rows that were there stay.
pub proof fn law_upsert_workspace_member_with_txn(
    db: &mut Database,
    workspace_id: Uuid,
    member_email: &str,
    role_id: i32,
    defaults: MemberDefaults,
    result: Result<(), AppError>,
)
    requires
        call_ensures(
            upsert_workspace_member_with_txn,
            (db, &workspace_id, member_email, role_id, defaults),
            result,
        ),
    ensures
        result is Ok,
        final(db)@ == (Tables { members: final(db)@.members, ..old(db)@ }),
        old(db)@.members.len() <= final(db)@.members.len(),
        forall|i: int|
            0 <= i < old(db)@.members.len() ==> #[trigger] final(db)@.members[i]
                == old(db)@.members[i],
        forall|i: int|
            old(db)@.members.len() <= i < final(db)@.members.len() ==> {
                let added = #[trigger] final(db)@.members[i];
                &&& added.workspace_id == workspace_id
                &&& added.role_id == role_id
                &&& added.created_at == defaults.created_at
                &&& added.updated_at == defaults.updated_at
                &&& exists|k: int|
                    0 <= k < old(db)@.users.len() && (#[trigger] old(db)@.users[k]).uid == added.uid
                        && old(db)@.users[k].email == member_email@
                &&& forall|j: int|
                    0 <= j < i ==> !((#[trigger] final(db)@.members[j]).workspace_id
                        == workspace_id && final(db)@.members[j].uid == added.uid)
            },
        forall|k: int|
            0 <= k < old(db)@.users.len() && (#[trigger] old(db)@.users[k]).email == member_email@
                ==> exists|i: int|
                {
                    &&& 0 <= i < final(db)@.members.len()
                    &&& (#[trigger] final(db)@.members[i]).workspace_id == workspace_id
                    &&& final(db)@.members[i].uid == old(db)@.users[k].uid
                },
{
    let t = old(db)@;
    let n = t.members.len() as int;
    let users = t.users.filter(user_has_email(member_email@));
    let after = with_users(t.members, workspace_id, users, role_id, defaults);
    lemma_added(t.members, workspace_id, users, role_id, defaults);
    assert(final(db)@.members == after);
    assert forall|i: int| 0 <= i < n implies #[trigger] final(db)@.members[i] == t.members[i] by {
        assert(after.take(n)[i] == after[i]);
    }
    assert forall|i: int| n <= i < final(db)@.members.len() implies {
        let added = #[trigger] final(db)@.members[i];
        &&& added.workspace_id == workspace_id
        &&& added.role_id == role_id
        &&& added.created_at == defaults.created_at
        &&& added.updated_at == defaults.updated_at
        &&& exists|k: int|
            0 <= k < t.users.len() && (#[trigger] t.users[k]).uid == added.uid && t.users[k].email
                == member_email@
        &&& forall|j: int|
            0 <= j < i ==> !((#[trigger] final(db)@.members[j]).workspace_id == workspace_id
                && final(db)@.members[j].uid == added.uid)
    } by {
        lemma_added_is_addressed(t, workspace_id, member_email@, role_id, defaults, i);
    }
    assert forall|k: int|
        0 <= k < t.users.len() && (#[trigger] t.users[k]).email == member_email@ implies exists|
        i: int,
    |
        {
            &&& 0 <= i < final(db)@.members.len()
            &&& (#[trigger] final(db)@.members[i]).workspace_id == workspace_id
            &&& final(db)@.members[i].uid == t.users[k].uid
        } by {
        lemma_addressed_is_present(t, workspace_id, member_email@, role_id, defaults, k);
    }
}

/// An added row has what was given, and its user has the address and stands in no row before it.
proof fn lemma_added_is_addressed(
    tables: Tables,
    workspace_id: Uuid,
    email: Seq<char>,
    role_id: i32,
    defaults: MemberDefaults,
    i: int,
)
    requires
        tables.members.len() <= i < joining(
            tables,
            workspace_id,
            email,
            role_id,
            defaults,
        ).members.len(),
    ensures
        ({
            let after = joining(tables, workspace_id, email, role_id, defaults).members;
            &&& after[i] == new_member(workspace_id, after[i].uid, role_id, defaults)
            &&& exists|k: int|
                0 <= k < tables.users.len() && (#[trigger] tables.users[k]).uid == after[i].uid
                    && tables.users[k].email == email
            &&& forall|j: int|
                0 <= j < i ==> !((#[trigger] after[j]).workspace_id == workspace_id && after[j].uid
                    == after[i].uid)
        }),
{
    let addressed = user_has_email(email);
    let users = tables.users.filter(addressed);
    let after = with_users(tables.members, workspace_id, users, role_id, defaults);
    lemma_added(tables.members, workspace_id, users, role_id, defaults);
    lemma_added_once(tables.members, workspace_id, users, role_id, defaults);
    assert(after[i].uid == after[i].uid);
    let m = choose|m: int| 0 <= m < users.len() && (#[trigger] users[m]).uid == after[i].uid;
    lemma_chosen(tables.users, addressed, m);
    let k = choose|k: int| 0 <= k < tables.users.len() && tables.users[k] == users[m];
    assert(tables.users[k].uid == after[i].uid);
}

/// Whoever has the address stands in a row of the workspace.
proof fn lemma_addressed_is_present(
    tables: Tables,
    workspace_id: Uuid,
    email: Seq<char>,
    role_id: i32,
    defaults: MemberDefaults,
    k: int,
)
    requires
        0 <= k < tables.users.len(),
        tables.users[k].email == email,
    ensures
        exists|i: int|
            {
                &&& 0 <= i < joining(
                    tables,
                    workspace_id,
                    email,
                    role_id,
                    defaults,
                ).members.len()
                &&& (#[trigger] joining(
                    tables,
                    workspace_id,
                    email,
                    role_id,
                    defaults,
                ).members[i]).workspace_id == workspace_id
                &&& joining(tables, workspace_id, email, role_id, defaults).members[i].uid
                    == tables.users[k].uid
            },
{
    let addressed = user_has_email(email);
    let users = tables.users.filter(addressed);
    let after = joining(tables, workspace_id, email, role_id, defaults).members;
    lemma_added(tables.members, workspace_id, users, role_id, defaults);
    tables.users.lemma_filter_contains(addressed, k);
    let m = choose|m: int| 0 <= m < users.len() && users[m] == tables.users[k];
    let one = is_member(workspace_id, Some(users[m].uid));
    assert(after.any(one));
    let i = choose|i: int| 0 <= i < after.len() && #[trigger] one(after[i]);
    assert(after[i].workspace_id == workspace_id);
}

/// Each added row is of one of the users, who is in none of the rows before it.
proof fn lemma_added_once(
    members: Seq<MemberRecord>,
    workspace_id: Uuid,
    users: Seq<UserRecordView>,
    role_id: i32,
    defaults: MemberDefaults,
)
    ensures
        ({
            let after = with_users(members, workspace_id, users, role_id, defaults);
            forall|i: int|
                members.len() <= i < after.len() ==> {
                    &&& exists|m: int|
                        0 <= m < users.len() && (#[trigger] users[m]).uid == (
                        #[trigger] after[i]).uid
                    &&& forall|j: int|
                        0 <= j < i ==> !((#[trigger] after[j]).workspace_id == workspace_id
                            && after[j].uid == after[i].uid)
                }
        }),
    decreases users.len(),
{
    if users.len() > 0 {
        let front = users.drop_last();
        let last = users.last();
        let this = is_member(workspace_id, Some(last.uid));
        let so_far = with_users(members, workspace_id, front, role_id, defaults);
        let after = with_users(members, workspace_id, users, role_id, defaults);
        lemma_added_once(members, workspace_id, front, role_id, defaults);
        assert forall|i: int| members.len() <= i < after.len() implies {
            &&& exists|m: int|
                0 <= m < users.len() && (#[trigger] users[m]).uid == (#[trigger] after[i]).uid
            &&& forall|j: int|
                0 <= j < i ==> !((#[trigger] after[j]).workspace_id == workspace_id && after[j].uid
                    == after[i].uid)
        } by {
            if i < so_far.len() {
                assert(after[i] == so_far[i]);
                let m = choose|m: int|
                    0 <= m < front.len() && (#[trigger] front[m]).uid == so_far[i].uid;
                assert(users[m] == front[m]);
                assert forall|j: int| 0 <= j < i implies !((#[trigger] after[j]).workspace_id
                    == workspace_id && after[j].uid == after[i].uid) by {
                    assert(after[j] == so_far[j]);
                }
            } else {
                assert(users[users.len() - 1].uid == after[i].uid);
                assert forall|j: int| 0 <= j < i implies !((#[trigger] after[j]).workspace_id
                    == workspace_id && after[j].uid == after[i].uid) by {
                    assert(after[j] == so_far[j]);
                    assert(!this(so_far[j]));
                }
            }
        }
    }
}

/// A new role is written into the rows of the user with the address in that workspace, and nothing
/// else is written. Where the address is ambiguous nothing is.
pub proof fn law_upsert_workspace_member(
    db: &mut Database,
    workspace_id: Uuid,
    email: &str,
    role_id: i32,
    result: Result<(), DbError>,
)
    requires
        call_ensures(upsert_workspace_member, (db, &workspace_id, email, role_id), result),
    ensures
        match old(db)@.uid_by_email(email@) {
            Err(error) => result == Err::<(), DbError>(error) && final(db)@ == old(db)@,
            Ok(uid) => {
                &&& result is Ok
                &&& final(db)@ == (Tables { members: final(db)@.members, ..old(db)@ })
                &&& final(db)@.members.len() == old(db)@.members.len()
                &&& forall|i: int|
                    0 <= i < old(db)@.members.len() ==> #[trigger] final(db)@.members[i]
                        == if old(db)@.members[i].workspace_id == workspace_id && Some(
                        old(db)@.members[i].uid,
                    ) == uid {
                        MemberRecord { role_id, ..old(db)@.members[i] }
                    } else {
                        old(db)@.members[i]
                    }
            },
        },
{
}

/// A visit is written, with the time, into the rows of the user in that workspace, and nothing else
/// is written. Where the user is ambiguous nothing is.
pub proof fn law_update_updated_at_of_workspace(
    db: &mut Database,
    user_uuid: Uuid,
    workspace_id: Uuid,
    now: i64,
    result: Result<(), AppError>,
)
    requires
        call_ensures(update_updated_at_of_workspace, (db, &user_uuid, &workspace_id, now), result),
    ensures
        match old(db)@.uid_by_uuid(user_uuid) {
            Err(error) => result == Err::<(), AppError>(AppError::Database(error)) && final(db)@
                == old(db)@,
            Ok(uid) => {
                &&& result is Ok
                &&& final(db)@ == (Tables { members: final(db)@.members, ..old(db)@ })
                &&& final(db)@.members.len() == old(db)@.members.len()
                &&& forall|i: int|
                    0 <= i < old(db)@.members.len() ==> #[trigger] final(db)@.members[i]
                        == if old(db)@.members[i].workspace_id == workspace_id && Some(
                        old(db)@.members[i].uid,
                    ) == uid {
                        MemberRecord { updated_at: now, ..old(db)@.members[i] }
                    } else {
                        old(db)@.members[i]
                    }
            },
        },
{
}

/// A user is an owner exactly when a row of the workspace has the user's number and a role row has
/// the number of that row's role and the name `Owner`.
pub proof fn law_select_user_is_workspace_owner(
    db: Database,
    user_uuid: Uuid,
    workspace_id: Uuid,
    result: Result<bool, AppError>,
)
    requires
        call_ensures(select_user_is_workspace_owner, (&db, &user_uuid, &workspace_id), result),
    ensures
        match db@.uid_by_uuid(user_uuid) {
            Err(error) => result == Err::<bool, AppError>(AppError::Database(error)),
            Ok(uid) => result == Ok::<bool, AppError>(
                exists|i: int, k: int|
                    {
                        &&& 0 <= i < db@.members.len()
                        &&& 0 <= k < db@.roles.len()
                        &&& (#[trigger] db@.members[i]).workspace_id == workspace_id
                        &&& Some(db@.members[i].uid) == uid
                        &&& (#[trigger] db@.roles[k]).id == db@.members[i].role_id
                        &&& db@.roles[k].name == "Owner"@
                    },
            ),
        },
{
    if let Ok(uid) = db@.uid_by_uuid(user_uuid) {
        let owner = is_owner_member(db@, workspace_id, uid);
        if db@.members.any(owner) {
            let i = choose|i: int| 0 <= i < db@.members.len() && #[trigger] owner(db@.members[i]);
            let named = role_named(db@.members[i].role_id, "Owner"@);
            assert(db@.roles.any(named));
            let k = choose|k: int| 0 <= k < db@.roles.len() && #[trigger] named(db@.roles[k]);
            assert(db@.members[i].workspace_id == workspace_id);
            assert(db@.roles[k].id == db@.members[i].role_id);
        }
        if exists|i: int, k: int|
            {
                &&& 0 <= i < db@.members.len()
                &&& 0 <= k < db@.roles.len()
                &&& (#[trigger] db@.members[i]).workspace_id == workspace_id
                &&& Some(db@.members[i].uid) == uid
                &&& (#[trigger] db@.roles[k]).id == db@.members[i].role_id
                &&& db@.roles[k].name == "Owner"@
            } {
            let (i, k) = choose|i: int, k: int|
                {
                    &&& 0 <= i < db@.members.len()
                    &&& 0 <= k < db@.roles.len()
                    &&& (#[trigger] db@.members[i]).workspace_id == workspace_id
                    &&& Some(db@.members[i].uid) == uid
                    &&& (#[trigger] db@.roles[k]).id == db@.members[i].role_id
                    &&& db@.roles[k].name == "Owner"@
                };
            assert(role_named(db@.members[i].role_id, "Owner"@)(db@.roles[k]));
            assert(owner(db@.members[i]));
        }
    }
}

/// A role is that of the first row of the user in the workspace. Where there is none, it is not
/// found.
pub proof fn law_select_user_role(
    db: Database,
    uid: i64,
    workspace_id: Uuid,
    result: Result<i32, AppError>,
)
    requires
        call_ensures(select_user_role, (&db, &uid, &workspace_id), result),
    ensures
        (forall|i: int|
            0 <= i < db@.members.len() ==> !((#[trigger] db@.members[i]).workspace_id
                == workspace_id && db@.members[i].uid == uid)) ==> result == Err::<i32, AppError>(
            AppError::Database(DbError::RowNotFound),
        ),
        forall|i: int|
            #![trigger db@.members[i]]
            {
                &&& 0 <= i < db@.members.len()
                &&& db@.members[i].workspace_id == workspace_id
                &&& db@.members[i].uid == uid
                &&& forall|j: int|
                    0 <= j < i ==> !((#[trigger] db@.members[j]).workspace_id == workspace_id
                        && db@.members[j].uid == uid)
            } ==> result == Ok::<i32, AppError>(db@.members[i].role_id),
{
    let rows = db@.members;
    let this = is_member(workspace_id, Some(uid));
    lemma_none_chosen(rows, this);
    if rows.any(this) {
        let i = choose|i: int| 0 <= i < rows.len() && #[trigger] this(rows[i]);
        assert(rows[i].workspace_id == workspace_id);
    }
    assert forall|i: int|
        #![trigger db@.members[i]]
        {
            &&& 0 <= i < rows.len()
            &&& rows[i].workspace_id == workspace_id
            &&& rows[i].uid == uid
            &&& forall|j: int|
                0 <= j < i ==> !((#[trigger] rows[j]).workspace_id == workspace_id && rows[j].uid
                    == uid)
        } implies result == Ok::<i32, AppError>(db@.members[i].role_id) by {
        lemma_first_chosen(rows, this, i);
    }
}

/// The number of members is the number of rows with the workspace's identifier.
pub proof fn law_select_workspace_member_count_from_workspace_id(
    db: Database,
    workspace_id: Uuid,
    result: Result<Option<i64>, AppError>,
) -> (at: Seq<int>)
    requires
        call_ensures(
            select_workspace_member_count_from_workspace_id,
            (&db, &workspace_id),
            result,
        ),
    ensures
        forall|k: int|
            0 <= k < at.len() ==> 0 <= #[trigger] at[k] < db@.members.len()
                && db@.members[at[k]].workspace_id == workspace_id,
        forall|i: int|
            0 <= i < db@.members.len() && (#[trigger] db@.members[i]).workspace_id == workspace_id
                ==> at.contains(i),
        at.no_duplicates(),
        result == Ok::<Option<i64>, AppError>(Some(at.len() as i64)),
{
    let at = lemma_places(db@.members, is_in(workspace_id));
    assert forall|i: int|
        0 <= i < db@.members.len() && (#[trigger] db@.members[i]).workspace_id
            == workspace_id implies at.contains(i) by {
        assert(is_in(workspace_id)(db@.members[i]));
    }
    at
}

/// Each membership is streamed, in order, with its user, its role and its workspace.
pub proof fn law_select_workspace_member_perm_stream(
    db: Database,
    rows: Vec<AFWorkspaceMemberPermRow>,
)
    requires
        call_ensures(select_workspace_member_perm_stream, (&db,), rows),
    ensures
        rows@.len() == db@.members.len(),
        forall|i: int|
            0 <= i < db@.members.len() ==> {
                &&& (#[trigger] rows@[i]).uid == db@.members[i].uid
                &&& rows@[i].role == db@.members[i].role_id
                &&& rows@[i].workspace_id == db@.members[i].workspace_id
            },
{
}

/// The list has one row for each place where a member of the workspace and the user of that number
/// stand, with the user's number, name and address and the member's role; who became a member
/// earlier stands earlier.
pub proof fn law_select_workspace_member_list(
    db: Database,
    workspace_id: Uuid,
    result: Result<Vec<AFWorkspaceMemberRow>, AppError>,
) -> (made: (Seq<MemberRecord>, Seq<(int, int)>))
    requires
        call_ensures(select_workspace_member_list, (&db, &workspace_id), result),
    ensures
        result is Ok,
        ({
            let (ordered, at) = made;
            let rows = result->Ok_0@;
            &&& ordered.to_multiset() == db@.members.filter(
                |member: MemberRecord| member.workspace_id == workspace_id,
            ).to_multiset()
            &&& forall|i: int, j: int|
                0 <= i < j < ordered.len() ==> (#[trigger] ordered[i]).created_at <= (
                #[trigger] ordered[j]).created_at
            &&& at.no_duplicates()
            &&& at.len() == rows.len()
            &&& forall|i: int, j: int|
                #![trigger ordered[i], db@.users[j]]
                0 <= i < ordered.len() && 0 <= j < db@.users.len() && ordered[i].uid
                    == db@.users[j].uid ==> at.contains((i, j))
            &&& forall|k: int, l: int|
                0 <= k < l < at.len() ==> (#[trigger] at[k]).0 <= (#[trigger] at[l]).0
            &&& forall|k: int|
                #![trigger at[k]]
                #![trigger rows[k]]
                0 <= k < at.len() ==> {
                    &&& 0 <= at[k].0 < ordered.len()
                    &&& 0 <= at[k].1 < db@.users.len()
                    &&& ordered[at[k].0].uid == db@.users[at[k].1].uid
                    &&& rows[k].uid == db@.users[at[k].1].uid
                    &&& rows[k].name@ == db@.users[at[k].1].name
                    &&& rows[k].email@ == db@.users[at[k].1].email
                    &&& rows[k].role == ordered[at[k].0].role_id
                }
        }),
{
    let inside = |member: MemberRecord| member.workspace_id == workspace_id;
    lemma_same_chosen(db@.members, is_in(workspace_id), inside);
    let members = db@.members.filter(inside);
    let ordered = choose|ordered: Seq<MemberRecord>| #[trigger]
        in_creation_order(ordered, members) && seen(result) == Ok::<
            Seq<AFWorkspaceMemberRowView>,
            AppErrorView,
        >(listed(db@, ordered));
    let rows = result->Ok_0@;
    let list = result->Ok_0.deep_view();
    let on = is_user_of();
    let at = lemma_joined_places(ordered, db@.users, on);
    assert(list == listed(db@, ordered));
    assert(list.len() == rows.len());
    assert forall|i: int, j: int|
        #![trigger ordered[i], db@.users[j]]
        0 <= i < ordered.len() && 0 <= j < db@.users.len() && ordered[i].uid
            == db@.users[j].uid implies at.contains((i, j)) by {
        assert(on(ordered[i], db@.users[j]));
    }
    assert forall|k: int|
        #![trigger at[k]]
        #![trigger rows[k]]
        0 <= k < at.len() implies {
        &&& 0 <= at[k].0 < ordered.len()
        &&& 0 <= at[k].1 < db@.users.len()
        &&& ordered[at[k].0].uid == db@.users[at[k].1].uid
        &&& rows[k].uid == db@.users[at[k].1].uid
        &&& rows[k].name@ == db@.users[at[k].1].name
        &&& rows[k].email@ == db@.users[at[k].1].email
        &&& rows[k].role == ordered[at[k].0].role_id
    } by {
        assert(list[k] == rows[k].deep_view());
        assert(on(ordered[at[k].0], db@.users[at[k].1]));
    }
    (ordered, at)
}

/// A member is found with the role of the first row of the user in the workspace and with the name
/// and address of the first user of that number. Where one of the two rows is missing, no member
/// is found.
pub proof fn law_select_workspace_member(
    db: Database,
    uid: i64,
    workspace_id: Uuid,
    result: Result<AFWorkspaceMemberRow, AppError>,
)
    requires
        call_ensures(select_workspace_member, (&db, &uid, &workspace_id), result),
    ensures
        (forall|i: int|
            0 <= i < db@.members.len() ==> !((#[trigger] db@.members[i]).workspace_id
                == workspace_id && db@.members[i].uid == uid)) ==> result == Err::<
            AFWorkspaceMemberRow,
            AppError,
        >(AppError::Database(DbError::RowNotFound)),
        (forall|j: int| 0 <= j < db@.users.len() ==> (#[trigger] db@.users[j]).uid != uid)
            ==> result == Err::<AFWorkspaceMemberRow, AppError>(
            AppError::Database(DbError::RowNotFound),
        ),
        forall|i: int, j: int|
            #![trigger db@.members[i], db@.users[j]]
            {
                &&& 0 <= i < db@.members.len()
                &&& db@.members[i].workspace_id == workspace_id
                &&& db@.members[i].uid == uid
                &&& forall|k: int|
                    0 <= k < i ==> !((#[trigger] db@.members[k]).workspace_id == workspace_id
                        && db@.members[k].uid == uid)
                &&& 0 <= j < db@.users.len()
                &&& db@.users[j].uid == uid
                &&& forall|k: int| 0 <= k < j ==> (#[trigger] db@.users[k]).uid != uid
            } ==> {
                &&& result matches Ok(row)
                &&& row.uid == uid
                &&& row.name@ == db@.users[j].name
                &&& row.email@ == db@.users[j].email
                &&& row.role == db@.members[i].role_id
            },
{
    let this = is_member(workspace_id, Some(uid));
    let on = is_user_of();
    let found = db@.members.filter(this);
    let pairs = join(found, db@.users, on);
    let at = lemma_joined_places(found, db@.users, on);
    if pairs.len() > 0 {
        assert(on(found[at[0].0], db@.users[at[0].1]));
        lemma_chosen(db@.members, this, at[0].0);
        let i = choose|i: int|
            0 <= i < db@.members.len() && db@.members[i] == found[at[0].0];
        assert(db@.members[i].uid == uid);
        assert(db@.users[at[0].1].uid == uid);
    }
    assert forall|i: int, j: int|
        #![trigger db@.members[i], db@.users[j]]
        {
            &&& 0 <= i < db@.members.len()
            &&& db@.members[i].workspace_id == workspace_id
            &&& db@.members[i].uid == uid
            &&& forall|k: int|
                0 <= k < i ==> !((#[trigger] db@.members[k]).workspace_id == workspace_id
                    && db@.members[k].uid == uid)
            &&& 0 <= j < db@.users.len()
            &&& db@.users[j].uid == uid
            &&& forall|k: int| 0 <= k < j ==> (#[trigger] db@.users[k]).uid != uid
        } implies {
        &&& result matches Ok(row)
        &&& row.uid == uid
        &&& row.name@ == db@.users[j].name
        &&& row.email@ == db@.users[j].email
        &&& row.role == db@.members[i].role_id
    } by {
        lemma_first_chosen(db@.members, this, i);
        assert(on(found[0], db@.users[j]));
        let k = choose|k: int| 0 <= k < at.len() && at[k] == (0int, j);
        assert(at[0].0 >= 0 && at[0].1 >= 0);
        if k > 0 {
            assert(at[0].0 < at[k].0 || (at[0].0 == at[k].0 && at[0].1 < at[k].1));
            lemma_chosen(db@.members, this, at[0].0);
            assert(on(found[at[0].0], db@.users[at[0].1]));
            assert(db@.users[at[0].1].uid == uid);
        }
        assert(pairs[0] == (found[0], db@.users[j]));
        assert(listed(db@, found)[0] == result->Ok_0.deep_view());
    }
}

} // verus!
