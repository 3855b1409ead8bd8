//! Members.

use vstd::prelude::*;

use crate::error::{AppErrorView, DbError};
use crate::id::Uuid;
use crate::lemmas::{
    lemma_chosen, lemma_chosen_after_change, lemma_chosen_after_push, lemma_chosen_apart,
    lemma_gone, lemma_join_len, lemma_joined, lemma_none_chosen, lemma_nothing_changed,
    lemma_others_kept, lemma_others_unchanged, lemma_same_left,
};
use crate::member::{
    AFWorkspaceMemberRowView, MemberDefaults, changing_role, in_creation_order, is_in, is_member,
    is_owner_member, is_removable, is_user_of, joining, listed, member_found, member_row,
    new_member, owns, removing, role_in, role_named, visiting, with_role, with_update, with_users,
};
use crate::outcome::owner_stays;
use crate::relation::{changed, join, without};
use crate::tables::{
    MemberRecord, Tables, UserRecordView, user_has_email, user_has_uid, workspace_has_id,
};

verus! {

/// The owner of a workspace is never removed from it: the request is refused, the refusal names
/// the address and the workspace, and whatever else is removed, the owner's rows stay.
pub proof fn law_owner_is_not_removed(
    tables: Tables,
    workspace_id: Uuid,
    owner: i64,
    member_email: Seq<char>,
)
    requires
        tables.owner_by_workspace(workspace_id) == Ok::<Option<i64>, DbError>(Some(owner)),
    ensures
        tables.uid_by_email(member_email) == Ok::<Option<i64>, DbError>(Some(owner)) ==> removing(
            tables,
            workspace_id,
            member_email,
        ) == Err::<Tables, AppErrorView>(owner_stays(workspace_id, member_email)),
        removing(tables, workspace_id, member_email) matches Ok(after) ==> after.members.filter(
            is_member(workspace_id, Some(owner)),
        ) == tables.members.filter(is_member(workspace_id, Some(owner))),
{
    lemma_only_owner(tables, workspace_id, owner);
    if let Ok(uid) = tables.uid_by_email(member_email) {
        lemma_others_kept(
            tables.members,
            is_removable(workspace_id, uid, Some(owner)),
            is_member(workspace_id, Some(owner)),
        );
    }
}

/// A workspace that has one owner is owned by nobody else.
proof fn lemma_only_owner(tables: Tables, workspace_id: Uuid, owner: i64)
    requires
        tables.owner_by_workspace(workspace_id) == Ok::<Option<i64>, DbError>(Some(owner)),
    ensures
        forall|uid: i64|
            #[trigger] tables.workspaces.any(owns(workspace_id, Some(uid))) <==> uid == owner,
{
    let this = workspace_has_id(workspace_id);
    let found = tables.workspaces.filter(this);
    assert(found.len() == 1 && found[0].owner_uid == Some(owner));
    assert forall|uid: i64|
        #[trigger] tables.workspaces.any(owns(workspace_id, Some(uid))) <==> uid == owner by {
        let mine = owns(workspace_id, Some(uid));
        if tables.workspaces.any(mine) {
            let k = choose|k: int|
                0 <= k < tables.workspaces.len() && #[trigger] mine(tables.workspaces[k]);
            tables.workspaces.lemma_filter_contains(this, k);
            let i = choose|i: int| 0 <= i < found.len() && found[i] == tables.workspaces[k];
            assert(found[i] == found[0]);
        }
        if uid == owner {
            lemma_chosen(tables.workspaces, this, 0);
            let k = choose|k: int|
                0 <= k < tables.workspaces.len() && tables.workspaces[k] == found[0];
            assert(mine(tables.workspaces[k]));
        }
    }
}

/// Anybody but the owner can be removed from a workspace that has an owner: the user is then no
/// member of it and has no role in it, and every other membership stays.
pub proof fn law_removed_member_is_gone(
    tables: Tables,
    workspace_id: Uuid,
    owner: i64,
    uid: i64,
    member_email: Seq<char>,
)
    requires
        tables.owner_by_workspace(workspace_id) == Ok::<Option<i64>, DbError>(Some(owner)),
        tables.uid_by_email(member_email) == Ok::<Option<i64>, DbError>(Some(uid)),
        uid != owner,
    ensures
        removing(tables, workspace_id, member_email) == Ok::<Tables, AppErrorView>(
            Tables {
                members: without(tables.members, is_member(workspace_id, Some(uid))),
                ..tables
            },
        ),
        !removing(tables, workspace_id, member_email)->Ok_0.members.any(
            is_member(workspace_id, Some(uid)),
        ),
        role_in(removing(tables, workspace_id, member_email)->Ok_0, uid, workspace_id) == Err::<
            i32,
            DbError,
        >(DbError::RowNotFound),
        forall|other: i64, elsewhere: Uuid|
            (other != uid || elsewhere != workspace_id) ==> role_in(
                removing(tables, workspace_id, member_email)->Ok_0,
                other,
                elsewhere,
            ) == #[trigger] role_in(tables, other, elsewhere),
{
    let removed = is_removable(workspace_id, Some(uid), Some(owner));
    let this = is_member(workspace_id, Some(uid));
    lemma_only_owner(tables, workspace_id, owner);
    assert(!tables.workspaces.any(owns(workspace_id, Some(uid))));
    assert forall|i: int| 0 <= i < tables.members.len() implies removed(
        #[trigger] tables.members[i],
    ) == this(tables.members[i]) by {}
    lemma_same_left(tables.members, removed, this);
    lemma_gone(tables.members, this, this);
    assert forall|other: i64, elsewhere: Uuid|
        (other != uid || elsewhere != workspace_id) implies role_in(
        removing(tables, workspace_id, member_email)->Ok_0,
        other,
        elsewhere,
    ) == #[trigger] role_in(tables, other, elsewhere) by {
        lemma_others_kept(tables.members, this, is_member(elsewhere, Some(other)));
    }
}

/// Adding users keeps the members that were there, adds nobody else, and makes a member of each.
pub proof fn lemma_added(
    members: Seq<MemberRecord>,
    workspace_id: Uuid,
    users: Seq<UserRecordView>,
    role_id: i32,
    defaults: MemberDefaults,
)
    ensures
        ({
            let after = with_users(members, workspace_id, users, role_id, defaults);
            &&& members.len() <= after.len()
            &&& after.take(members.len() as int) == members
            &&& forall|i: int|
                members.len() <= i < after.len() ==> #[trigger] after[i] == new_member(
                    workspace_id,
                    after[i].uid,
                    role_id,
                    defaults,
                )
            &&& forall|k: int|
                0 <= k < users.len() ==> after.any(
                    is_member(workspace_id, Some((#[trigger] users[k]).uid)),
                )
            &&& forall|uid: i64| #[trigger]
                members.any(is_member(workspace_id, Some(uid))) ==> after.filter(
                    is_member(workspace_id, Some(uid)),
                ) == members.filter(is_member(workspace_id, Some(uid)))
            &&& forall|uid: i64|
                !(#[trigger] members.any(is_member(workspace_id, Some(uid)))) && (exists|k: int|
                    0 <= k < users.len() && (#[trigger] users[k]).uid == uid) ==> after.filter(
                    is_member(workspace_id, Some(uid)),
                ) == seq![new_member(workspace_id, uid, role_id, defaults)]
        }),
    decreases users.len(),
{
    let after = with_users(members, workspace_id, users, role_id, defaults);
    if users.len() == 0 {
        assert(after.take(members.len() as int) =~= members);
    } else {
        let front = users.drop_last();
        let uid = users.last().uid;
        let this = is_member(workspace_id, Some(uid));
        let so_far = with_users(members, workspace_id, front, role_id, defaults);
        let added = new_member(workspace_id, uid, role_id, defaults);
        lemma_added(members, workspace_id, front, role_id, defaults);
        assert(after.take(members.len() as int) =~= so_far.take(members.len() as int));
        if !so_far.any(this) {
            assert(this(after[so_far.len() as int]));
        }
        assert(after.any(this));
        assert forall|k: int| 0 <= k < users.len() implies after.any(
            is_member(workspace_id, Some((#[trigger] users[k]).uid)),
        ) by {
            if k < front.len() {
                assert(front[k] == users[k]);
                let one = is_member(workspace_id, Some(front[k].uid));
                let i = choose|i: int| 0 <= i < so_far.len() && #[trigger] one(so_far[i]);
                assert(one(after[i]));
            }
        }
        assert forall|other: i64| #[trigger]
            members.any(is_member(workspace_id, Some(other))) implies after.filter(
            is_member(workspace_id, Some(other)),
        ) == members.filter(is_member(workspace_id, Some(other))) by {
            let one = is_member(workspace_id, Some(other));
            lemma_chosen_after_push(so_far, added, one);
            if other == uid {
                let i = choose|i: int| 0 <= i < members.len() && #[trigger] one(members[i]);
                assert(so_far.take(members.len() as int)[i] == members[i]);
                assert(one(so_far[i]));
            }
        }
        assert forall|other: i64|
            !(#[trigger] members.any(is_member(workspace_id, Some(other)))) && (exists|k: int|
                0 <= k < users.len() && (#[trigger] users[k]).uid == other) implies after.filter(
            is_member(workspace_id, Some(other)),
        ) == seq![new_member(workspace_id, other, role_id, defaults)] by {
            let one = is_member(workspace_id, Some(other));
            lemma_chosen_after_push(so_far, added, one);
            if exists|k: int| 0 <= k < front.len() && (#[trigger] front[k]).uid == other {
                let k = choose|k: int| 0 <= k < front.len() && (#[trigger] front[k]).uid == other;
                assert(so_far.any(is_member(workspace_id, Some(front[k].uid))));
            } else {
                let k = choose|k: int| 0 <= k < users.len() && (#[trigger] users[k]).uid == other;
                if k < front.len() {
                    assert(front[k] == users[k]);
                }
                assert(other == uid);
                lemma_absent(members, workspace_id, front, role_id, defaults, other);
                lemma_none_chosen(so_far, one);
                assert(so_far.filter(one) =~= Seq::empty());
                assert(after.filter(one) =~= seq![added]);
            }
        }
    }
}

/// Whoever was no member and is none of the added users is no member afterwards.
pub proof fn lemma_absent(
    members: Seq<MemberRecord>,
    workspace_id: Uuid,
    users: Seq<UserRecordView>,
    role_id: i32,
    defaults: MemberDefaults,
    uid: i64,
)
    requires
        !members.any(is_member(workspace_id, Some(uid))),
        forall|k: int| 0 <= k < users.len() ==> (#[trigger] users[k]).uid != uid,
    ensures
        !with_users(members, workspace_id, users, role_id, defaults).any(
            is_member(workspace_id, Some(uid)),
        ),
    decreases users.len(),
{
    if users.len() > 0 {
        let front = users.drop_last();
        let one = is_member(workspace_id, Some(uid));
        let so_far = with_users(members, workspace_id, front, role_id, defaults);
        let after = with_users(members, workspace_id, users, role_id, defaults);
        assert forall|k: int| 0 <= k < front.len() implies (#[trigger] front[k]).uid != uid by {
            assert(front[k] == users[k]);
        }
        lemma_absent(members, workspace_id, front, role_id, defaults, uid);
        assert(users[users.len() - 1].uid != uid);
        if after.any(one) {
            let i = choose|i: int| 0 <= i < after.len() && #[trigger] one(after[i]);
            if i < so_far.len() {
                assert(one(so_far[i]));
            }
        }
    }
}

/// Making somebody a member: whoever has the address is a member afterwards; one who was a member
/// keeps the role, one who was not has the new one; and all other memberships stay.
pub proof fn law_user_becomes_a_member(
    tables: Tables,
    workspace_id: Uuid,
    member_email: Seq<char>,
    role_id: i32,
    defaults: MemberDefaults,
    uid: i64,
)
    ensures
        ({
            let after = joining(tables, workspace_id, member_email, role_id, defaults);
            let has_address = exists|k: int|
                0 <= k < tables.users.len() && (#[trigger] tables.users[k]).email == member_email
                    && tables.users[k].uid == uid;
            let was_member = tables.members.any(is_member(workspace_id, Some(uid)));
            &&& has_address ==> after.members.any(is_member(workspace_id, Some(uid)))
            &&& has_address && !was_member ==> role_in(after, uid, workspace_id) == Ok::<
                i32,
                DbError,
            >(role_id)
            &&& has_address && was_member ==> role_in(after, uid, workspace_id) == role_in(
                tables,
                uid,
                workspace_id,
            )
            &&& !has_address ==> role_in(after, uid, workspace_id) == role_in(
                tables,
                uid,
                workspace_id,
            )
            &&& forall|elsewhere: Uuid|
                elsewhere != workspace_id ==> #[trigger] role_in(after, uid, elsewhere) == role_in(
                    tables,
                    uid,
                    elsewhere,
                )
        }),
{
    let addressed = user_has_email(member_email);
    let users = tables.users.filter(addressed);
    let after = joining(tables, workspace_id, member_email, role_id, defaults);
    let this = is_member(workspace_id, Some(uid));
    lemma_added(tables.members, workspace_id, users, role_id, defaults);
    if exists|k: int|
        0 <= k < tables.users.len() && (#[trigger] tables.users[k]).email == member_email
            && tables.users[k].uid == uid {
        let k = choose|k: int|
            0 <= k < tables.users.len() && (#[trigger] tables.users[k]).email == member_email
                && tables.users[k].uid == uid;
        tables.users.lemma_filter_contains(addressed, k);
        let i = choose|i: int| 0 <= i < users.len() && users[i] == tables.users[k];
        assert(users[i].uid == uid);
        assert(after.members.any(is_member(workspace_id, Some(users[i].uid))));
    } else {
        assert forall|i: int| 0 <= i < users.len() implies (#[trigger] users[i]).uid != uid by {
            lemma_chosen(tables.users, addressed, i);
            let k = choose|k: int| 0 <= k < tables.users.len() && tables.users[k] == users[i];
            assert(tables.users[k].email == member_email);
        }
        if tables.members.any(this) {
            assert(after.members.filter(this) == tables.members.filter(this));
        } else {
            lemma_absent(tables.members, workspace_id, users, role_id, defaults, uid);
            lemma_none_chosen(tables.members, this);
            lemma_none_chosen(after.members, this);
        }
    }
    assert forall|elsewhere: Uuid| elsewhere != workspace_id implies #[trigger] role_in(
        after,
        uid,
        elsewhere,
    ) == role_in(tables, uid, elsewhere) by {
        let other = is_member(elsewhere, Some(uid));
        let n = tables.members.len() as int;
        let added = after.members.skip(n);
        assert(after.members =~= tables.members + added);
        Seq::filter_distributes_over_add(tables.members, added, other);
        if added.any(other) {
            let i = choose|i: int| 0 <= i < added.len() && #[trigger] other(added[i]);
            assert(added[i] == after.members[n + i]);
        }
        lemma_none_chosen(added, other);
        assert(after.members.filter(other) =~= tables.members.filter(other));
    }
}

/// Making somebody a member twice does what doing it once does.
pub proof fn law_joining_twice_is_joining_once(
    tables: Tables,
    workspace_id: Uuid,
    member_email: Seq<char>,
    role_id: i32,
    defaults: MemberDefaults,
    other_role_id: i32,
    other_defaults: MemberDefaults,
)
    ensures
        joining(
            joining(tables, workspace_id, member_email, role_id, defaults),
            workspace_id,
            member_email,
            other_role_id,
            other_defaults,
        ) == joining(tables, workspace_id, member_email, role_id, defaults),
{
    let users = tables.users.filter(user_has_email(member_email));
    let once = joining(tables, workspace_id, member_email, role_id, defaults);
    lemma_added(tables.members, workspace_id, users, role_id, defaults);
    lemma_all_present(once.members, workspace_id, users, other_role_id, other_defaults);
}

/// Nobody is added where all are members already.
proof fn lemma_all_present(
    members: Seq<MemberRecord>,
    workspace_id: Uuid,
    users: Seq<UserRecordView>,
    role_id: i32,
    defaults: MemberDefaults,
)
    requires
        forall|k: int|
            0 <= k < users.len() ==> members.any(
                is_member(workspace_id, Some((#[trigger] users[k]).uid)),
            ),
    ensures
        with_users(members, workspace_id, users, role_id, defaults) == members,
    decreases users.len(),
{
    if users.len() > 0 {
        let front = users.drop_last();
        assert forall|k: int| 0 <= k < front.len() implies members.any(
            is_member(workspace_id, Some((#[trigger] front[k]).uid)),
        ) by {
            assert(front[k] == users[k]);
        }
        lemma_all_present(members, workspace_id, front, role_id, defaults);
        assert(members.any(is_member(workspace_id, Some(users[users.len() - 1].uid))));
    }
}

/// A member who was given a role has that role afterwards; all other memberships stay, and one who
/// is no member does not become one.
pub proof fn law_role_is_read_back(
    tables: Tables,
    workspace_id: Uuid,
    email: Seq<char>,
    role_id: i32,
    uid: i64,
)
    requires
        tables.uid_by_email(email) == Ok::<Option<i64>, DbError>(Some(uid)),
    ensures
        changing_role(tables, workspace_id, email, role_id) is Ok,
        tables.members.any(is_member(workspace_id, Some(uid))) ==> role_in(
            changing_role(tables, workspace_id, email, role_id)->Ok_0,
            uid,
            workspace_id,
        ) == Ok::<i32, DbError>(role_id),
        !tables.members.any(is_member(workspace_id, Some(uid))) ==> changing_role(
            tables,
            workspace_id,
            email,
            role_id,
        ) == Ok::<Tables, DbError>(tables),
        forall|other: i64, elsewhere: Uuid|
            (other != uid || elsewhere != workspace_id) ==> role_in(
                changing_role(tables, workspace_id, email, role_id)->Ok_0,
                other,
                elsewhere,
            ) == #[trigger] role_in(tables, other, elsewhere),
{
    let this = is_member(workspace_id, Some(uid));
    let change = with_role(role_id);
    let found = tables.members.filter(this);
    lemma_none_chosen(tables.members, this);
    lemma_chosen_after_change(tables.members, this, change, this);
    if found.len() > 0 {
        lemma_chosen(tables.members, this, 0);
        assert(changed(found, this, change)[0] == change(found[0]));
    } else {
        lemma_nothing_changed(tables.members, this, change);
    }
    assert forall|other: i64, elsewhere: Uuid|
        (other != uid || elsewhere != workspace_id) implies role_in(
        changing_role(tables, workspace_id, email, role_id)->Ok_0,
        other,
        elsewhere,
    ) == #[trigger] role_in(tables, other, elsewhere) by {
        lemma_others_unchanged(tables.members, this, change, is_member(elsewhere, Some(other)));
    }
}

/// A member whose role was changed is an owner exactly when the new role is named `Owner`.
pub proof fn law_owner_role_makes_an_owner(
    tables: Tables,
    workspace_id: Uuid,
    email: Seq<char>,
    role_id: i32,
    uid: i64,
)
    requires
        tables.uid_by_email(email) == Ok::<Option<i64>, DbError>(Some(uid)),
        tables.members.any(is_member(workspace_id, Some(uid))),
    ensures
        ({
            let after = changing_role(tables, workspace_id, email, role_id)->Ok_0;
            after.members.any(is_owner_member(after, workspace_id, Some(uid)))
                <==> tables.roles.any(role_named(role_id, "Owner"@))
        }),
{
    let after = changing_role(tables, workspace_id, email, role_id)->Ok_0;
    let this = is_member(workspace_id, Some(uid));
    let owner = is_owner_member(after, workspace_id, Some(uid));
    if after.members.any(owner) {
        let k = choose|k: int| 0 <= k < after.members.len() && #[trigger] owner(after.members[k]);
        assert(this(tables.members[k]));
    }
    if tables.roles.any(role_named(role_id, "Owner"@)) {
        let k = choose|k: int| 0 <= k < tables.members.len() && #[trigger] this(tables.members[k]);
        assert(owner(after.members[k]));
    }
}

/// Recording a visit changes nobody's role.
pub proof fn law_visit_keeps_the_roles(
    tables: Tables,
    user_uuid: Uuid,
    workspace_id: Uuid,
    now: i64,
    uid: i64,
    elsewhere: Uuid,
)
    ensures
        visiting(tables, user_uuid, workspace_id, now) matches Ok(after) ==> role_in(
            after,
            uid,
            elsewhere,
        ) == role_in(tables, uid, elsewhere),
{
    if let Ok(visitor) = tables.uid_by_uuid(user_uuid) {
        let this = is_member(workspace_id, visitor);
        let asked = is_member(elsewhere, Some(uid));
        let change = with_update(now);
        lemma_chosen_after_change(tables.members, this, change, asked);
        let found = tables.members.filter(asked);
        if found.len() > 0 {
            assert(changed(found, this, change)[0].role_id == found[0].role_id);
        }
    }
}

/// Where each member of the workspace is one user, the list of its members is as long as their
/// number says. A workspace without members has the number 0 and an empty list.
pub proof fn law_list_has_each_member(
    tables: Tables,
    workspace_id: Uuid,
    ordered: Seq<MemberRecord>,
)
    requires
        in_creation_order(ordered, tables.members.filter(is_in(workspace_id))),
        forall|i: int|
            0 <= i < tables.members.filter(is_in(workspace_id)).len() ==> tables.users.filter(
                |user: UserRecordView|
                    is_user_of()(#[trigger] tables.members.filter(is_in(workspace_id))[i], user),
            ).len() == 1,
    ensures
        listed(tables, ordered).len() == tables.members.filter(is_in(workspace_id)).len(),
        !tables.members.any(is_in(workspace_id)) ==> listed(tables, ordered).len() == 0,
{
    broadcast use vstd::seq_lib::group_to_multiset_ensures;

    let members = tables.members.filter(is_in(workspace_id));
    assert(ordered.to_multiset().len() == members.to_multiset().len());
    assert forall|i: int| 0 <= i < ordered.len() implies tables.users.filter(
        |user: UserRecordView| is_user_of()(#[trigger] ordered[i], user),
    ).len() == 1 by {
        lemma_same_members(ordered, members, ordered[i]);
        assert(ordered.contains(ordered[i]));
        let k = choose|k: int| 0 <= k < members.len() && members[k] == ordered[i];
        assert(tables.users.filter(
            |user: UserRecordView| is_user_of()(members[k], user),
        ).len() == 1);
    }
    lemma_join_len(ordered, tables.users, is_user_of());
    lemma_none_chosen(tables.members, is_in(workspace_id));
}

/// Ordering members adds none and leaves none out.
pub proof fn lemma_same_members(
    ordered: Seq<MemberRecord>,
    members: Seq<MemberRecord>,
    member: MemberRecord,
)
    requires
        in_creation_order(ordered, members),
    ensures
        ordered.contains(member) <==> members.contains(member),
{
    broadcast use vstd::seq_lib::group_to_multiset_ensures;

    assert(ordered.to_multiset().count(member) == members.to_multiset().count(member));
}

/// A member is found exactly when the list of members has a row of that user, and what is found is
/// in the list.
pub proof fn law_found_member_is_listed(
    tables: Tables,
    workspace_id: Uuid,
    uid: i64,
    ordered: Seq<MemberRecord>,
)
    requires
        in_creation_order(ordered, tables.members.filter(is_in(workspace_id))),
    ensures
        member_found(tables, uid, workspace_id) is Ok <==> exists|i: int|
            0 <= i < listed(tables, ordered).len() && (#[trigger] listed(tables, ordered)[i]).uid
                == uid,
        member_found(tables, uid, workspace_id) matches Ok(row) ==> row.uid == uid && listed(
            tables,
            ordered,
        ).contains(row),
        member_found(tables, uid, workspace_id) matches Err(error) ==> error
            == DbError::RowNotFound,
{
    let this = is_member(workspace_id, Some(uid));
    let inside = is_in(workspace_id);
    let on = is_user_of();
    let found = tables.members.filter(this);
    let members = tables.members.filter(inside);
    let pairs = join(found, tables.users, on);
    let all = join(ordered, tables.users, on);
    let list = listed(tables, ordered);
    if pairs.len() > 0 {
        let (member, user) = pairs[0];
        assert(pairs.contains((member, user)));
        lemma_joined(found, tables.users, on, member, user);
        let i = choose|i: int| 0 <= i < found.len() && found[i] == member;
        lemma_chosen(tables.members, this, i);
        let k = choose|k: int| 0 <= k < tables.members.len() && tables.members[k] == member;
        assert(inside(tables.members[k]));
        tables.members.lemma_filter_contains(inside, k);
        lemma_same_members(ordered, members, member);
        lemma_joined(ordered, tables.users, on, member, user);
        let j = choose|j: int| 0 <= j < all.len() && all[j] == (member, user);
        assert(list[j] == member_row()((member, user)));
        assert(listed(tables, found)[0] == list[j]);
    }
    if exists|i: int| 0 <= i < list.len() && (#[trigger] list[i]).uid == uid {
        let i = choose|i: int| 0 <= i < list.len() && (#[trigger] list[i]).uid == uid;
        let (member, user) = all[i];
        assert(all.contains((member, user)));
        lemma_joined(ordered, tables.users, on, member, user);
        lemma_same_members(ordered, members, member);
        let j = choose|j: int| 0 <= j < members.len() && members[j] == member;
        lemma_chosen(tables.members, inside, j);
        let k = choose|k: int| 0 <= k < tables.members.len() && tables.members[k] == member;
        assert(this(tables.members[k]));
        tables.members.lemma_filter_contains(this, k);
        lemma_joined(found, tables.users, on, member, user);
        assert(pairs.contains((member, user)));
    }
}

/// A member who is one user is found with the user's name and address and with the role that the
/// member has.
pub proof fn law_member_is_found_with_the_role(
    tables: Tables,
    workspace_id: Uuid,
    uid: i64,
    user: UserRecordView,
)
    requires
        tables.keys_hold(),
        tables.members.any(is_member(workspace_id, Some(uid))),
        tables.users.filter(user_has_uid(Some(uid))) == seq![user],
    ensures
        role_in(tables, uid, workspace_id) is Ok,
        member_found(tables, uid, workspace_id) == Ok::<AFWorkspaceMemberRowView, DbError>(
            AFWorkspaceMemberRowView {
                uid,
                name: user.name,
                email: user.email,
                role: role_in(tables, uid, workspace_id)->Ok_0,
            },
        ),
{
    let this = is_member(workspace_id, Some(uid));
    let found = tables.members.filter(this);
    let alike = |one: MemberRecord, other: MemberRecord|
        one.workspace_id == other.workspace_id && one.uid == other.uid;
    lemma_none_chosen(tables.members, this);
    lemma_chosen_apart(tables.members, this, alike);
    lemma_chosen(tables.members, this, 0);
    if found.len() > 1 {
        lemma_chosen(tables.members, this, 1);
        assert(!alike(found[0], found[1]));
    }
    let member = found[0];
    assert(found =~= seq![member]);
    let fits = |user: UserRecordView| is_user_of()(member, user);
    assert(fits =~= user_has_uid(Some(uid)));
    lemma_chosen(tables.users, user_has_uid(Some(uid)), 0);
    let pairs = join(found, tables.users, is_user_of());
    assert(join(found.drop_last(), tables.users, is_user_of()) =~= Seq::empty());
    assert(pairs =~= seq![(member, user)]);
}

} // verus!
