//! Keys: no user stands twice in one workspace, and no view is published twice in one.

use vstd::prelude::*;

use crate::id::Uuid;
use crate::invitation::{InvitationDefaults, accepting, inviting};
use crate::lemmas::{lemma_chosen, lemma_chosen_apart};
use crate::member::{
    MemberDefaults, changing_role, is_member, is_removable, joining, removing, visiting, with_users,
};
use crate::publish::{
    PublishCollabItemView, is_new, is_one_of, is_view, publishing, refreshed, row_for, view_ids_of,
    without_published,
};
use crate::tables::{
    MemberRecord, PublishedRecordView, Tables, UserRecordView, user_has_email,
};
use crate::workspace::{
    WorkspaceDefaults, inserting, with_icon, with_name, with_namespace, with_settings,
    with_workspace, without_workspace,
};

verus! {

spec fn same_member() -> spec_fn(MemberRecord, MemberRecord) -> bool {
    |one: MemberRecord, other: MemberRecord|
        one.workspace_id == other.workspace_id && one.uid == other.uid
}

spec fn same_view() -> spec_fn(PublishedRecordView, PublishedRecordView) -> bool {
    |one: PublishedRecordView, other: PublishedRecordView|
        one.workspace_id == other.workspace_id && one.view_id == other.view_id
}

/// Removing a member keeps the keys.
pub proof fn law_removing_keeps_keys(tables: Tables, workspace_id: Uuid, member_email: Seq<char>)
    requires
        tables.keys_hold(),
    ensures
        removing(tables, workspace_id, member_email) matches Ok(after) ==> after.keys_hold(),
{
    if let Ok(after) = removing(tables, workspace_id, member_email) {
        let uid = tables.uid_by_email(member_email)->Ok_0;
        let owner = tables.owner_by_workspace(workspace_id)->Ok_0;
        let pred = is_removable(workspace_id, uid, owner);
        lemma_chosen_apart(tables.members, |member: MemberRecord| !pred(member), same_member());
        assert forall|i: int, j: int|
            #![trigger after.members[i], after.members[j]]
            0 <= i < j < after.members.len() implies !same_member()(
            after.members[i],
            after.members[j],
        ) by {}
    }
}

proof fn lemma_added_apart(
    members: Seq<MemberRecord>,
    workspace_id: Uuid,
    users: Seq<UserRecordView>,
    role_id: i32,
    defaults: MemberDefaults,
)
    requires
        forall|i: int, j: int|
            #![trigger members[i], members[j]]
            0 <= i < j < members.len() ==> !same_member()(members[i], members[j]),
    ensures
        ({
            let after = with_users(members, workspace_id, users, role_id, defaults);
            forall|i: int, j: int|
                #![trigger after[i], after[j]]
                0 <= i < j < after.len() ==> !same_member()(after[i], after[j])
        }),
    decreases users.len(),
{
    if users.len() > 0 {
        let front = users.drop_last();
        lemma_added_apart(members, workspace_id, front, role_id, defaults);
        let so_far = with_users(members, workspace_id, front, role_id, defaults);
        let after = with_users(members, workspace_id, users, role_id, defaults);
        let this = is_member(workspace_id, Some(users.last().uid));
        assert forall|i: int, j: int|
            #![trigger after[i], after[j]]
            0 <= i < j < after.len() implies !same_member()(after[i], after[j]) by {
            if j < so_far.len() {
                assert(!same_member()(so_far[i], so_far[j]));
            } else {
                assert(after[i] == so_far[i]);
                assert(!this(so_far[i]));
            }
        }
    }
}

/// Making somebody a member keeps the keys.
pub proof fn law_joining_keeps_keys(
    tables: Tables,
    workspace_id: Uuid,
    member_email: Seq<char>,
    role_id: i32,
    defaults: MemberDefaults,
)
    requires
        tables.keys_hold(),
    ensures
        joining(tables, workspace_id, member_email, role_id, defaults).keys_hold(),
{
    let users = tables.users.filter(user_has_email(member_email));
    lemma_added_apart(tables.members, workspace_id, users, role_id, defaults);
    let after = joining(tables, workspace_id, member_email, role_id, defaults);
    assert forall|i: int, j: int|
        #![trigger after.members[i], after.members[j]]
        0 <= i < j < after.members.len() implies !same_member()(
        after.members[i],
        after.members[j],
    ) by {}
}

/// Changing a member's role keeps the keys.
pub proof fn law_changing_role_keeps_keys(
    tables: Tables,
    workspace_id: Uuid,
    email: Seq<char>,
    role_id: i32,
)
    requires
        tables.keys_hold(),
    ensures
        changing_role(tables, workspace_id, email, role_id) matches Ok(after) ==> after.keys_hold(),
{
    if let Ok(after) = changing_role(tables, workspace_id, email, role_id) {
        assert forall|i: int, j: int|
            #![trigger after.members[i], after.members[j]]
            0 <= i < j < after.members.len() implies !same_member()(
            after.members[i],
            after.members[j],
        ) by {
            assert(!same_member()(tables.members[i], tables.members[j]));
        }
    }
}

/// Recording a visit keeps the keys.
pub proof fn law_visiting_keeps_keys(
    tables: Tables,
    user_uuid: Uuid,
    workspace_id: Uuid,
    now: i64,
)
    requires
        tables.keys_hold(),
    ensures
        visiting(tables, user_uuid, workspace_id, now) matches Ok(after) ==> after.keys_hold(),
{
    if let Ok(after) = visiting(tables, user_uuid, workspace_id, now) {
        assert forall|i: int, j: int|
            #![trigger after.members[i], after.members[j]]
            0 <= i < j < after.members.len() implies !same_member()(
            after.members[i],
            after.members[j],
        ) by {
            assert(!same_member()(tables.members[i], tables.members[j]));
        }
    }
}

/// Publishing keeps the keys.
pub proof fn law_publishing_keeps_keys(
    tables: Tables,
    workspace_id: Uuid,
    publisher_uuid: Uuid,
    items: Seq<PublishCollabItemView>,
)
    requires
        tables.keys_hold(),
    ensures
        publishing(tables, workspace_id, publisher_uuid, items) matches Ok(after)
            ==> after.keys_hold(),
{
    if items.len() > 0 && publishing(tables, workspace_id, publisher_uuid, items) is Ok {
        let after = publishing(tables, workspace_id, publisher_uuid, items)->Ok_0;
        let published_by = tables.uid_by_uuid(publisher_uuid)->Ok_0;
        let rows = tables.published;
        let fresh = is_new(rows, workspace_id);
        let chosen = items.filter(fresh);
        let same_item = |one: PublishCollabItemView, other: PublishCollabItemView|
            one.view_id == other.view_id;
        let n = rows.len() as int;
        assert forall|i: int, j: int|
            #![trigger items[i], items[j]]
            0 <= i < j < items.len() implies !same_item(items[i], items[j]) by {
            assert(view_ids_of(items)[i] != view_ids_of(items)[j]);
        }
        lemma_chosen_apart(items, fresh, same_item);
        assert forall|i: int, j: int|
            #![trigger after.published[i], after.published[j]]
            0 <= i < j < after.published.len() implies !same_view()(
            after.published[i],
            after.published[j],
        ) by {
            if j < n {
                assert(!same_view()(rows[i], rows[j]));
            } else {
                assert(after.published[j] == row_for(workspace_id, published_by)(chosen[j - n]));
                if i < n {
                    lemma_chosen(items, fresh, j - n);
                    assert(!rows.any(is_view(workspace_id, chosen[j - n].view_id)));
                    assert(!is_view(workspace_id, chosen[j - n].view_id)(rows[i]));
                    assert(after.published[i] == refreshed(workspace_id, items)(rows[i]));
                } else {
                    assert(after.published[i] == row_for(workspace_id, published_by)(
                        chosen[i - n],
                    ));
                    assert(!same_item(chosen[i - n], chosen[j - n]));
                }
            }
        }
    }
}

/// Taking published views back keeps the keys.
pub proof fn law_withdrawing_keeps_keys(tables: Tables, workspace_id: Uuid, view_ids: Seq<Uuid>)
    requires
        tables.keys_hold(),
    ensures
        without_published(tables, workspace_id, view_ids).keys_hold(),
{
    let pred = is_one_of(workspace_id, view_ids);
    let after = without_published(tables, workspace_id, view_ids);
    lemma_chosen_apart(tables.published, |row: PublishedRecordView| !pred(row), same_view());
    assert forall|i: int, j: int|
        #![trigger after.published[i], after.published[j]]
        0 <= i < j < after.published.len() implies !same_view()(
        after.published[i],
        after.published[j],
    ) by {}
}

/// The operations on workspaces keep the keys.
pub proof fn law_workspace_changes_keep_keys(
    tables: Tables,
    workspace_id: Uuid,
    text: Seq<char>,
    settings: serde_json::Value,
    user_uuid: Uuid,
    defaults: WorkspaceDefaults,
)
    requires
        tables.keys_hold(),
    ensures
        with_workspace(tables, workspace_id, with_name(text)).keys_hold(),
        with_workspace(tables, workspace_id, with_icon(text)).keys_hold(),
        with_workspace(tables, workspace_id, with_settings(settings)).keys_hold(),
        with_workspace(tables, workspace_id, with_namespace(text)).keys_hold(),
        without_workspace(tables, workspace_id).keys_hold(),
        inserting(tables, user_uuid, text, defaults) matches Ok((workspace, _)) ==> (Tables {
            workspaces: tables.workspaces.push(workspace),
            ..tables
        }).keys_hold(),
{
}

/// The operations on invitations keep the keys.
pub proof fn law_invitation_changes_keep_keys(
    tables: Tables,
    invite_id: Uuid,
    workspace_id: Uuid,
    user_uuid: Uuid,
    email: Seq<char>,
    role_id: i32,
    defaults: InvitationDefaults,
)
    requires
        tables.keys_hold(),
    ensures
        inviting(tables, invite_id, workspace_id, user_uuid, email, role_id, defaults) matches Ok(
            after,
        ) ==> after.keys_hold(),
        accepting(tables, user_uuid, invite_id).1.keys_hold(),
{
}

} // verus!
