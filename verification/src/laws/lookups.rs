//! Lookups of one value.

use vstd::prelude::*;

use crate::error::DbError;
use crate::id::Uuid;
use crate::lemmas::{lemma_none_chosen, lemma_one_chosen, lemma_two_chosen};
use crate::tables::{
    Tables, user_has_email, user_has_uid, user_has_uuid, workspace_has_id, workspace_has_namespace,
};

verus! {

/// The number of the user with the identifier: none where there is none, an error where there are
/// several.
pub proof fn law_uid_by_uuid(tables: Tables, uuid: Uuid)
    ensures
        (forall|i: int|
            0 <= i < tables.users.len() ==> !((#[trigger] tables.users[i]).uuid == uuid))
            ==> tables.uid_by_uuid(uuid) == Ok::<Option<i64>, DbError>(None),
        forall|i: int|
            #![trigger tables.users[i]]
            {
                &&& 0 <= i < tables.users.len()
                &&& tables.users[i].uuid == uuid
                &&& forall|j: int|
                    0 <= j < tables.users.len() && j != i
                        ==> !((#[trigger] tables.users[j]).uuid == uuid)
            } ==> tables.uid_by_uuid(uuid) == Ok::<Option<i64>, DbError>(Some(tables.users[i].uid)),
        forall|i: int, j: int|
            #![trigger tables.users[i], tables.users[j]]
            {
                &&& 0 <= i < j < tables.users.len()
                &&& tables.users[i].uuid == uuid
                &&& tables.users[j].uuid == uuid
            } ==> tables.uid_by_uuid(uuid)
                == Err::<Option<i64>, DbError>(DbError::CardinalityViolation),
        tables.uid_by_uuid(uuid) matches Err(error) ==> error
            == DbError::CardinalityViolation,
{
    let this = user_has_uuid(uuid);
    lemma_none_chosen(tables.users, this);
    if tables.users.any(this) {
        let i = choose|i: int|
            0 <= i < tables.users.len() && #[trigger] this(tables.users[i]);
        assert(tables.users[i].uuid == uuid);
    }
    assert forall|i: int|
        #![trigger tables.users[i]]
        {
            &&& 0 <= i < tables.users.len()
            &&& tables.users[i].uuid == uuid
            &&& forall|j: int|
                0 <= j < tables.users.len() && j != i
                    ==> !((#[trigger] tables.users[j]).uuid == uuid)
        } implies tables.uid_by_uuid(uuid)
            == Ok::<Option<i64>, DbError>(Some(tables.users[i].uid)) by {
        assert forall|j: int| 0 <= j < tables.users.len() implies this(
            #[trigger] tables.users[j],
        ) == (j == i) by {}
        lemma_one_chosen(tables.users, this, i);
    }
    assert forall|i: int, j: int|
        #![trigger tables.users[i], tables.users[j]]
        {
            &&& 0 <= i < j < tables.users.len()
            &&& tables.users[i].uuid == uuid
            &&& tables.users[j].uuid == uuid
        } implies tables.uid_by_uuid(uuid)
            == Err::<Option<i64>, DbError>(DbError::CardinalityViolation) by {
        lemma_two_chosen(tables.users, this, i, j);
    }
}

/// The address of the user with the identifier: none where there is none, an error where there are
/// several.
pub proof fn law_email_by_uuid(tables: Tables, uuid: Uuid)
    ensures
        (forall|i: int|
            0 <= i < tables.users.len() ==> !((#[trigger] tables.users[i]).uuid == uuid))
            ==> tables.email_by_uuid(uuid) == Ok::<Option<Seq<char>>, DbError>(None),
        forall|i: int|
            #![trigger tables.users[i]]
            {
                &&& 0 <= i < tables.users.len()
                &&& tables.users[i].uuid == uuid
                &&& forall|j: int|
                    0 <= j < tables.users.len() && j != i
                        ==> !((#[trigger] tables.users[j]).uuid == uuid)
            } ==> tables.email_by_uuid(uuid)
                == Ok::<Option<Seq<char>>, DbError>(Some(tables.users[i].email)),
        forall|i: int, j: int|
            #![trigger tables.users[i], tables.users[j]]
            {
                &&& 0 <= i < j < tables.users.len()
                &&& tables.users[i].uuid == uuid
                &&& tables.users[j].uuid == uuid
            } ==> tables.email_by_uuid(uuid)
                == Err::<Option<Seq<char>>, DbError>(DbError::CardinalityViolation),
        tables.email_by_uuid(uuid) matches Err(error) ==> error
            == DbError::CardinalityViolation,
{
    let this = user_has_uuid(uuid);
    lemma_none_chosen(tables.users, this);
    if tables.users.any(this) {
        let i = choose|i: int|
            0 <= i < tables.users.len() && #[trigger] this(tables.users[i]);
        assert(tables.users[i].uuid == uuid);
    }
    assert forall|i: int|
        #![trigger tables.users[i]]
        {
            &&& 0 <= i < tables.users.len()
            &&& tables.users[i].uuid == uuid
            &&& forall|j: int|
                0 <= j < tables.users.len() && j != i
                    ==> !((#[trigger] tables.users[j]).uuid == uuid)
        } implies tables.email_by_uuid(uuid)
            == Ok::<Option<Seq<char>>, DbError>(Some(tables.users[i].email)) by {
        assert forall|j: int| 0 <= j < tables.users.len() implies this(
            #[trigger] tables.users[j],
        ) == (j == i) by {}
        lemma_one_chosen(tables.users, this, i);
    }
    assert forall|i: int, j: int|
        #![trigger tables.users[i], tables.users[j]]
        {
            &&& 0 <= i < j < tables.users.len()
            &&& tables.users[i].uuid == uuid
            &&& tables.users[j].uuid == uuid
        } implies tables.email_by_uuid(uuid)
            == Err::<Option<Seq<char>>, DbError>(DbError::CardinalityViolation) by {
        lemma_two_chosen(tables.users, this, i, j);
    }
}

/// The number of the user with the address: none where there is none, an error where there are
/// several.
pub proof fn law_uid_by_email(tables: Tables, email: Seq<char>)
    ensures
        (forall|i: int|
            0 <= i < tables.users.len() ==> !((#[trigger] tables.users[i]).email == email))
            ==> tables.uid_by_email(email) == Ok::<Option<i64>, DbError>(None),
        forall|i: int|
            #![trigger tables.users[i]]
            {
                &&& 0 <= i < tables.users.len()
                &&& tables.users[i].email == email
                &&& forall|j: int|
                    0 <= j < tables.users.len() && j != i
                        ==> !((#[trigger] tables.users[j]).email == email)
            } ==> tables.uid_by_email(email)
                == Ok::<Option<i64>, DbError>(Some(tables.users[i].uid)),
        forall|i: int, j: int|
            #![trigger tables.users[i], tables.users[j]]
            {
                &&& 0 <= i < j < tables.users.len()
                &&& tables.users[i].email == email
                &&& tables.users[j].email == email
            } ==> tables.uid_by_email(email)
                == Err::<Option<i64>, DbError>(DbError::CardinalityViolation),
        tables.uid_by_email(email) matches Err(error) ==> error
            == DbError::CardinalityViolation,
{
    let this = user_has_email(email);
    lemma_none_chosen(tables.users, this);
    if tables.users.any(this) {
        let i = choose|i: int|
            0 <= i < tables.users.len() && #[trigger] this(tables.users[i]);
        assert(tables.users[i].email == email);
    }
    assert forall|i: int|
        #![trigger tables.users[i]]
        {
            &&& 0 <= i < tables.users.len()
            &&& tables.users[i].email == email
            &&& forall|j: int|
                0 <= j < tables.users.len() && j != i
                    ==> !((#[trigger] tables.users[j]).email == email)
        } implies tables.uid_by_email(email)
            == Ok::<Option<i64>, DbError>(Some(tables.users[i].uid)) by {
        assert forall|j: int| 0 <= j < tables.users.len() implies this(
            #[trigger] tables.users[j],
        ) == (j == i) by {}
        lemma_one_chosen(tables.users, this, i);
    }
    assert forall|i: int, j: int|
        #![trigger tables.users[i], tables.users[j]]
        {
            &&& 0 <= i < j < tables.users.len()
            &&& tables.users[i].email == email
            &&& tables.users[j].email == email
        } implies tables.uid_by_email(email)
            == Err::<Option<i64>, DbError>(DbError::CardinalityViolation) by {
        lemma_two_chosen(tables.users, this, i, j);
    }
}

/// The name of the user with the number: none where there is none, an error where there are
/// several.
pub proof fn law_name_by_uid(tables: Tables, uid: Option<i64>)
    ensures
        (forall|i: int|
            0 <= i < tables.users.len() ==> !(Some((#[trigger] tables.users[i]).uid) == uid))
            ==> tables.name_by_uid(uid) == Ok::<Option<Seq<char>>, DbError>(None),
        forall|i: int|
            #![trigger tables.users[i]]
            {
                &&& 0 <= i < tables.users.len()
                &&& Some(tables.users[i].uid) == uid
                &&& forall|j: int|
                    0 <= j < tables.users.len() && j != i
                        ==> !(Some((#[trigger] tables.users[j]).uid) == uid)
            } ==> tables.name_by_uid(uid)
                == Ok::<Option<Seq<char>>, DbError>(Some(tables.users[i].name)),
        forall|i: int, j: int|
            #![trigger tables.users[i], tables.users[j]]
            {
                &&& 0 <= i < j < tables.users.len()
                &&& Some(tables.users[i].uid) == uid
                &&& Some(tables.users[j].uid) == uid
            } ==> tables.name_by_uid(uid)
                == Err::<Option<Seq<char>>, DbError>(DbError::CardinalityViolation),
        tables.name_by_uid(uid) matches Err(error) ==> error
            == DbError::CardinalityViolation,
{
    let this = user_has_uid(uid);
    lemma_none_chosen(tables.users, this);
    if tables.users.any(this) {
        let i = choose|i: int|
            0 <= i < tables.users.len() && #[trigger] this(tables.users[i]);
        assert(Some(tables.users[i].uid) == uid);
    }
    assert forall|i: int|
        #![trigger tables.users[i]]
        {
            &&& 0 <= i < tables.users.len()
            &&& Some(tables.users[i].uid) == uid
            &&& forall|j: int|
                0 <= j < tables.users.len() && j != i
                    ==> !(Some((#[trigger] tables.users[j]).uid) == uid)
        } implies tables.name_by_uid(uid)
            == Ok::<Option<Seq<char>>, DbError>(Some(tables.users[i].name)) by {
        assert forall|j: int| 0 <= j < tables.users.len() implies this(
            #[trigger] tables.users[j],
        ) == (j == i) by {}
        lemma_one_chosen(tables.users, this, i);
    }
    assert forall|i: int, j: int|
        #![trigger tables.users[i], tables.users[j]]
        {
            &&& 0 <= i < j < tables.users.len()
            &&& Some(tables.users[i].uid) == uid
            &&& Some(tables.users[j].uid) == uid
        } implies tables.name_by_uid(uid)
            == Err::<Option<Seq<char>>, DbError>(DbError::CardinalityViolation) by {
        lemma_two_chosen(tables.users, this, i, j);
    }
}

/// The address of the user with the number: none where there is none, an error where there are
/// several.
pub proof fn law_email_by_uid(tables: Tables, uid: Option<i64>)
    ensures
        (forall|i: int|
            0 <= i < tables.users.len() ==> !(Some((#[trigger] tables.users[i]).uid) == uid))
            ==> tables.email_by_uid(uid) == Ok::<Option<Seq<char>>, DbError>(None),
        forall|i: int|
            #![trigger tables.users[i]]
            {
                &&& 0 <= i < tables.users.len()
                &&& Some(tables.users[i].uid) == uid
                &&& forall|j: int|
                    0 <= j < tables.users.len() && j != i
                        ==> !(Some((#[trigger] tables.users[j]).uid) == uid)
            } ==> tables.email_by_uid(uid)
                == Ok::<Option<Seq<char>>, DbError>(Some(tables.users[i].email)),
        forall|i: int, j: int|
            #![trigger tables.users[i], tables.users[j]]
            {
                &&& 0 <= i < j < tables.users.len()
                &&& Some(tables.users[i].uid) == uid
                &&& Some(tables.users[j].uid) == uid
            } ==> tables.email_by_uid(uid)
                == Err::<Option<Seq<char>>, DbError>(DbError::CardinalityViolation),
        tables.email_by_uid(uid) matches Err(error) ==> error
            == DbError::CardinalityViolation,
{
    let this = user_has_uid(uid);
    lemma_none_chosen(tables.users, this);
    if tables.users.any(this) {
        let i = choose|i: int|
            0 <= i < tables.users.len() && #[trigger] this(tables.users[i]);
        assert(Some(tables.users[i].uid) == uid);
    }
    assert forall|i: int|
        #![trigger tables.users[i]]
        {
            &&& 0 <= i < tables.users.len()
            &&& Some(tables.users[i].uid) == uid
            &&& forall|j: int|
                0 <= j < tables.users.len() && j != i
                    ==> !(Some((#[trigger] tables.users[j]).uid) == uid)
        } implies tables.email_by_uid(uid)
            == Ok::<Option<Seq<char>>, DbError>(Some(tables.users[i].email)) by {
        assert forall|j: int| 0 <= j < tables.users.len() implies this(
            #[trigger] tables.users[j],
        ) == (j == i) by {}
        lemma_one_chosen(tables.users, this, i);
    }
    assert forall|i: int, j: int|
        #![trigger tables.users[i], tables.users[j]]
        {
            &&& 0 <= i < j < tables.users.len()
            &&& Some(tables.users[i].uid) == uid
            &&& Some(tables.users[j].uid) == uid
        } implies tables.email_by_uid(uid)
            == Err::<Option<Seq<char>>, DbError>(DbError::CardinalityViolation) by {
        lemma_two_chosen(tables.users, this, i, j);
    }
}

/// The owner of the workspace: none where there is no such workspace or it has none, an error where
/// there are several.
pub proof fn law_owner_by_workspace(tables: Tables, id: Uuid)
    ensures
        (forall|i: int|
            0 <= i < tables.workspaces.len()
                ==> !((#[trigger] tables.workspaces[i]).workspace_id == id))
            ==> tables.owner_by_workspace(id) == Ok::<Option<i64>, DbError>(None),
        forall|i: int|
            #![trigger tables.workspaces[i]]
            {
                &&& 0 <= i < tables.workspaces.len()
                &&& tables.workspaces[i].workspace_id == id
                &&& forall|j: int|
                    0 <= j < tables.workspaces.len() && j != i
                        ==> !((#[trigger] tables.workspaces[j]).workspace_id == id)
            } ==> tables.owner_by_workspace(id)
                == Ok::<Option<i64>, DbError>(tables.workspaces[i].owner_uid),
        forall|i: int, j: int|
            #![trigger tables.workspaces[i], tables.workspaces[j]]
            {
                &&& 0 <= i < j < tables.workspaces.len()
                &&& tables.workspaces[i].workspace_id == id
                &&& tables.workspaces[j].workspace_id == id
            } ==> tables.owner_by_workspace(id)
                == Err::<Option<i64>, DbError>(DbError::CardinalityViolation),
        tables.owner_by_workspace(id) matches Err(error) ==> error
            == DbError::CardinalityViolation,
{
    let this = workspace_has_id(id);
    lemma_none_chosen(tables.workspaces, this);
    if tables.workspaces.any(this) {
        let i = choose|i: int|
            0 <= i < tables.workspaces.len() && #[trigger] this(tables.workspaces[i]);
        assert(tables.workspaces[i].workspace_id == id);
    }
    assert forall|i: int|
        #![trigger tables.workspaces[i]]
        {
            &&& 0 <= i < tables.workspaces.len()
            &&& tables.workspaces[i].workspace_id == id
            &&& forall|j: int|
                0 <= j < tables.workspaces.len() && j != i
                    ==> !((#[trigger] tables.workspaces[j]).workspace_id == id)
        } implies tables.owner_by_workspace(id)
            == Ok::<Option<i64>, DbError>(tables.workspaces[i].owner_uid) by {
        assert forall|j: int| 0 <= j < tables.workspaces.len() implies this(
            #[trigger] tables.workspaces[j],
        ) == (j == i) by {}
        lemma_one_chosen(tables.workspaces, this, i);
    }
    assert forall|i: int, j: int|
        #![trigger tables.workspaces[i], tables.workspaces[j]]
        {
            &&& 0 <= i < j < tables.workspaces.len()
            &&& tables.workspaces[i].workspace_id == id
            &&& tables.workspaces[j].workspace_id == id
        } implies tables.owner_by_workspace(id)
            == Err::<Option<i64>, DbError>(DbError::CardinalityViolation) by {
        lemma_two_chosen(tables.workspaces, this, i, j);
    }
}

/// The name of the workspace: none where there is no such workspace or it has none, an error where
/// there are several.
pub proof fn law_name_by_workspace(tables: Tables, id: Uuid)
    ensures
        (forall|i: int|
            0 <= i < tables.workspaces.len()
                ==> !((#[trigger] tables.workspaces[i]).workspace_id == id))
            ==> tables.name_by_workspace(id) == Ok::<Option<Seq<char>>, DbError>(None),
        forall|i: int|
            #![trigger tables.workspaces[i]]
            {
                &&& 0 <= i < tables.workspaces.len()
                &&& tables.workspaces[i].workspace_id == id
                &&& forall|j: int|
                    0 <= j < tables.workspaces.len() && j != i
                        ==> !((#[trigger] tables.workspaces[j]).workspace_id == id)
            } ==> tables.name_by_workspace(id)
                == Ok::<Option<Seq<char>>, DbError>(tables.workspaces[i].workspace_name),
        forall|i: int, j: int|
            #![trigger tables.workspaces[i], tables.workspaces[j]]
            {
                &&& 0 <= i < j < tables.workspaces.len()
                &&& tables.workspaces[i].workspace_id == id
                &&& tables.workspaces[j].workspace_id == id
            } ==> tables.name_by_workspace(id)
                == Err::<Option<Seq<char>>, DbError>(DbError::CardinalityViolation),
        tables.name_by_workspace(id) matches Err(error) ==> error
            == DbError::CardinalityViolation,
{
    let this = workspace_has_id(id);
    lemma_none_chosen(tables.workspaces, this);
    if tables.workspaces.any(this) {
        let i = choose|i: int|
            0 <= i < tables.workspaces.len() && #[trigger] this(tables.workspaces[i]);
        assert(tables.workspaces[i].workspace_id == id);
    }
    assert forall|i: int|
        #![trigger tables.workspaces[i]]
        {
            &&& 0 <= i < tables.workspaces.len()
            &&& tables.workspaces[i].workspace_id == id
            &&& forall|j: int|
                0 <= j < tables.workspaces.len() && j != i
                    ==> !((#[trigger] tables.workspaces[j]).workspace_id == id)
        } implies tables.name_by_workspace(id)
            == Ok::<Option<Seq<char>>, DbError>(tables.workspaces[i].workspace_name) by {
        assert forall|j: int| 0 <= j < tables.workspaces.len() implies this(
            #[trigger] tables.workspaces[j],
        ) == (j == i) by {}
        lemma_one_chosen(tables.workspaces, this, i);
    }
    assert forall|i: int, j: int|
        #![trigger tables.workspaces[i], tables.workspaces[j]]
        {
            &&& 0 <= i < j < tables.workspaces.len()
            &&& tables.workspaces[i].workspace_id == id
            &&& tables.workspaces[j].workspace_id == id
        } implies tables.name_by_workspace(id)
            == Err::<Option<Seq<char>>, DbError>(DbError::CardinalityViolation) by {
        lemma_two_chosen(tables.workspaces, this, i, j);
    }
}

/// The namespace of the workspace: none where there is no such workspace or it has none, an error
/// where there are several.
pub proof fn law_namespace_by_workspace(tables: Tables, id: Uuid)
    ensures
        (forall|i: int|
            0 <= i < tables.workspaces.len()
                ==> !((#[trigger] tables.workspaces[i]).workspace_id == id))
            ==> tables.namespace_by_workspace(id) == Ok::<Option<Seq<char>>, DbError>(None),
        forall|i: int|
            #![trigger tables.workspaces[i]]
            {
                &&& 0 <= i < tables.workspaces.len()
                &&& tables.workspaces[i].workspace_id == id
                &&& forall|j: int|
                    0 <= j < tables.workspaces.len() && j != i
                        ==> !((#[trigger] tables.workspaces[j]).workspace_id == id)
            } ==> tables.namespace_by_workspace(id)
                == Ok::<Option<Seq<char>>, DbError>(tables.workspaces[i].publish_namespace),
        forall|i: int, j: int|
            #![trigger tables.workspaces[i], tables.workspaces[j]]
            {
                &&& 0 <= i < j < tables.workspaces.len()
                &&& tables.workspaces[i].workspace_id == id
                &&& tables.workspaces[j].workspace_id == id
            } ==> tables.namespace_by_workspace(id)
                == Err::<Option<Seq<char>>, DbError>(DbError::CardinalityViolation),
        tables.namespace_by_workspace(id) matches Err(error) ==> error
            == DbError::CardinalityViolation,
{
    let this = workspace_has_id(id);
    lemma_none_chosen(tables.workspaces, this);
    if tables.workspaces.any(this) {
        let i = choose|i: int|
            0 <= i < tables.workspaces.len() && #[trigger] this(tables.workspaces[i]);
        assert(tables.workspaces[i].workspace_id == id);
    }
    assert forall|i: int|
        #![trigger tables.workspaces[i]]
        {
            &&& 0 <= i < tables.workspaces.len()
            &&& tables.workspaces[i].workspace_id == id
            &&& forall|j: int|
                0 <= j < tables.workspaces.len() && j != i
                    ==> !((#[trigger] tables.workspaces[j]).workspace_id == id)
        } implies tables.namespace_by_workspace(id)
            == Ok::<Option<Seq<char>>, DbError>(tables.workspaces[i].publish_namespace) by {
        assert forall|j: int| 0 <= j < tables.workspaces.len() implies this(
            #[trigger] tables.workspaces[j],
        ) == (j == i) by {}
        lemma_one_chosen(tables.workspaces, this, i);
    }
    assert forall|i: int, j: int|
        #![trigger tables.workspaces[i], tables.workspaces[j]]
        {
            &&& 0 <= i < j < tables.workspaces.len()
            &&& tables.workspaces[i].workspace_id == id
            &&& tables.workspaces[j].workspace_id == id
        } implies tables.namespace_by_workspace(id)
            == Err::<Option<Seq<char>>, DbError>(DbError::CardinalityViolation) by {
        lemma_two_chosen(tables.workspaces, this, i, j);
    }
}

/// The workspace with the namespace: none where there is none, an error where there are several.
pub proof fn law_workspace_by_namespace(tables: Tables, namespace: Seq<char>)
    ensures
        (forall|i: int|
            0 <= i < tables.workspaces.len()
                ==> !((#[trigger] tables.workspaces[i]).publish_namespace == Some(namespace)))
            ==> tables.workspace_by_namespace(namespace) == Ok::<Option<Uuid>, DbError>(None),
        forall|i: int|
            #![trigger tables.workspaces[i]]
            {
                &&& 0 <= i < tables.workspaces.len()
                &&& tables.workspaces[i].publish_namespace == Some(namespace)
                &&& forall|j: int|
                    0 <= j < tables.workspaces.len() && j != i
                        ==> !((#[trigger] tables.workspaces[j]).publish_namespace == Some(namespace))
            } ==> tables.workspace_by_namespace(namespace)
                == Ok::<Option<Uuid>, DbError>(Some(tables.workspaces[i].workspace_id)),
        forall|i: int, j: int|
            #![trigger tables.workspaces[i], tables.workspaces[j]]
            {
                &&& 0 <= i < j < tables.workspaces.len()
                &&& tables.workspaces[i].publish_namespace == Some(namespace)
                &&& tables.workspaces[j].publish_namespace == Some(namespace)
            } ==> tables.workspace_by_namespace(namespace)
                == Err::<Option<Uuid>, DbError>(DbError::CardinalityViolation),
        tables.workspace_by_namespace(namespace) matches Err(error) ==> error
            == DbError::CardinalityViolation,
{
    let this = workspace_has_namespace(namespace);
    lemma_none_chosen(tables.workspaces, this);
    if tables.workspaces.any(this) {
        let i = choose|i: int|
            0 <= i < tables.workspaces.len() && #[trigger] this(tables.workspaces[i]);
        assert(tables.workspaces[i].publish_namespace == Some(namespace));
    }
    assert forall|i: int|
        #![trigger tables.workspaces[i]]
        {
            &&& 0 <= i < tables.workspaces.len()
            &&& tables.workspaces[i].publish_namespace == Some(namespace)
            &&& forall|j: int|
                0 <= j < tables.workspaces.len() && j != i
                    ==> !((#[trigger] tables.workspaces[j]).publish_namespace == Some(namespace))
        } implies tables.workspace_by_namespace(namespace)
            == Ok::<Option<Uuid>, DbError>(Some(tables.workspaces[i].workspace_id)) by {
        assert forall|j: int| 0 <= j < tables.workspaces.len() implies this(
            #[trigger] tables.workspaces[j],
        ) == (j == i) by {}
        lemma_one_chosen(tables.workspaces, this, i);
    }
    assert forall|i: int, j: int|
        #![trigger tables.workspaces[i], tables.workspaces[j]]
        {
            &&& 0 <= i < j < tables.workspaces.len()
            &&& tables.workspaces[i].publish_namespace == Some(namespace)
            &&& tables.workspaces[j].publish_namespace == Some(namespace)
        } implies tables.workspace_by_namespace(namespace)
            == Err::<Option<Uuid>, DbError>(DbError::CardinalityViolation) by {
        lemma_two_chosen(tables.workspaces, this, i, j);
    }
}

} // verus!
