//! Published views.

use vstd::prelude::*;

use crate::error::DbError;
use crate::id::Uuid;
use crate::laws::keys::law_publishing_keeps_keys;
use crate::lemmas::{
    lemma_chosen, lemma_chosen_apart, lemma_gone, lemma_none_chosen, lemma_one_chosen,
    lemma_others_kept,
};
use crate::publish::{
    PublishCollabItemView, PublishInfoView, after_publishing, has_view_id, info_found, info_of,
    is_named, is_new, is_one_of, is_own, is_view, item_for, published_under, publishes_all,
    publishing, refreshed, row_for, view_ids_of, without_published,
};
use crate::relation::{each, first_of, then_make};
use crate::tables::{PublishedRecordView, Tables};

verus! {

/// Where no view is named twice, the item that names a view is the one at hand.
pub proof fn lemma_item_for(items: Seq<PublishCollabItemView>, k: int)
    requires
        view_ids_of(items).no_duplicates(),
        0 <= k < items.len(),
    ensures
        item_for(items, items[k].view_id) == Some(items[k]),
{
    let view_id = items[k].view_id;
    let names = |item: PublishCollabItemView| item.view_id == view_id;
    items.lemma_filter_contains(names, k);
    lemma_chosen(items, names, 0);
    let j = choose|j: int| 0 <= j < items.len() && items[j] == items.filter(names)[0];
    assert(view_ids_of(items)[j] == view_id);
    assert(view_ids_of(items)[k] == view_id);
}

/// A row of the published view of an item comes from a row that was there or from the item.
proof fn lemma_row_of_item(
    rows: Seq<PublishedRecordView>,
    workspace_id: Uuid,
    published_by: Option<i64>,
    items: Seq<PublishCollabItemView>,
    k: int,
    i: int,
)
    requires
        view_ids_of(items).no_duplicates(),
        0 <= k < items.len(),
        0 <= i < after_publishing(rows, workspace_id, published_by, items).len(),
        is_view(workspace_id, items[k].view_id)(
            after_publishing(rows, workspace_id, published_by, items)[i],
        ),
    ensures
        ({
            let row = after_publishing(rows, workspace_id, published_by, items)[i];
            if i < rows.len() {
                row == (PublishedRecordView { metadata: items[k].metadata, ..rows[i] })
            } else {
                row == row_for(workspace_id, published_by)(items[k]) && is_new(rows, workspace_id)(
                    items[k],
                )
            }
        }),
{
    let after = after_publishing(rows, workspace_id, published_by, items);
    let fresh = is_new(rows, workspace_id);
    lemma_item_for(items, k);
    if i < rows.len() {
        assert(after[i] == refreshed(workspace_id, items)(rows[i]));
    } else {
        let j = i - rows.len();
        let item = items.filter(fresh)[j];
        assert(after[i] == row_for(workspace_id, published_by)(item));
        lemma_chosen(items, fresh, j);
        let m = choose|m: int| 0 <= m < items.len() && items[m] == item;
        assert(view_ids_of(items)[m] == view_ids_of(items)[k]);
    }
}

/// After publishing, each named view is published with the metadata of its item.
pub proof fn law_published_views_have_their_metadata(
    tables: Tables,
    workspace_id: Uuid,
    publisher_uuid: Uuid,
    items: Seq<PublishCollabItemView>,
    k: int,
)
    requires
        0 <= k < items.len(),
    ensures
        publishing(tables, workspace_id, publisher_uuid, items) matches Ok(after) ==> {
            &&& after.published.any(is_view(workspace_id, items[k].view_id))
            &&& forall|i: int|
                0 <= i < after.published.len() && is_view(workspace_id, items[k].view_id)(
                    #[trigger] after.published[i],
                ) ==> after.published[i].metadata == items[k].metadata
        },
{
    if publishing(tables, workspace_id, publisher_uuid, items) is Ok {
        let after = publishing(tables, workspace_id, publisher_uuid, items)->Ok_0.published;
        let published_by = tables.uid_by_uuid(publisher_uuid)->Ok_0;
        let rows = tables.published;
        let this = is_view(workspace_id, items[k].view_id);
        let fresh = is_new(rows, workspace_id);
        if rows.any(this) {
            let i = choose|i: int| 0 <= i < rows.len() && #[trigger] this(rows[i]);
            assert(after[i] == refreshed(workspace_id, items)(rows[i]));
            assert(this(after[i]));
        } else {
            items.lemma_filter_contains(fresh, k);
            let j = choose|j: int|
                0 <= j < items.filter(fresh).len() && items.filter(fresh)[j] == items[k];
            assert(after[rows.len() + j] == row_for(workspace_id, published_by)(items[k]));
            assert(this(after[rows.len() + j]));
        }
        assert forall|i: int| 0 <= i < after.len() && this(#[trigger] after[i]) implies after[i].metadata
            == items[k].metadata by {
            lemma_row_of_item(rows, workspace_id, published_by, items, k, i);
        }
    }
}

/// Publishing the same views again succeeds and changes nothing.
pub proof fn law_publishing_twice_is_publishing_once(
    tables: Tables,
    workspace_id: Uuid,
    publisher_uuid: Uuid,
    items: Seq<PublishCollabItemView>,
)
    ensures
        publishing(tables, workspace_id, publisher_uuid, items) matches Ok(once) ==> publishing(
            once,
            workspace_id,
            publisher_uuid,
            items,
        ) == Ok::<Tables, DbError>(once),
{
    if items.len() > 0 && publishing(tables, workspace_id, publisher_uuid, items) is Ok {
        let once = publishing(tables, workspace_id, publisher_uuid, items)->Ok_0;
        let published_by = tables.uid_by_uuid(publisher_uuid)->Ok_0;
        let rows = tables.published;
        let n = rows.len() as int;
        let change = refreshed(workspace_id, items);
        let new_items = items.filter(is_new(rows, workspace_id));
        let still_new = is_new(once.published, workspace_id);
        assert(once.uid_by_uuid(publisher_uuid) == tables.uid_by_uuid(publisher_uuid));
        assert forall|i: int| 0 <= i < once.published.len() implies change(
            #[trigger] once.published[i],
        ) == once.published[i] by {
            if i < n {
                assert(once.published[i] == change(rows[i]));
            } else {
                let item = new_items[i - n];
                assert(once.published[i] == row_for(workspace_id, published_by)(item));
                lemma_chosen(items, is_new(rows, workspace_id), i - n);
                let k = choose|k: int| 0 <= k < items.len() && items[k] == item;
                lemma_item_for(items, k);
            }
        }
        if items.any(still_new) {
            let k = choose|k: int| 0 <= k < items.len() && #[trigger] still_new(items[k]);
            law_published_views_have_their_metadata(
                tables,
                workspace_id,
                publisher_uuid,
                items,
                k,
            );
        }
        lemma_none_chosen(items, still_new);
        assert(after_publishing(once.published, workspace_id, published_by, items)
            =~= once.published);
    }
}

/// What was published stays published, under its name, by its publisher and with its blob, and
/// what no item names keeps its metadata too.
pub proof fn law_published_rows_stay(
    tables: Tables,
    workspace_id: Uuid,
    publisher_uuid: Uuid,
    items: Seq<PublishCollabItemView>,
    i: int,
)
    requires
        0 <= i < tables.published.len(),
    ensures
        publishing(tables, workspace_id, publisher_uuid, items) matches Ok(after) ==> {
            &&& i < after.published.len()
            &&& after.published[i] == (PublishedRecordView {
                metadata: after.published[i].metadata,
                ..tables.published[i]
            })
            &&& !(tables.published[i].workspace_id == workspace_id && view_ids_of(items).contains(
                tables.published[i].view_id,
            )) ==> after.published[i] == tables.published[i]
        },
{
    if items.len() > 0 && publishing(tables, workspace_id, publisher_uuid, items) is Ok {
        let after = publishing(tables, workspace_id, publisher_uuid, items)->Ok_0;
        let row = tables.published[i];
        let names = |item: PublishCollabItemView| item.view_id == row.view_id;
        assert(after.published[i] == refreshed(workspace_id, items)(row));
        if item_for(items, row.view_id) is Some {
            lemma_chosen(items, names, 0);
            let m = choose|m: int| 0 <= m < items.len() && items[m] == items.filter(names)[0];
            assert(view_ids_of(items)[m] == row.view_id);
        }
    }
}

/// A view that was not published is, after publishing, published once: as its item says, in the
/// name of the publisher.
pub proof fn law_new_view_is_published_as_given(
    tables: Tables,
    workspace_id: Uuid,
    publisher_uuid: Uuid,
    items: Seq<PublishCollabItemView>,
    k: int,
)
    requires
        0 <= k < items.len(),
        !tables.published.any(is_view(workspace_id, items[k].view_id)),
    ensures
        publishing(tables, workspace_id, publisher_uuid, items) matches Ok(after)
            ==> after.published.filter(is_view(workspace_id, items[k].view_id)) == seq![
            row_for(workspace_id, tables.uid_by_uuid(publisher_uuid)->Ok_0)(items[k]),
        ],
{
    if publishing(tables, workspace_id, publisher_uuid, items) is Ok {
        lemma_new_view(
            tables.published,
            workspace_id,
            tables.uid_by_uuid(publisher_uuid)->Ok_0,
            items,
            k,
        );
    }
}

proof fn lemma_new_view(
    rows: Seq<PublishedRecordView>,
    workspace_id: Uuid,
    published_by: Option<i64>,
    items: Seq<PublishCollabItemView>,
    k: int,
)
    requires
        view_ids_of(items).no_duplicates(),
        0 <= k < items.len(),
        !rows.any(is_view(workspace_id, items[k].view_id)),
    ensures
        after_publishing(rows, workspace_id, published_by, items).filter(
            is_view(workspace_id, items[k].view_id),
        ) == seq![row_for(workspace_id, published_by)(items[k])],
{
    let this = is_view(workspace_id, items[k].view_id);
    let fresh = is_new(rows, workspace_id);
    let old_rows = rows.map_values(refreshed(workspace_id, items));
    let new_items = items.filter(fresh);
    let new_rows = new_items.map_values(row_for(workspace_id, published_by));
    Seq::filter_distributes_over_add(old_rows, new_rows, this);
    if old_rows.any(this) {
        let i = choose|i: int| 0 <= i < old_rows.len() && #[trigger] this(old_rows[i]);
        assert(this(rows[i]));
    }
    lemma_none_chosen(old_rows, this);
    items.lemma_filter_contains(fresh, k);
    let j = choose|j: int| 0 <= j < new_items.len() && new_items[j] == items[k];
    assert forall|i: int| 0 <= i < new_rows.len() implies this(#[trigger] new_rows[i]) == (i
        == j) by {
        assert(new_rows[i].view_id == new_items[i].view_id);
        if i != j {
            lemma_ids_apart(items, fresh);
            if i < j {
                assert(new_items[i].view_id != new_items[j].view_id);
            } else {
                assert(new_items[j].view_id != new_items[i].view_id);
            }
        }
    }
    lemma_one_chosen(new_rows, this, j);
    assert(old_rows.filter(this) + new_rows.filter(this) =~= seq![new_rows[j]]);
}

pub proof fn lemma_ids_apart(
    items: Seq<PublishCollabItemView>,
    pred: spec_fn(PublishCollabItemView) -> bool,
)
    requires
        view_ids_of(items).no_duplicates(),
    ensures
        forall|i: int, j: int|
            #![trigger items.filter(pred)[i], items.filter(pred)[j]]
            0 <= i < j < items.filter(pred).len() ==> items.filter(pred)[i].view_id
                != items.filter(pred)[j].view_id,
{
    let same_item = |one: PublishCollabItemView, other: PublishCollabItemView|
        one.view_id == other.view_id;
    assert forall|i: int, j: int|
        #![trigger items[i], items[j]]
        0 <= i < j < items.len() implies !same_item(items[i], items[j]) by {
        assert(view_ids_of(items)[i] != view_ids_of(items)[j]);
    }
    lemma_chosen_apart(items, pred, same_item);
    assert forall|i: int, j: int|
        #![trigger items.filter(pred)[i], items.filter(pred)[j]]
        0 <= i < j < items.filter(pred).len() implies items.filter(pred)[i].view_id != items.filter(
        pred,
    )[j].view_id by {
        assert(!same_item(items.filter(pred)[i], items.filter(pred)[j]));
    }
}

/// A new view that is published under an unused name in the one workspace that has the namespace
/// is read back from there: its metadata and its blob are those that were given.
pub proof fn law_published_view_is_read_back(
    tables: Tables,
    workspace_id: Uuid,
    publisher_uuid: Uuid,
    items: Seq<PublishCollabItemView>,
    k: int,
    namespace: Seq<char>,
)
    requires
        0 <= k < items.len(),
        !tables.published.any(is_view(workspace_id, items[k].view_id)),
        !tables.published.any(is_named(Some(workspace_id), items[k].publish_name)),
        forall|m: int|
            0 <= m < items.len() && m != k ==> (#[trigger] items[m]).publish_name
                != items[k].publish_name,
        tables.workspace_by_namespace(namespace) == Ok::<Option<Uuid>, DbError>(Some(workspace_id)),
    ensures
        publishing(tables, workspace_id, publisher_uuid, items) matches Ok(after) ==> first_of(
            published_under(after, namespace, items[k].publish_name),
        ) == Ok::<PublishedRecordView, DbError>(
            row_for(workspace_id, tables.uid_by_uuid(publisher_uuid)->Ok_0)(items[k]),
        ),
{
    if publishing(tables, workspace_id, publisher_uuid, items) is Ok {
        let after = publishing(tables, workspace_id, publisher_uuid, items)->Ok_0;
        let published_by = tables.uid_by_uuid(publisher_uuid)->Ok_0;
        let rows = tables.published;
        let n = rows.len() as int;
        let this = is_named(Some(workspace_id), items[k].publish_name);
        let fresh = is_new(rows, workspace_id);
        let new_items = items.filter(fresh);
        items.lemma_filter_contains(fresh, k);
        let j = choose|j: int| 0 <= j < new_items.len() && new_items[j] == items[k];
        lemma_ids_apart(items, fresh);
        assert forall|i: int| 0 <= i < after.published.len() implies this(
            #[trigger] after.published[i],
        ) == (i == n + j) by {
            if i < n {
                assert(after.published[i] == refreshed(workspace_id, items)(rows[i]));
                assert(!this(rows[i]));
            } else {
                assert(after.published[i] == row_for(workspace_id, published_by)(
                    new_items[i - n],
                ));
                lemma_chosen(items, fresh, i - n);
                let m = choose|m: int| 0 <= m < items.len() && items[m] == new_items[i - n];
                if i != n + j {
                    if i - n < j {
                        assert(new_items[i - n].view_id != new_items[j].view_id);
                    } else {
                        assert(new_items[j].view_id != new_items[i - n].view_id);
                    }
                    assert(m != k);
                    assert(items[m].publish_name != items[k].publish_name);
                }
            }
        }
        lemma_one_chosen(after.published, this, n + j);
        assert(after.workspace_by_namespace(namespace) == tables.workspace_by_namespace(
            namespace,
        ));
    }
}

/// A view that is published already, alone under its name in the one workspace that has the
/// namespace, is given the new metadata when it is published again; what is read of it is
/// otherwise what it was.
pub proof fn law_republished_view_has_the_new_metadata(
    tables: Tables,
    workspace_id: Uuid,
    publisher_uuid: Uuid,
    items: Seq<PublishCollabItemView>,
    k: int,
    namespace: Seq<char>,
    row: PublishedRecordView,
)
    requires
        0 <= k < items.len(),
        row.workspace_id == workspace_id,
        row.view_id == items[k].view_id,
        tables.published.filter(is_named(Some(workspace_id), row.publish_name)) == seq![row],
        tables.workspace_by_namespace(namespace) == Ok::<Option<Uuid>, DbError>(Some(workspace_id)),
    ensures
        publishing(tables, workspace_id, publisher_uuid, items) matches Ok(after) ==> first_of(
            published_under(after, namespace, row.publish_name),
        ) == Ok::<PublishedRecordView, DbError>(
            PublishedRecordView { metadata: items[k].metadata, ..row },
        ),
{
    if publishing(tables, workspace_id, publisher_uuid, items) is Ok {
        let after = publishing(tables, workspace_id, publisher_uuid, items)->Ok_0;
        let published_by = tables.uid_by_uuid(publisher_uuid)->Ok_0;
        let rows = tables.published;
        let this = is_named(Some(workspace_id), row.publish_name);
        let old_rows = rows.map_values(refreshed(workspace_id, items));
        let new_rows = items.filter(is_new(rows, workspace_id)).map_values(
            row_for(workspace_id, published_by),
        );
        Seq::filter_distributes_over_add(old_rows, new_rows, this);
        lemma_item_for(items, k);
        lemma_chosen_after_refresh(rows, workspace_id, items, this);
        let made = refreshed(workspace_id, items)(row);
        assert(rows.filter(this).map_values(refreshed(workspace_id, items)) =~= seq![made]);
        assert(after.published.filter(this)[0] == made);
        assert(after.workspace_by_namespace(namespace) == tables.workspace_by_namespace(
            namespace,
        ));
    }
}

/// Giving rows new metadata does not alter which of them have a name.
proof fn lemma_chosen_after_refresh(
    rows: Seq<PublishedRecordView>,
    workspace_id: Uuid,
    items: Seq<PublishCollabItemView>,
    pred: spec_fn(PublishedRecordView) -> bool,
)
    requires
        forall|row: PublishedRecordView|
            pred(#[trigger] refreshed(workspace_id, items)(row)) == pred(row),
    ensures
        rows.map_values(refreshed(workspace_id, items)).filter(pred) == rows.filter(
            pred,
        ).map_values(refreshed(workspace_id, items)),
    decreases rows.len(),
{
    reveal(Seq::filter);
    let change = refreshed(workspace_id, items);
    if rows.len() > 0 {
        let front = rows.drop_last();
        lemma_chosen_after_refresh(front, workspace_id, items, pred);
        assert(rows.map_values(change).drop_last() =~= front.map_values(change));
        assert(rows.map_values(change).last() == change(rows.last()));
        assert(pred(refreshed(workspace_id, items)(rows.last())) == pred(rows.last()));
        if pred(rows.last()) {
            assert(front.filter(pred).push(rows.last()).map_values(change) =~= front.filter(
                pred,
            ).map_values(change).push(change(rows.last())));
        }
    } else {
        assert(rows.map_values(change) =~= rows);
        assert(rows.filter(pred).map_values(change) =~= rows.filter(pred));
    }
}

/// Where a view that was published nowhere is published: under its workspace's namespace and the
/// name that it was given.
pub proof fn law_published_view_is_located(
    tables: Tables,
    workspace_id: Uuid,
    publisher_uuid: Uuid,
    items: Seq<PublishCollabItemView>,
    k: int,
)
    requires
        0 <= k < items.len(),
        !tables.published.any(has_view_id(items[k].view_id)),
    ensures
        publishing(tables, workspace_id, publisher_uuid, items) matches Ok(after) ==> info_found(
            after,
            items[k].view_id,
        ) == then_make(
            tables.namespace_by_workspace(workspace_id),
            |namespace: Option<Seq<char>>|
                PublishInfoView {
                    namespace,
                    publish_name: items[k].publish_name,
                    view_id: items[k].view_id,
                },
        ),
{
    if publishing(tables, workspace_id, publisher_uuid, items) is Ok {
        let after = publishing(tables, workspace_id, publisher_uuid, items)->Ok_0;
        let published_by = tables.uid_by_uuid(publisher_uuid)->Ok_0;
        let rows = tables.published;
        let n = rows.len() as int;
        let this = has_view_id(items[k].view_id);
        let fresh = is_new(rows, workspace_id);
        let new_items = items.filter(fresh);
        if rows.any(is_view(workspace_id, items[k].view_id)) {
            let i = choose|i: int|
                0 <= i < rows.len() && #[trigger] is_view(workspace_id, items[k].view_id)(rows[i]);
            assert(this(rows[i]));
        }
        items.lemma_filter_contains(fresh, k);
        let j = choose|j: int| 0 <= j < new_items.len() && new_items[j] == items[k];
        lemma_ids_apart(items, fresh);
        assert forall|i: int| 0 <= i < after.published.len() implies this(
            #[trigger] after.published[i],
        ) == (i == n + j) by {
            if i < n {
                assert(after.published[i] == refreshed(workspace_id, items)(rows[i]));
                assert(!this(rows[i]));
            } else {
                assert(after.published[i] == row_for(workspace_id, published_by)(
                    new_items[i - n],
                ));
                if i - n < j {
                    assert(new_items[i - n].view_id != new_items[j].view_id);
                } else if i - n > j {
                    assert(new_items[j].view_id != new_items[i - n].view_id);
                }
            }
        }
        lemma_one_chosen(after.published, this, n + j);
        let found = after.published.filter(this);
        assert(after.namespace_by_workspace(workspace_id) == tables.namespace_by_workspace(
            workspace_id,
        ));
        assert(found.drop_last() =~= Seq::empty());
        assert(each(found.drop_last(), info_of(after)) == Ok::<Seq<PublishInfoView>, DbError>(
            Seq::empty(),
        ));
    }
}

/// Views that were taken back are no longer published, and all others stay as they were.
pub proof fn law_withdrawn_views_are_gone(
    tables: Tables,
    workspace_id: Uuid,
    view_ids: Seq<Uuid>,
    view_id: Uuid,
    elsewhere: Uuid,
)
    ensures
        elsewhere == workspace_id && view_ids.contains(view_id) ==> !without_published(
            tables,
            workspace_id,
            view_ids,
        ).published.any(is_view(elsewhere, view_id)),
        !(elsewhere == workspace_id && view_ids.contains(view_id)) ==> without_published(
            tables,
            workspace_id,
            view_ids,
        ).published.filter(is_view(elsewhere, view_id)) == tables.published.filter(
            is_view(elsewhere, view_id),
        ),
{
    let taken = is_one_of(workspace_id, view_ids);
    let this = is_view(elsewhere, view_id);
    if elsewhere == workspace_id && view_ids.contains(view_id) {
        lemma_gone(tables.published, taken, this);
    } else {
        lemma_others_kept(tables.published, taken, this);
    }
}

/// The view is published in the workspace by the user.
pub open spec fn published_by_user(
    tables: Tables,
    workspace_id: Uuid,
    view_id: Uuid,
    uid: Option<i64>,
) -> bool {
    uid is Some && exists|i: int|
        {
            &&& 0 <= i < tables.published.len()
            &&& is_view(workspace_id, view_id)(#[trigger] tables.published[i])
            &&& tables.published[i].published_by == uid
        }
}

/// A user is the publisher of all the named views exactly when each of them is published by the
/// user and none is named twice.
pub proof fn law_publisher_of_all_views(
    tables: Tables,
    user_uuid: Uuid,
    workspace_id: Uuid,
    view_ids: Seq<Uuid>,
    uid: Option<i64>,
)
    requires
        tables.keys_hold(),
        tables.uid_by_uuid(user_uuid) == Ok::<Option<i64>, DbError>(uid),
        tables.published.len() <= i64::MAX,
        view_ids.len() <= i64::MAX,
    ensures
        publishes_all(tables, user_uuid, workspace_id, view_ids) == Ok::<bool, DbError>(
            view_ids.no_duplicates() && forall|k: int|
                0 <= k < view_ids.len() ==> published_by_user(
                    tables,
                    workspace_id,
                    #[trigger] view_ids[k],
                    uid,
                ),
        ),
{
    broadcast use vstd::seq_lib::seq_to_set_is_finite;

    let own = is_own(workspace_id, view_ids, uid);
    let rows = tables.published.filter(own);
    let ids = rows.map_values(|row: PublishedRecordView| row.view_id);
    let same_view = |one: PublishedRecordView, other: PublishedRecordView|
        one.workspace_id == other.workspace_id && one.view_id == other.view_id;
    tables.published.lemma_filter_len(own);
    lemma_chosen_apart(tables.published, own, same_view);
    assert forall|i: int| 0 <= i < rows.len() implies own(#[trigger] rows[i]) by {
        lemma_chosen(tables.published, own, i);
    }
    assert forall|i: int, j: int| 0 <= i < j < ids.len() implies ids[i] != ids[j] by {
        assert(own(rows[i]) && own(rows[j]));
        assert(!same_view(rows[i], rows[j]));
    }
    assert(ids.no_duplicates());
    ids.unique_seq_to_set();
    view_ids.lemma_cardinality_of_set();
    assert(ids.to_set().subset_of(view_ids.to_set())) by {
        assert forall|id: Uuid| ids.to_set().contains(id) implies view_ids.to_set().contains(
            id,
        ) by {
            let i = choose|i: int| 0 <= i < ids.len() && ids[i] == id;
            assert(own(rows[i]));
        }
    }
    vstd::set_lib::lemma_len_subset(ids.to_set(), view_ids.to_set());
    assert forall|id: Uuid| #[trigger] ids.to_set().contains(id) <==> view_ids.contains(id)
        && published_by_user(tables, workspace_id, id, uid) by {
        if ids.to_set().contains(id) {
            let i = choose|i: int| 0 <= i < ids.len() && ids[i] == id;
            lemma_chosen(tables.published, own, i);
            let k = choose|k: int|
                0 <= k < tables.published.len() && tables.published[k] == rows[i];
            assert(is_view(workspace_id, id)(tables.published[k]));
        }
        if view_ids.contains(id) && published_by_user(tables, workspace_id, id, uid) {
            let k = choose|k: int|
                {
                    &&& 0 <= k < tables.published.len()
                    &&& is_view(workspace_id, id)(#[trigger] tables.published[k])
                    &&& tables.published[k].published_by == uid
                };
            tables.published.lemma_filter_contains(own, k);
            let i = choose|i: int| 0 <= i < rows.len() && rows[i] == tables.published[k];
            assert(ids[i] == id);
        }
    }
    if rows.len() == view_ids.len() {
        view_ids.lemma_no_dup_set_cardinality();
        vstd::set_lib::lemma_subset_equality(ids.to_set(), view_ids.to_set());
        assert forall|k: int| 0 <= k < view_ids.len() implies published_by_user(
            tables,
            workspace_id,
            #[trigger] view_ids[k],
            uid,
        ) by {
            assert(view_ids.to_set().contains(view_ids[k]));
            assert(ids.to_set().contains(view_ids[k]));
        }
    }
    if view_ids.no_duplicates() && forall|k: int|
        0 <= k < view_ids.len() ==> published_by_user(
            tables,
            workspace_id,
            #[trigger] view_ids[k],
            uid,
        ) {
        view_ids.unique_seq_to_set();
        assert(ids.to_set() =~= view_ids.to_set()) by {
            assert forall|id: Uuid| view_ids.to_set().contains(id) implies ids.to_set().contains(
                id,
            ) by {
                let k = choose|k: int| 0 <= k < view_ids.len() && view_ids[k] == id;
                assert(published_by_user(tables, workspace_id, view_ids[k], uid));
            }
        }
    }
}

/// A known user who published views that were not published is the publisher of them all.
pub proof fn law_publisher_is_found(
    tables: Tables,
    workspace_id: Uuid,
    publisher_uuid: Uuid,
    items: Seq<PublishCollabItemView>,
    uid: i64,
)
    requires
        tables.keys_hold(),
        tables.published.len() + items.len() <= i64::MAX,
        tables.uid_by_uuid(publisher_uuid) == Ok::<Option<i64>, DbError>(Some(uid)),
        forall|k: int|
            0 <= k < items.len() ==> !tables.published.any(
                is_view(workspace_id, (#[trigger] items[k]).view_id),
            ),
    ensures
        publishing(tables, workspace_id, publisher_uuid, items) matches Ok(after) ==> publishes_all(
            after,
            publisher_uuid,
            workspace_id,
            view_ids_of(items),
        ) == Ok::<bool, DbError>(true),
{
    if publishing(tables, workspace_id, publisher_uuid, items) is Ok {
        let after = publishing(tables, workspace_id, publisher_uuid, items)->Ok_0;
        let ids = view_ids_of(items);
        assert(after.uid_by_uuid(publisher_uuid) == tables.uid_by_uuid(publisher_uuid));
        law_publishing_keeps_keys(tables, workspace_id, publisher_uuid, items);
        assert forall|k: int| 0 <= k < ids.len() implies published_by_user(
            after,
            workspace_id,
            #[trigger] ids[k],
            Some(uid),
        ) by {
            let this = is_view(workspace_id, items[k].view_id);
            assert(!tables.published.any(is_view(workspace_id, items[k].view_id)));
            law_new_view_is_published_as_given(tables, workspace_id, publisher_uuid, items, k);
            lemma_chosen(after.published, this, 0);
            let i = choose|i: int|
                0 <= i < after.published.len() && after.published[i] == after.published.filter(
                    this,
                )[0];
            assert(is_view(workspace_id, ids[k])(after.published[i]));
        }
        items.lemma_filter_len(is_new(tables.published, workspace_id));
        law_publisher_of_all_views(after, publisher_uuid, workspace_id, ids, Some(uid));
    }
}

} // verus!
