//! What a caller can tell of each operation on published views, column by column.

use vstd::prelude::*;

use crate::error::{AppError, DbError};
use crate::id::Uuid;
use crate::json::Json;
use crate::laws::lookups::law_namespace_by_workspace;
use crate::laws::publishing::{lemma_ids_apart, lemma_item_for};
use crate::lemmas::{
    lemma_chosen, lemma_each_chosen, lemma_first_chosen, lemma_none_chosen, lemma_same_chosen,
};
use crate::publish::{
    PublishCollabItem, PublishCollabItemView, PublishInfo, PublishInfoView, delete_published_collabs,
    has_view_id, info_of, insert_or_replace_publish_collab_metas, is_named, is_new, is_one_of,
    is_own, is_view, item_for, refreshed, row_for, select_publish_collab_meta,
    select_published_collab_blob, select_published_collab_info,
    select_user_is_collab_publisher_for_all_views, view_ids_of,
};
use crate::relation::each;
use crate::tables::{Database, PublishedRecordView, Tables};

verus! {

/// Publishing succeeds exactly when there is nothing to publish, or the publisher is not ambiguous
/// and no view is named twice, whichever of the views are published already. Otherwise nothing is
/// written.
pub proof fn law_when_publishing_succeeds(
    db: &mut Database,
    workspace_id: Uuid,
    publisher_uuid: Uuid,
    publish_item: &[PublishCollabItem],
    result: Result<(), AppError>,
)
    requires
        call_ensures(
            insert_or_replace_publish_collab_metas,
            (db, &workspace_id, &publisher_uuid, publish_item),
            result,
        ),
    ensures
        result is Ok <==> {
            ||| publish_item@.len() == 0
            ||| old(db)@.uid_by_uuid(publisher_uuid) is Ok && forall|j: int, k: int|
                0 <= j < k < publish_item@.len() ==> (#[trigger] publish_item@[j]).meta.view_id != (
                #[trigger] publish_item@[k]).meta.view_id
        },
        result matches Err(error) ==> error == AppError::Database(
            DbError::CardinalityViolation,
        ),
        result is Err ==> final(db)@ == old(db)@,
        publish_item@.len() == 0 ==> final(db)@ == old(db)@,
{
    let items = publish_item.deep_view();
    let ids = view_ids_of(items);
    assert(items.len() == publish_item@.len());
    assert forall|k: int| 0 <= k < items.len() implies #[trigger] ids[k]
        == publish_item@[k].meta.view_id by {
        assert(items[k] == publish_item@[k].deep_view());
    }
    if forall|j: int, k: int|
        0 <= j < k < publish_item@.len() ==> (#[trigger] publish_item@[j]).meta.view_id != (
        #[trigger] publish_item@[k]).meta.view_id {
        assert forall|j: int, k: int| 0 <= j < ids.len() && 0 <= k < ids.len() && j
            != k implies ids[j] != ids[k] by {
            if j < k {
                assert(publish_item@[j].meta.view_id != publish_item@[k].meta.view_id);
            } else {
                assert(publish_item@[k].meta.view_id != publish_item@[j].meta.view_id);
            }
        }
        assert(ids.no_duplicates());
    }
    if ids.no_duplicates() {
        assert forall|j: int, k: int| 0 <= j < k < publish_item@.len() implies (
        #[trigger] publish_item@[j]).meta.view_id != (#[trigger] publish_item@[k]).meta.view_id by {
            assert(ids[j] != ids[k]);
        }
    }
    crate::laws::lookups::law_uid_by_uuid(old(db)@, publisher_uuid);
}

/// A row has the workspace and the view.
pub open spec fn has_row(rows: Seq<PublishedRecordView>, workspace_id: Uuid, view_id: Uuid) -> bool {
    exists|i: int|
        0 <= i < rows.len() && (#[trigger] rows[i]).workspace_id == workspace_id && rows[i].view_id
            == view_id
}

/// What is published already keeps its place, its name, its publisher and its blob; it has the
/// metadata of the item that names its view in its workspace, and its own where none does. What is
/// added comes from items whose view was not published in the workspace, has what the item has and
/// the number of the publisher, and there is one row for each such item.
pub proof fn law_insert_or_replace_publish_collab_metas(
    db: &mut Database,
    workspace_id: Uuid,
    publisher_uuid: Uuid,
    publish_item: &[PublishCollabItem],
    result: Result<(), AppError>,
)
    requires
        call_ensures(
            insert_or_replace_publish_collab_metas,
            (db, &workspace_id, &publisher_uuid, publish_item),
            result,
        ),
        result is Ok,
        publish_item@.len() > 0,
    ensures
        final(db)@ == (Tables { published: final(db)@.published, ..old(db)@ }),
        old(db)@.published.len() <= final(db)@.published.len(),
        forall|i: int|
            0 <= i < old(db)@.published.len() ==> {
                let before = old(db)@.published[i];
                let after = #[trigger] final(db)@.published[i];
                &&& after == (PublishedRecordView { metadata: after.metadata, ..before })
                &&& forall|k: int|
                    0 <= k < publish_item@.len() && before.workspace_id == workspace_id && (
                    #[trigger] publish_item@[k]).meta.view_id == before.view_id ==> after.metadata
                        == publish_item@[k].meta.metadata.value
                &&& (forall|k: int|
                    0 <= k < publish_item@.len() ==> !(before.workspace_id == workspace_id && (
                    #[trigger] publish_item@[k]).meta.view_id == before.view_id)) ==> after
                    == before
            },
        forall|i: int|
            old(db)@.published.len() <= i < final(db)@.published.len() ==> {
                let row = #[trigger] final(db)@.published[i];
                &&& row.workspace_id == workspace_id
                &&& old(db)@.uid_by_uuid(publisher_uuid) == Ok::<Option<i64>, DbError>(
                    row.published_by,
                )
                &&& exists|k: int|
                    {
                        &&& 0 <= k < publish_item@.len()
                        &&& (#[trigger] publish_item@[k]).meta.view_id == row.view_id
                        &&& publish_item@[k].meta.publish_name@ == row.publish_name
                        &&& publish_item@[k].meta.metadata.value == row.metadata
                        &&& publish_item@[k].data@ == row.blob
                    }
                &&& forall|j: int|
                    0 <= j < i ==> !((#[trigger] final(db)@.published[j]).workspace_id
                        == workspace_id && final(db)@.published[j].view_id == row.view_id)
            },
        forall|k: int|
            0 <= k < publish_item@.len() ==> has_row(
                final(db)@.published,
                workspace_id,
                (#[trigger] publish_item@[k]).meta.view_id,
            ),
{
    let t = old(db)@;
    let items = publish_item.deep_view();
    let published_by = t.uid_by_uuid(publisher_uuid)->Ok_0;
    let rows = t.published;
    let n = rows.len() as int;
    let fresh = is_new(rows, workspace_id);
    let new_items = items.filter(fresh);
    let after = final(db)@.published;
    assert(items.len() == publish_item@.len());
    assert forall|k: int| 0 <= k < items.len() implies #[trigger] items[k]
        == publish_item@[k].deep_view() by {}
    lemma_ids_apart(items, fresh);
    assert forall|i: int| 0 <= i < n implies {
        let before = rows[i];
        let row = #[trigger] final(db)@.published[i];
        &&& row == (PublishedRecordView { metadata: row.metadata, ..before })
        &&& forall|k: int|
            0 <= k < publish_item@.len() && before.workspace_id == workspace_id && (
            #[trigger] publish_item@[k]).meta.view_id == before.view_id ==> row.metadata
                == publish_item@[k].meta.metadata.value
        &&& (forall|k: int|
            0 <= k < publish_item@.len() ==> !(before.workspace_id == workspace_id && (
            #[trigger] publish_item@[k]).meta.view_id == before.view_id)) ==> row == before
    } by {
        lemma_refreshed_row(workspace_id, publish_item, rows[i]);
        assert(after[i] == refreshed(workspace_id, items)(rows[i]));
    }
    assert forall|i: int| n <= i < after.len() implies {
        let row = #[trigger] final(db)@.published[i];
        &&& row.workspace_id == workspace_id
        &&& t.uid_by_uuid(publisher_uuid) == Ok::<Option<i64>, DbError>(row.published_by)
        &&& exists|k: int|
            {
                &&& 0 <= k < publish_item@.len()
                &&& (#[trigger] publish_item@[k]).meta.view_id == row.view_id
                &&& publish_item@[k].meta.publish_name@ == row.publish_name
                &&& publish_item@[k].meta.metadata.value == row.metadata
                &&& publish_item@[k].data@ == row.blob
            }
        &&& forall|j: int|
            0 <= j < i ==> !((#[trigger] final(db)@.published[j]).workspace_id == workspace_id
                && final(db)@.published[j].view_id == row.view_id)
    } by {
        let item = new_items[i - n];
        assert(after[i] == row_for(workspace_id, published_by)(item));
        lemma_chosen(items, fresh, i - n);
        let k = choose|k: int| 0 <= k < items.len() && items[k] == item;
        assert(items[k] == publish_item@[k].deep_view());
        assert forall|j: int| 0 <= j < i implies !((
        #[trigger] final(db)@.published[j]).workspace_id == workspace_id
            && final(db)@.published[j].view_id == after[i].view_id) by {
            if j < n {
                assert(after[j] == refreshed(workspace_id, items)(rows[j]));
                assert(!is_view(workspace_id, item.view_id)(rows[j]));
            } else {
                assert(after[j] == row_for(workspace_id, published_by)(new_items[j - n]));
                assert(new_items[j - n].view_id != new_items[i - n].view_id);
            }
        }
    }
    assert forall|k: int| 0 <= k < publish_item@.len() implies has_row(
        final(db)@.published,
        workspace_id,
        (#[trigger] publish_item@[k]).meta.view_id,
    ) by {
        let this = is_view(workspace_id, items[k].view_id);
        if rows.any(this) {
            let i = choose|i: int| 0 <= i < rows.len() && #[trigger] this(rows[i]);
            assert(after[i] == refreshed(workspace_id, items)(rows[i]));
            assert(final(db)@.published[i].workspace_id == workspace_id);
        } else {
            assert(fresh(items[k]));
            items.lemma_filter_contains(fresh, k);
            let m = choose|m: int| 0 <= m < new_items.len() && new_items[m] == items[k];
            assert(after[n + m] == row_for(workspace_id, published_by)(new_items[m]));
            assert(final(db)@.published[n + m].workspace_id == workspace_id);
        }
    }
}

/// What a row that is there becomes.
proof fn lemma_refreshed_row(
    workspace_id: Uuid,
    publish_item: &[PublishCollabItem],
    before: PublishedRecordView,
)
    requires
        view_ids_of(publish_item.deep_view()).no_duplicates(),
    ensures
        ({
            let row = refreshed(workspace_id, publish_item.deep_view())(before);
            &&& row == (PublishedRecordView { metadata: row.metadata, ..before })
            &&& forall|k: int|
                0 <= k < publish_item@.len() && before.workspace_id == workspace_id && (
                #[trigger] publish_item@[k]).meta.view_id == before.view_id ==> row.metadata
                    == publish_item@[k].meta.metadata.value
            &&& (forall|k: int|
                0 <= k < publish_item@.len() ==> !(before.workspace_id == workspace_id && (
                #[trigger] publish_item@[k]).meta.view_id == before.view_id)) ==> row == before
        }),
{
    let items = publish_item.deep_view();
    let row = refreshed(workspace_id, items)(before);
    let names = |item: PublishCollabItemView| item.view_id == before.view_id;
    assert forall|k: int|
        0 <= k < publish_item@.len() && before.workspace_id == workspace_id && (
        #[trigger] publish_item@[k]).meta.view_id == before.view_id implies row.metadata
        == publish_item@[k].meta.metadata.value by {
        assert(items[k] == publish_item@[k].deep_view());
        lemma_item_for(items, k);
    }
    if item_for(items, before.view_id) is Some {
        lemma_chosen(items, names, 0);
        let k = choose|k: int| 0 <= k < items.len() && items[k] == items.filter(names)[0];
        assert(items[k] == publish_item@[k].deep_view());
        assert(publish_item@[k].meta.view_id == before.view_id);
    }
}

/// Taking views back takes the rows of the workspace that have one of the views, and takes nothing
/// else.
pub proof fn law_delete_published_collabs(
    db: &mut Database,
    workspace_id: Uuid,
    view_ids: &[Uuid],
    result: Result<(), AppError>,
)
    requires
        call_ensures(delete_published_collabs, (db, &workspace_id, view_ids), result),
    ensures
        result is Ok,
        final(db)@ == (Tables {
            published: old(db)@.published.filter(
                |row: PublishedRecordView|
                    row.workspace_id != workspace_id || !view_ids@.contains(row.view_id),
            ),
            ..old(db)@
        }),
{
    let taken = is_one_of(workspace_id, view_ids@);
    lemma_same_chosen(
        old(db)@.published,
        |row: PublishedRecordView| !taken(row),
        |row: PublishedRecordView|
            row.workspace_id != workspace_id || !view_ids@.contains(row.view_id),
    );
}

/// A known user is the publisher of all the views when as many rows of the workspace have one of
/// them and the user's number as views are named. An unknown user is of no view.
pub proof fn law_select_user_is_collab_publisher_for_all_views(
    db: Database,
    user_uuid: Uuid,
    workspace_id: Uuid,
    view_ids: &[Uuid],
    result: Result<bool, AppError>,
)
    requires
        call_ensures(
            select_user_is_collab_publisher_for_all_views,
            (&db, &user_uuid, &workspace_id, view_ids),
            result,
        ),
        db@.published.len() <= i64::MAX,
        view_ids@.len() <= i64::MAX,
    ensures
        match db@.uid_by_uuid(user_uuid) {
            Err(error) => result == Err::<bool, AppError>(AppError::Database(error)),
            Ok(None) => result == Ok::<bool, AppError>(view_ids@.len() == 0),
            Ok(Some(uid)) => result == Ok::<bool, AppError>(
                db@.published.filter(
                    |row: PublishedRecordView|
                        row.workspace_id == workspace_id && view_ids@.contains(row.view_id)
                            && row.published_by == Some(uid),
                ).len() == view_ids@.len(),
            ),
        },
{
    if let Ok(uid) = db@.uid_by_uuid(user_uuid) {
        let own = is_own(workspace_id, view_ids@, uid);
        db@.published.lemma_filter_len(own);
        if let Some(number) = uid {
            lemma_same_chosen(
                db@.published,
                own,
                |row: PublishedRecordView|
                    row.workspace_id == workspace_id && view_ids@.contains(row.view_id)
                        && row.published_by == Some(number),
            );
        } else {
            lemma_none_chosen(db@.published, own);
        }
    }
}

/// The row that is published under a namespace and a name.
proof fn lemma_published_under(
    db: Database,
    publish_namespace: Seq<char>,
    publish_name: Seq<char>,
    workspace_id: Option<Uuid>,
)
    ensures
        (forall|i: int|
            0 <= i < db@.published.len() ==> !(Some((#[trigger] db@.published[i]).workspace_id)
                == workspace_id && db@.published[i].publish_name == publish_name))
            ==> db@.published.filter(is_named(workspace_id, publish_name)).len() == 0,
        forall|i: int|
            #![trigger db@.published[i]]
            {
                &&& 0 <= i < db@.published.len()
                &&& Some(db@.published[i].workspace_id) == workspace_id
                &&& db@.published[i].publish_name == publish_name
                &&& forall|j: int|
                    0 <= j < i ==> !(Some((#[trigger] db@.published[j]).workspace_id)
                        == workspace_id && db@.published[j].publish_name == publish_name)
            } ==> db@.published.filter(is_named(workspace_id, publish_name)).len() > 0
                && db@.published.filter(is_named(workspace_id, publish_name))[0]
                == db@.published[i],
{
    let rows = db@.published;
    let this = is_named(workspace_id, publish_name);
    lemma_none_chosen(rows, this);
    if rows.any(this) {
        let i = choose|i: int| 0 <= i < rows.len() && #[trigger] this(rows[i]);
        assert(Some(rows[i].workspace_id) == workspace_id);
    }
    assert forall|i: int|
        #![trigger db@.published[i]]
        {
            &&& 0 <= i < rows.len()
            &&& Some(rows[i].workspace_id) == workspace_id
            &&& rows[i].publish_name == publish_name
            &&& forall|j: int|
                0 <= j < i ==> !(Some((#[trigger] rows[j]).workspace_id) == workspace_id
                    && rows[j].publish_name == publish_name)
        } implies rows.filter(this).len() > 0 && rows.filter(this)[0] == db@.published[i] by {
        lemma_first_chosen(rows, this, i);
    }
}

/// The metadata that is read is that of the first row that has the name and the workspace with the
/// namespace. There is an error where the namespace is ambiguous, and where no row has both.
pub proof fn law_select_publish_collab_meta(
    db: Database,
    publish_namespace: &str,
    publish_name: &str,
    result: Result<Json, AppError>,
)
    requires
        call_ensures(select_publish_collab_meta, (&db, publish_namespace, publish_name), result),
    ensures
        match db@.workspace_by_namespace(publish_namespace@) {
            Err(error) => result == Err::<Json, AppError>(AppError::Database(error)),
            Ok(workspace_id) => {
                &&& (forall|i: int|
                    0 <= i < db@.published.len() ==> !(Some(
                        (#[trigger] db@.published[i]).workspace_id,
                    ) == workspace_id && db@.published[i].publish_name == publish_name@)) ==> result
                    == Err::<Json, AppError>(AppError::Database(DbError::RowNotFound))
                &&& forall|i: int|
                    #![trigger db@.published[i]]
                    {
                        &&& 0 <= i < db@.published.len()
                        &&& Some(db@.published[i].workspace_id) == workspace_id
                        &&& db@.published[i].publish_name == publish_name@
                        &&& forall|j: int|
                            0 <= j < i ==> !(Some((#[trigger] db@.published[j]).workspace_id)
                                == workspace_id && db@.published[j].publish_name == publish_name@)
                    } ==> {
                        &&& result matches Ok(value)
                        &&& value.value == db@.published[i].metadata
                    }
            },
        },
{
    if let Ok(workspace_id) = db@.workspace_by_namespace(publish_namespace@) {
        lemma_published_under(db, publish_namespace@, publish_name@, workspace_id);
    }
}

/// The blob that is read is that of the first row that has the name and the workspace with the
/// namespace. There is an error where the namespace is ambiguous, and where no row has both.
pub proof fn law_select_published_collab_blob(
    db: Database,
    publish_namespace: &str,
    publish_name: &str,
    result: Result<Vec<u8>, AppError>,
)
    requires
        call_ensures(select_published_collab_blob, (&db, publish_namespace, publish_name), result),
    ensures
        match db@.workspace_by_namespace(publish_namespace@) {
            Err(error) => result == Err::<Vec<u8>, AppError>(AppError::Database(error)),
            Ok(workspace_id) => {
                &&& (forall|i: int|
                    0 <= i < db@.published.len() ==> !(Some(
                        (#[trigger] db@.published[i]).workspace_id,
                    ) == workspace_id && db@.published[i].publish_name == publish_name@)) ==> result
                    == Err::<Vec<u8>, AppError>(AppError::Database(DbError::RowNotFound))
                &&& forall|i: int|
                    #![trigger db@.published[i]]
                    {
                        &&& 0 <= i < db@.published.len()
                        &&& Some(db@.published[i].workspace_id) == workspace_id
                        &&& db@.published[i].publish_name == publish_name@
                        &&& forall|j: int|
                            0 <= j < i ==> !(Some((#[trigger] db@.published[j]).workspace_id)
                                == workspace_id && db@.published[j].publish_name == publish_name@)
                    } ==> {
                        &&& result matches Ok(value)
                        &&& value@ == db@.published[i].blob
                    }
            },
        },
{
    if let Ok(workspace_id) = db@.workspace_by_namespace(publish_namespace@) {
        lemma_published_under(db, publish_namespace@, publish_name@, workspace_id);
    }
    if let Ok(value) = result {
        assert(value.deep_view() =~= value@);
    }
}

/// Where a view is published is told by the first row of the view: the namespace is that of the
/// row's workspace, the name is the row's. There is an error where no row has the view, and where
/// the workspace of one that has it is ambiguous.
pub proof fn law_select_published_collab_info(
    db: Database,
    view_id: Uuid,
    result: Result<PublishInfo, AppError>,
)
    requires
        call_ensures(select_published_collab_info, (&db, &view_id), result),
    ensures
        (forall|i: int|
            0 <= i < db@.published.len() ==> (#[trigger] db@.published[i]).view_id != view_id)
            ==> result == Err::<PublishInfo, AppError>(AppError::Database(DbError::RowNotFound)),
        forall|i: int|
            0 <= i < db@.published.len() && (#[trigger] db@.published[i]).view_id == view_id
                && db@.namespace_by_workspace(db@.published[i].workspace_id) is Err ==> result
                == Err::<PublishInfo, AppError>(AppError::Database(DbError::CardinalityViolation)),
        forall|i: int|
            #![trigger db@.published[i]]
            {
                &&& 0 <= i < db@.published.len()
                &&& db@.published[i].view_id == view_id
                &&& forall|j: int| 0 <= j < i ==> (#[trigger] db@.published[j]).view_id != view_id
                &&& forall|j: int|
                    0 <= j < db@.published.len() && (#[trigger] db@.published[j]).view_id == view_id
                        ==> db@.namespace_by_workspace(db@.published[j].workspace_id) is Ok
            } ==> {
                &&& result matches Ok(info)
                &&& db@.namespace_by_workspace(db@.published[i].workspace_id) == Ok::<
                    Option<Seq<char>>,
                    DbError,
                >(info.namespace.deep_view())
                &&& info.publish_name@ == db@.published[i].publish_name
                &&& info.view_id == view_id
            },
{
    let rows = db@.published;
    let this = has_view_id(view_id);
    let make = info_of(db@);
    lemma_none_chosen(rows, this);
    lemma_each_chosen(rows, this, make);
    assert forall|i: int| 0 <= i < rows.len() implies this(#[trigger] rows[i]) == (rows[i].view_id
        == view_id) by {}
    assert forall|i: int| 0 <= i < rows.len() implies (make(#[trigger] rows[i]) is Err
        <==> db@.namespace_by_workspace(rows[i].workspace_id) is Err) by {}
    assert forall|i: int| 0 <= i < rows.len() && make(#[trigger] rows[i]) is Err implies make(
        rows[i],
    ) == Err::<PublishInfoView, DbError>(DbError::CardinalityViolation) by {
        law_namespace_by_workspace(db@, rows[i].workspace_id);
    }
    if rows.any(this) {
        let i = choose|i: int| 0 <= i < rows.len() && #[trigger] this(rows[i]);
        assert(rows[i].view_id == view_id);
    }
    assert forall|i: int|
        #![trigger db@.published[i]]
        {
            &&& 0 <= i < rows.len()
            &&& rows[i].view_id == view_id
            &&& forall|j: int| 0 <= j < i ==> (#[trigger] rows[j]).view_id != view_id
            &&& forall|j: int|
                0 <= j < rows.len() && (#[trigger] rows[j]).view_id == view_id
                    ==> db@.namespace_by_workspace(rows[j].workspace_id) is Ok
        } implies {
        &&& result matches Ok(info)
        &&& db@.namespace_by_workspace(db@.published[i].workspace_id) == Ok::<
            Option<Seq<char>>,
            DbError,
        >(info.namespace.deep_view())
        &&& info.publish_name@ == db@.published[i].publish_name
        &&& info.view_id == view_id
    } by {
        assert forall|j: int| 0 <= j < i implies !this(#[trigger] rows[j]) by {}
        assert(this(rows[i]));
        assert(each(rows.filter(this), make) is Ok);
    }
}

} // verus!
