//! Published views.

use vstd::prelude::*;

use crate::error::{AppError, DbError, handed_on, seen};
use crate::id::Uuid;
use crate::json::Json;
use crate::outcome;
use crate::relation::{
    any_where, delete_where, each, each_row, fetch_one, first, first_of, lemma_filter_step, plain,
    positions, then_make, without,
};
use crate::statement::copy_bytes;
use crate::tables::{PublishedRecord, PublishedRecordView, Database, Tables, same_id, wrote};

verus! {

/// What a view is published under.
#[derive(Debug, PartialEq)]
pub struct PublishCollabMetadata {
    pub view_id: Uuid,
    pub publish_name: String,
    pub metadata: Json,
}

/// A view to publish.
#[derive(Debug, PartialEq)]
pub struct PublishCollabItem {
    pub meta: PublishCollabMetadata,
    pub data: Vec<u8>,
}

/// [`PublishCollabItem`] with its texts as sequences.
pub struct PublishCollabItemView {
    pub view_id: Uuid,
    pub publish_name: Seq<char>,
    pub metadata: serde_json::Value,
    pub data: Seq<u8>,
}

impl DeepView for PublishCollabItem {
    type V = PublishCollabItemView;

    open spec fn deep_view(&self) -> PublishCollabItemView {
        PublishCollabItemView {
            view_id: self.meta.view_id,
            publish_name: self.meta.publish_name@,
            metadata: self.meta.metadata.deep_view(),
            data: self.data@,
        }
    }
}

pub open spec fn view_ids_of(items: Seq<PublishCollabItemView>) -> Seq<Uuid> {
    items.map_values(|item: PublishCollabItemView| item.view_id)
}

pub open spec fn publish_names_of(items: Seq<PublishCollabItemView>) -> Seq<Seq<char>> {
    items.map_values(|item: PublishCollabItemView| item.publish_name)
}

pub open spec fn metadatas_of(items: Seq<PublishCollabItemView>) -> Seq<serde_json::Value> {
    items.map_values(|item: PublishCollabItemView| item.metadata)
}

pub open spec fn blobs_of(items: Seq<PublishCollabItemView>) -> Seq<Seq<u8>> {
    items.map_values(|item: PublishCollabItemView| item.data)
}

pub open spec fn is_view(workspace_id: Uuid, view_id: Uuid) -> spec_fn(
    PublishedRecordView,
) -> bool {
    |row: PublishedRecordView| row.workspace_id == workspace_id && row.view_id == view_id
}

/// The item that names the view, if one does.
pub open spec fn item_for(items: Seq<PublishCollabItemView>, view_id: Uuid) -> Option<
    PublishCollabItemView,
> {
    first(items.filter(|item: PublishCollabItemView| item.view_id == view_id))
}

/// A published row after the items were published: where one of them names its view, it has that
/// one's metadata. Its name, its publisher and its blob stay.
pub open spec fn refreshed(
    workspace_id: Uuid,
    items: Seq<PublishCollabItemView>,
) -> spec_fn(PublishedRecordView) -> PublishedRecordView {
    |row: PublishedRecordView|
        match item_for(items, row.view_id) {
            Some(item) if row.workspace_id == workspace_id => PublishedRecordView {
                metadata: item.metadata,
                ..row
            },
            _ => row,
        }
}

/// The row that an item becomes.
pub open spec fn row_for(workspace_id: Uuid, published_by: Option<i64>) -> spec_fn(
    PublishCollabItemView,
) -> PublishedRecordView {
    |item: PublishCollabItemView|
        PublishedRecordView {
            workspace_id,
            view_id: item.view_id,
            publish_name: item.publish_name,
            published_by,
            metadata: item.metadata,
            blob: item.data,
        }
}

/// Whether the item's view is not published yet.
pub open spec fn is_new(rows: Seq<PublishedRecordView>, workspace_id: Uuid) -> spec_fn(
    PublishCollabItemView,
) -> bool {
    |item: PublishCollabItemView| !rows.any(is_view(workspace_id, item.view_id))
}

/// The published rows after the items were published: the rows that were there, refreshed, and
/// then a row for each item whose view was not there.
pub open spec fn after_publishing(
    rows: Seq<PublishedRecordView>,
    workspace_id: Uuid,
    published_by: Option<i64>,
    items: Seq<PublishCollabItemView>,
) -> Seq<PublishedRecordView> {
    rows.map_values(refreshed(workspace_id, items)) + items.filter(
        is_new(rows, workspace_id),
    ).map_values(row_for(workspace_id, published_by))
}

/// The position of the item that names the view.
fn find_item(publish_item: &[PublishCollabItem], view_id: Uuid) -> (found: Option<usize>)
    ensures
        match found {
            Some(k) => k < publish_item.len() && item_for(publish_item.deep_view(), view_id)
                == Some(publish_item.deep_view()[k as int]),
            None => item_for(publish_item.deep_view(), view_id) is None,
        },
{
    let ghost items = publish_item.deep_view();
    let ghost names = |item: PublishCollabItemView| item.view_id == view_id;
    let mut i: usize = 0;
    proof {
        reveal(Seq::filter);
        assert(items.take(0).filter(names) =~= Seq::empty());
    }
    while i < publish_item.len()
        invariant
            i <= publish_item.len(),
            items == publish_item.deep_view(),
            names == (|item: PublishCollabItemView| item.view_id == view_id),
            items.take(i as int).filter(names) == Seq::<PublishCollabItemView>::empty(),
        decreases publish_item.len() - i,
    {
        proof {
            lemma_filter_step(items, names, i as int);
        }
        assert(items[i as int] == publish_item[i as int].deep_view());
        if publish_item[i].meta.view_id == view_id {
            proof {
                Seq::filter_distributes_over_add(items.take(i + 1), items.skip(i + 1), names);
                assert(items.take(i + 1) + items.skip(i + 1) =~= items);
            }
            return Some(i);
        }
        i = i + 1;
    }
    assert(items.take(i as int) =~= items);
    None
}

/// Gives each published row of the workspace the metadata of the item that names its view.
fn refresh(
    rows: &mut Vec<PublishedRecord>,
    workspace_id: &Uuid,
    publish_item: &[PublishCollabItem],
)
    ensures
        final(rows).deep_view() == old(rows).deep_view().map_values(
            refreshed(*workspace_id, publish_item.deep_view()),
        ),
{
    let ghost before = rows.deep_view();
    let ghost change = refreshed(*workspace_id, publish_item.deep_view());
    let mut i: usize = 0;
    while i < rows.len()
        invariant
            i <= rows.len(),
            change == refreshed(*workspace_id, publish_item.deep_view()),
            rows.deep_view() == before.take(i as int).map_values(change) + before.skip(i as int),
            rows.len() == before.len(),
        decreases rows.len() - i,
    {
        let ghost now = rows.deep_view();
        assert(now[i as int] == before[i as int]);
        assert(rows[i as int].deep_view() == now[i as int]);
        if rows[i].workspace_id == *workspace_id {
            match find_item(publish_item, rows[i].view_id) {
                Some(k) => {
                    rows[i].metadata = publish_item[k].meta.metadata.copy();
                    assert(rows.deep_view() =~= now.update(i as int, change(before[i as int])));
                },
                None => {},
            }
        }
        assert(rows.deep_view() =~= before.take(i + 1).map_values(change) + before.skip(i + 1));
        i = i + 1;
    }
    assert(rows.deep_view() =~= before.map_values(change));
}

/// Whether two items name one view.
fn names_twice(publish_item: &[PublishCollabItem]) -> (twice: bool)
    ensures
        twice == !view_ids_of(publish_item.deep_view()).no_duplicates(),
{
    let ghost ids = view_ids_of(publish_item.deep_view());
    let mut i: usize = 0;
    while i < publish_item.len()
        invariant
            i <= publish_item.len(),
            ids == view_ids_of(publish_item.deep_view()),
            forall|a: int, b: int| 0 <= a < b < i ==> ids[a] != ids[b],
        decreases publish_item.len() - i,
    {
        let mut j: usize = 0;
        while j < i
            invariant
                i < publish_item.len(),
                j <= i,
                ids == view_ids_of(publish_item.deep_view()),
                forall|a: int| 0 <= a < j ==> ids[a] != ids[i as int],
            decreases i - j,
        {
            assert(ids[j as int] == publish_item[j as int].meta.view_id);
            assert(ids[i as int] == publish_item[i as int].meta.view_id);
            if publish_item[j].meta.view_id == publish_item[i].meta.view_id {
                return true;
            }
            j = j + 1;
        }
        i = i + 1;
    }
    false
}

/// The positions of the items whose view is not published yet.
fn new_items(db: &Database, workspace_id: &Uuid, publish_item: &[PublishCollabItem]) -> (found: Vec<
    usize,
>)
    ensures
        forall|k: int| 0 <= k < found.len() ==> #[trigger] found[k] < publish_item.len(),
        found@.map_values(|p: usize| publish_item.deep_view()[p as int])
            == publish_item.deep_view().filter(is_new(db@.published, *workspace_id)),
{
    let ghost items = publish_item.deep_view();
    let ghost pred = is_new(db@.published, *workspace_id);
    let ghost at = |p: usize| items[p as int];
    let mut found: Vec<usize> = Vec::new();
    let mut i: usize = 0;
    proof {
        reveal(Seq::filter);
        assert(found@.map_values(at) =~= items.take(0).filter(pred));
    }
    while i < publish_item.len()
        invariant
            i <= publish_item.len(),
            items == publish_item.deep_view(),
            pred == is_new(db@.published, *workspace_id),
            at == (|p: usize| items[p as int]),
            forall|k: int| 0 <= k < found.len() ==> #[trigger] found[k] < publish_item.len(),
            found@.map_values(at) == items.take(i as int).filter(pred),
        decreases publish_item.len() - i,
    {
        let ghost before = found@;
        let view_id = publish_item[i].meta.view_id;
        let same = |row: &PublishedRecord| -> (kept: bool)
            ensures
                kept == is_view(*workspace_id, view_id)(row.deep_view()),
        { row.workspace_id == *workspace_id && row.view_id == view_id };
        proof {
            lemma_filter_step(items, pred, i as int);
            assert(items[i as int] == publish_item[i as int].deep_view());
        }
        if !any_where(&db.published, same, Ghost(is_view(*workspace_id, view_id))) {
            found.push(i);
            assert(found@.map_values(at) =~= before.map_values(at).push(items[i as int]));
        }
        i = i + 1;
    }
    assert(items.take(i as int) =~= items);
    found
}

/// What publishing does to the tables. One statement may not write one view twice.
pub open spec fn publishing(
    tables: Tables,
    workspace_id: Uuid,
    publisher_uuid: Uuid,
    items: Seq<PublishCollabItemView>,
) -> Result<Tables, DbError> {
    if items.len() == 0 {
        Ok(tables)
    } else {
        match tables.uid_by_uuid(publisher_uuid) {
            Ok(published_by) => if view_ids_of(items).no_duplicates() {
                Ok(
                    Tables {
                        published: after_publishing(
                            tables.published,
                            workspace_id,
                            published_by,
                            items,
                        ),
                        ..tables
                    },
                )
            } else {
                Err(DbError::CardinalityViolation)
            },
            Err(error) => Err(error),
        }
    }
}

/// Publishes views of a workspace in the name of a user. A view that is published already keeps
/// its name, its publisher and its blob and is given the new metadata.
pub fn insert_or_replace_publish_collab_metas(
    db: &mut Database,
    workspace_id: &Uuid,
    publisher_uuid: &Uuid,
    publish_item: &[PublishCollabItem],
) -> (result: Result<(), AppError>)
    requires
        publish_item.len() <= i32::MAX,
    ensures
        wrote(
            result,
            old(db)@,
            final(db)@,
            handed_on(publishing(old(db)@, *workspace_id, *publisher_uuid, publish_item.deep_view())),
        ),
{
    let ghost before = db@;
    let ghost items = publish_item.deep_view();
    if publish_item.len() == 0 {
        return Ok(());
    }
    let published_by = match db.uid_by_uuid(publisher_uuid) {
        Ok(published_by) => published_by,
        Err(error) => {
            return Err(AppError::Database(error));
        },
    };
    if names_twice(publish_item) {
        return Err(AppError::Database(DbError::CardinalityViolation));
    }
    let fresh = new_items(db, workspace_id, publish_item);
    let ghost at = |p: usize| items[p as int];
    let ghost chosen = fresh@.map_values(at);
    let ghost make = row_for(*workspace_id, published_by);
    refresh(&mut db.published, workspace_id, publish_item);
    let ghost kept = db@.published;
    let mut k: usize = 0;
    assert(chosen.take(0).map_values(make) =~= Seq::empty());
    while k < fresh.len()
        invariant
            k <= fresh.len(),
            items == publish_item.deep_view(),
            at == (|p: usize| items[p as int]),
            chosen == fresh@.map_values(at),
            make == row_for(*workspace_id, published_by),
            forall|k: int| 0 <= k < fresh.len() ==> #[trigger] fresh[k] < publish_item.len(),
            db@ == (Tables {
                published: kept + chosen.take(k as int).map_values(make),
                ..before
            }),
        decreases fresh.len() - k,
    {
        let ghost now = db@.published;
        let p: usize = fresh[k];
        let item = &publish_item[p];
        assert(items[p as int] == item.deep_view());
        db.published.push(
            PublishedRecord {
                workspace_id: *workspace_id,
                view_id: item.meta.view_id,
                publish_name: item.meta.publish_name.clone(),
                published_by,
                metadata: item.meta.metadata.copy(),
                blob: copy_bytes(&item.data),
            },
        );
        proof {
            assert(chosen[k as int] == item.deep_view());
            assert(db@.published =~= now.push(make(item.deep_view())));
            assert(chosen.take(k + 1) =~= chosen.take(k as int).push(item.deep_view()));
            assert(chosen.take(k + 1).map_values(make) =~= chosen.take(k as int).map_values(
                make,
            ).push(make(item.deep_view())));
            assert(db@.published =~= kept + chosen.take(k + 1).map_values(make));
            assert(db@ =~= (Tables {
                published: kept + chosen.take(k + 1).map_values(make),
                ..before
            }));
        }
        k = k + 1;
    }
    assert(chosen.take(k as int) =~= chosen);
    Ok(())
}

fn has_id(ids: &[Uuid], id: Uuid) -> (has: bool)
    ensures
        has == ids@.contains(id),
{
    let mut i: usize = 0;
    while i < ids.len()
        invariant
            i <= ids.len(),
            forall|k: int| 0 <= k < i ==> ids[k] != id,
        decreases ids.len() - i,
    {
        if ids[i] == id {
            return true;
        }
        i = i + 1;
    }
    false
}

pub open spec fn is_one_of(workspace_id: Uuid, view_ids: Seq<Uuid>) -> spec_fn(
    PublishedRecordView,
) -> bool {
    |row: PublishedRecordView| row.workspace_id == workspace_id && view_ids.contains(row.view_id)
}

/// The tables without the published rows of the views.
pub open spec fn without_published(tables: Tables, workspace_id: Uuid, view_ids: Seq<Uuid>) -> Tables {
    Tables { published: without(tables.published, is_one_of(workspace_id, view_ids)), ..tables }
}

/// Takes published views of a workspace back.
pub fn delete_published_collabs(db: &mut Database, workspace_id: &Uuid, view_ids: &[Uuid]) -> (result:
    Result<(), AppError>)
    ensures
        wrote(
            result,
            old(db)@,
            final(db)@,
            Ok(without_published(old(db)@, *workspace_id, view_ids@)),
        ),
{
    let drop = |row: &PublishedRecord| -> (dropped: bool)
        ensures
            dropped == is_one_of(*workspace_id, view_ids@)(row.deep_view()),
    { row.workspace_id == *workspace_id && has_id(view_ids, row.view_id) };
    delete_where(&mut db.published, drop, Ghost(is_one_of(*workspace_id, view_ids@)));
    Ok(())
}

/// The rows of the named views that the user published.
pub open spec fn is_own(workspace_id: Uuid, view_ids: Seq<Uuid>, uid: Option<i64>) -> spec_fn(
    PublishedRecordView,
) -> bool {
    |row: PublishedRecordView|
        row.workspace_id == workspace_id && view_ids.contains(row.view_id) && uid is Some
            && row.published_by == uid
}

/// Whether as many of the named views are published by the user as are named.
pub open spec fn publishes_all(
    tables: Tables,
    user_uuid: Uuid,
    workspace_uuid: Uuid,
    view_ids: Seq<Uuid>,
) -> Result<bool, DbError> {
    match tables.uid_by_uuid(user_uuid) {
        Ok(uid) => Ok(
            tables.published.filter(is_own(workspace_uuid, view_ids, uid)).len() as i64
                == view_ids.len() as i64,
        ),
        Err(error) => Err(error),
    }
}

/// Whether the user published all of the named views.
pub fn select_user_is_collab_publisher_for_all_views(
    db: &Database,
    user_uuid: &Uuid,
    workspace_uuid: &Uuid,
    view_ids: &[Uuid],
) -> (result: Result<bool, AppError>)
    ensures
        seen(result) == handed_on(publishes_all(db@, *user_uuid, *workspace_uuid, view_ids@)),
{
    let uid: Option<i64> = match db.uid_by_uuid(user_uuid) {
        Ok(uid) => uid,
        Err(error) => {
            return Err(AppError::Database(error));
        },
    };
    let ghost own = is_own(*workspace_uuid, view_ids@, uid);
    let keep = |row: &PublishedRecord| -> (kept: bool)
        ensures
            kept == is_own(*workspace_uuid, view_ids@, uid)(row.deep_view()),
    {
        row.workspace_id == *workspace_uuid && has_id(view_ids, row.view_id) && same_id(
            row.published_by,
            uid,
        )
    };
    let found = positions(&db.published, keep, Ghost(own));
    proof {
        let chosen = found@.map_values(|p: usize| db@.published[p as int]);
        assert(chosen.len() == found.len());
    }
    let count: i64 = #[verifier::truncate]
    (found.len() as i64);
    Ok(outcome::select_user_is_collab_publisher_for_all_views(Some(count), view_ids))
}

/// The published rows of the workspace with the namespace that have the name.
pub open spec fn published_under(
    tables: Tables,
    publish_namespace: Seq<char>,
    publish_name: Seq<char>,
) -> Result<Seq<PublishedRecordView>, DbError> {
    then_make(
        tables.workspace_by_namespace(publish_namespace),
        |workspace_id: Option<Uuid>| tables.published.filter(is_named(workspace_id, publish_name)),
    )
}

pub open spec fn is_named(workspace_id: Option<Uuid>, publish_name: Seq<char>) -> spec_fn(
    PublishedRecordView,
) -> bool {
    |row: PublishedRecordView|
        Some(row.workspace_id) == workspace_id && row.publish_name == publish_name
}

/// The position of the first row that is published under a namespace and a name.
fn find_published(db: &Database, publish_namespace: &str, publish_name: &str) -> (found: Result<
    usize,
    DbError,
>)
    ensures
        found matches Ok(p) ==> p < db.published.len(),
        then_make(found, |p: usize| db@.published[p as int]) == first_of(
            published_under(db@, publish_namespace@, publish_name@),
        ),
{
    let namespace = publish_namespace.to_owned();
    let name = publish_name.to_owned();
    let workspace_id: Option<Uuid> = match db.workspace_by_namespace(&namespace) {
        Ok(workspace_id) => workspace_id,
        Err(error) => {
            return Err(error);
        },
    };
    let keep = |row: &PublishedRecord| -> (kept: bool)
        ensures
            kept == is_named(workspace_id, publish_name@)(row.deep_view()),
    {
        match workspace_id {
            Some(id) => row.workspace_id == id && row.publish_name == name,
            None => false,
        }
    };
    let found = positions(&db.published, keep, Ghost(is_named(workspace_id, publish_name@)));
    let ghost chosen = found@.map_values(|p: usize| db@.published[p as int]);
    assert(chosen.len() == found.len());
    if found.len() == 0 {
        Err(DbError::RowNotFound)
    } else {
        assert(chosen[0] == db@.published[found[0] as int]);
        Ok(found[0])
    }
}

/// The metadata of what is published under a namespace and a name.
pub fn select_publish_collab_meta(
    db: &Database,
    publish_namespace: &str,
    publish_name: &str,
) -> (result: Result<Json, AppError>)
    ensures
        seen(result) == handed_on(
            then_make(
                first_of(published_under(db@, publish_namespace@, publish_name@)),
                |row: PublishedRecordView| row.metadata,
            ),
        ),
{
    match find_published(db, publish_namespace, publish_name) {
        Ok(p) => Ok(db.published[p].metadata.copy()),
        Err(error) => Err(AppError::Database(error)),
    }
}

/// The blob of what is published under a namespace and a name.
pub fn select_published_collab_blob(
    db: &Database,
    publish_namespace: &str,
    publish_name: &str,
) -> (result: Result<Vec<u8>, AppError>)
    ensures
        seen(result) == handed_on(
            then_make(
                first_of(published_under(db@, publish_namespace@, publish_name@)),
                |row: PublishedRecordView| row.blob,
            ),
        ),
{
    match find_published(db, publish_namespace, publish_name) {
        Ok(p) => {
            let blob = copy_bytes(&db.published[p].blob);
            assert(blob.deep_view() =~= blob@);
            Ok(blob)
        },
        Err(error) => Err(AppError::Database(error)),
    }
}

/// Where a view is published.
#[derive(Debug, PartialEq)]
pub struct PublishInfo {
    pub namespace: Option<String>,
    pub publish_name: String,
    pub view_id: Uuid,
}

/// [`PublishInfo`] with its texts as sequences.
pub struct PublishInfoView {
    pub namespace: Option<Seq<char>>,
    pub publish_name: Seq<char>,
    pub view_id: Uuid,
}

impl DeepView for PublishInfo {
    type V = PublishInfoView;

    open spec fn deep_view(&self) -> PublishInfoView {
        PublishInfoView {
            namespace: self.namespace.deep_view(),
            publish_name: self.publish_name@,
            view_id: self.view_id,
        }
    }
}

/// Where a published row stands: under its workspace's namespace.
pub open spec fn info_of(tables: Tables) -> spec_fn(PublishedRecordView) -> Result<
    PublishInfoView,
    DbError,
> {
    |row: PublishedRecordView|
        then_make(
            tables.namespace_by_workspace(row.workspace_id),
            |namespace: Option<Seq<char>>|
                PublishInfoView {
                    namespace,
                    publish_name: row.publish_name,
                    view_id: row.view_id,
                },
        )
}

pub open spec fn has_view_id(view_id: Uuid) -> spec_fn(PublishedRecordView) -> bool {
    |row: PublishedRecordView| row.view_id == view_id
}

/// Where the view is published, as it is handed out.
pub open spec fn info_found(tables: Tables, view_id: Uuid) -> Result<PublishInfoView, DbError> {
    first_of(each(tables.published.filter(has_view_id(view_id)), info_of(tables)))
}

/// Where a view is published.
pub fn select_published_collab_info(db: &Database, view_id: &Uuid) -> (result: Result<
    PublishInfo,
    AppError,
>)
    ensures
        seen(result) == handed_on(info_found(db@, *view_id)),
{
    let keep = |row: &PublishedRecord| -> (kept: bool)
        ensures
            kept == has_view_id(*view_id)(row.deep_view()),
    { row.view_id == *view_id };
    let found = positions(&db.published, keep, Ghost(has_view_id(*view_id)));
    let make = |row: &PublishedRecord| -> (made: Result<PublishInfo, DbError>)
        ensures
            plain(made) == info_of(db@)(row.deep_view()),
    {
        match db.namespace_by_workspace(&row.workspace_id) {
            Ok(namespace) => Ok(
                PublishInfo {
                    namespace,
                    publish_name: row.publish_name.clone(),
                    view_id: row.view_id,
                },
            ),
            Err(error) => Err(error),
        }
    };
    fetch_one(each_row(&db.published, &found, make, Ghost(info_of(db@))))
}

} // verus!
