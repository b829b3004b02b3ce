//! The history: finding an item, and what becomes of it.

use crate::model::{history_view, text_if_any, texts, HistoryItem, ItemView};
use crate::paths::{FilePath, PathView};
use crate::store::{AppStore, StoreView};
use crate::text::{joined, same_text};
use crate::time::{elapsed, elapsed_seconds, is_now_text, now_rfc3339};
use vstd::prelude::*;

verus! {

/// Whether `i` is the position of the first item of `h` with the id `id`.
pub open spec fn first_item(h: Seq<ItemView>, id: Seq<char>, i: int) -> bool {
    &&& 0 <= i < h.len()
    &&& h[i].id == id
    &&& forall|j: int| 0 <= j < i ==> #[trigger] h[j].id != id
}

/// Whether `h` has an item with the id `id`.
pub open spec fn has_item(h: Seq<ItemView>, id: Seq<char>) -> bool {
    exists|i: int| 0 <= i < h.len() && #[trigger] h[i].id == id
}

/// The position of the first item of `h` with the id `id`.
pub open spec fn item_index(h: Seq<ItemView>, id: Seq<char>) -> int {
    choose|i: int| first_item(h, id, i)
}

/// The first item of `h` with the id `id`.
pub open spec fn item_of(h: Seq<ItemView>, id: Seq<char>) -> ItemView {
    h[item_index(h, id)]
}

/// Finds the first item of `history` with the id `id`.
pub fn find_item(history: &Vec<HistoryItem>, id: &str) -> (r: Option<usize>)
    ensures
        match r {
            Some(i) => {
                &&& first_item(history_view(history@), id@, i as int)
                &&& item_index(history_view(history@), id@) == i
            },
            None => !has_item(history_view(history@), id@),
        },
{
    let ghost h = history_view(history@);
    let mut i: usize = 0;
    while i < history.len()
        invariant
            i <= history@.len(),
            h == history_view(history@),
            forall|j: int| 0 <= j < i ==> #[trigger] h[j].id != id@,
        decreases history@.len() - i,
    {
        assert(h[i as int] == history@[i as int]@);
        if same_text(history[i].id.as_str(), id) {
            assert(first_item(h, id@, i as int));
            return Some(i);
        }
        i = i + 1;
    }
    None
}

/// What is reported of an id that no item has.
pub open spec fn unknown_item() -> Seq<char> {
    "历史记录不存在"@
}

/// Changes the first item with the id `id` by `f`, and gives the changed item back.
pub fn update_history<F: FnOnce(&mut HistoryItem)>(store: &mut AppStore, id: &str, f: F) -> (r: Result<
    HistoryItem,
    String,
>)
    requires
        forall|x: &mut HistoryItem| #[trigger] call_requires(f, (x,)),
    ensures
        match r {
            Ok(item) => {
                let h = old(store)@.data.history;
                &&& first_item(h, id@, item_index(h, id@))
                &&& exists|x: &mut HistoryItem| #[trigger]
                    call_ensures(f, (x,), ()) && x@ == item_of(h, id@) && final(x)@ == item@
                &&& final(store)@ == old(store)@.with_history(h.update(item_index(h, id@), item@))
            },
            Err(e) => {
                &&& !has_item(old(store)@.data.history, id@)
                &&& e@ == unknown_item()
                &&& final(store)@ == old(store)@
            },
        },
{
    let ghost h = store@.data.history;
    match find_item(&store.data.history, id) {
        Some(i) => {
            assert(h[i as int] == store.data.history@[i as int]@);
            f(&mut store.data.history[i]);
            let item = store.data.history[i].clone();
            assert(store@.data.history =~= h.update(i as int, item@));
            Ok(item)
        },
        None => Err("历史记录不存在".to_string()),
    }
}

/// What `item` becomes when its generation fails at `finished_at`.
pub open spec fn failed_item(item: ItemView, message: Seq<char>, finished_at: Seq<char>) -> ItemView {
    ItemView {
        status: "failed"@,
        error: Some(message),
        finished_at,
        duration_seconds: Some(elapsed(item.created_at, finished_at)),
        ..item
    }
}

/// What `item` becomes when its image is stored in `stored_path` at `finished_at`.
pub open spec fn completed_item(
    item: ItemView,
    stored_path: Seq<char>,
    finished_at: Seq<char>,
) -> ItemView {
    ItemView {
        status: "completed"@,
        stored_path,
        error: None,
        finished_at,
        duration_seconds: Some(elapsed(item.created_at, finished_at)),
        ..item
    }
}

/// What `item` becomes when the service accepts it as the task `task_id`.
pub open spec fn accepted_item(item: ItemView, task_id: Seq<char>) -> ItemView {
    ItemView { task_id: Some(task_id), error: None, ..item }
}

/// Marks `item` as failed at `finished_at`.
pub fn fail_item(item: &mut HistoryItem, message: String, finished_at: String)
    ensures
        final(item)@ == failed_item(old(item)@, message@, finished_at@),
{
    item.status = "failed".to_string();
    item.error = Some(message);
    item.duration_seconds = Some(elapsed_seconds(item.created_at.as_str(), finished_at.as_str()));
    item.finished_at = finished_at;
}

/// The outcome of replacing the first item with the id `id` by `changed`.
pub open spec fn replaces(
    before: StoreView,
    id: Seq<char>,
    changed: ItemView,
    after: StoreView,
    r: Result<HistoryItem, String>,
) -> bool {
    let h = before.data.history;
    match r {
        Ok(item) => {
            &&& first_item(h, id, item_index(h, id))
            &&& item@ == changed
            &&& after == before.with_history(h.update(item_index(h, id), changed))
        },
        Err(e) => !has_item(h, id) && e@ == unknown_item() && after == before,
    }
}

/// Marks the item `history_id` as failed at `finished_at`.
pub fn fail_history_at(
    store: &mut AppStore,
    history_id: &str,
    message: String,
    finished_at: String,
) -> (r: Result<HistoryItem, String>)
    ensures
        replaces(
            old(store)@,
            history_id@,
            failed_item(item_of(old(store)@.data.history, history_id@), message@, finished_at@),
            final(store)@,
            r,
        ),
{
    let mark = |item: &mut HistoryItem| -> (r: ())
        ensures
            final(item)@ == failed_item(old(item)@, message@, finished_at@),
        { fail_item(item, message, finished_at) };
    update_history(store, history_id, mark)
}

/// Whether the outcome is that of marking the item `id` as failed now.
pub open spec fn fails(
    before: StoreView,
    id: Seq<char>,
    message: Seq<char>,
    after: StoreView,
    r: Result<HistoryItem, String>,
) -> bool {
    exists|finished_at: Seq<char>|
        is_now_text(finished_at) && #[trigger] replaces(
            before,
            id,
            failed_item(item_of(before.data.history, id), message, finished_at),
            after,
            r,
        )
}

/// Marks the item `history_id` as failed now.
pub fn fail_history(store: &mut AppStore, history_id: &str, message: String) -> (r: Result<
    HistoryItem,
    String,
>)
    ensures
        fails(old(store)@, history_id@, message@, final(store)@, r),
{
    fail_history_at(store, history_id, message, now_rfc3339())
}

/// Notes that the service accepted the item `history_id` as the task `task_id`.
pub fn accept_task(store: &mut AppStore, history_id: &str, task_id: String) -> (r: Result<
    HistoryItem,
    String,
>)
    ensures
        replaces(
            old(store)@,
            history_id@,
            accepted_item(item_of(old(store)@.data.history, history_id@), task_id@),
            final(store)@,
            r,
        ),
{
    let mark = |item: &mut HistoryItem| -> (r: ())
        ensures
            final(item)@ == accepted_item(old(item)@, task_id@),
        {
            item.task_id = Some(task_id);
            item.error = None;
        };
    update_history(store, history_id, mark)
}

/// A generated image that is to be written.
#[derive(Debug, PartialEq)]
pub struct ResultFile {
    /// The item that the image belongs to.
    pub item: HistoryItem,
    /// The directory that has to exist.
    pub dir: FilePath,
    /// Where the image goes.
    pub path: FilePath,
    pub bytes: Vec<u8>,
}

/// The directory of the generated images.
pub open spec fn results_dir(store: StoreView) -> PathView {
    store.data_dir.join("results"@)
}

/// Where the image of `item` goes.
pub open spec fn result_path(store: StoreView, item: ItemView) -> PathView {
    results_dir(store).join(item.id + ".png"@)
}

impl ResultFile {
    /// Whether `self` is the image `bytes` of `item`, bound for its place.
    pub open spec fn is_for(self, store: StoreView, item: ItemView, bytes: Seq<u8>) -> bool {
        &&& self.item@ == item
        &&& self.dir@ == results_dir(store)
        &&& self.path@ == result_path(store, item)
        &&& self.bytes@ == bytes
    }
}

/// Says where the image `bytes` of `item` goes.
pub fn store_result(store: &AppStore, item: HistoryItem, bytes: Vec<u8>) -> (r: ResultFile)
    ensures
        r.is_for(store@, item@, bytes@),
{
    let dir = store.results_dir();
    let path = dir.join(joined(item.id.as_str(), ".png").as_str());
    ResultFile { item, dir, path, bytes }
}

/// Marks `item` as completed at `finished_at`, with its image in `stored_path`.
pub fn complete_item(item: &mut HistoryItem, stored_path: String, finished_at: String)
    ensures
        final(item)@ == completed_item(old(item)@, stored_path@, finished_at@),
{
    item.status = "completed".to_string();
    item.stored_path = stored_path;
    item.error = None;
    item.duration_seconds = Some(elapsed_seconds(item.created_at.as_str(), finished_at.as_str()));
    item.finished_at = finished_at;
}

/// Puts `item` in the place of the first item with its id.
pub fn replace_item(store: &mut AppStore, item: HistoryItem) -> (r: Result<HistoryItem, String>)
    ensures
        replaces(old(store)@, item@.id, item@, final(store)@, r),
{
    let id = item.id.clone();
    let put = |old_item: &mut HistoryItem| -> (r: ())
        ensures
            final(old_item)@ == item@,
        { *old_item = item; };
    update_history(store, id.as_str(), put)
}

/// Records that the image of `item` was written to `stored_path` at `finished_at`.
pub fn record_result_at(
    store: &mut AppStore,
    item: HistoryItem,
    stored_path: String,
    finished_at: String,
) -> (r: Result<HistoryItem, String>)
    ensures
        replaces(
            old(store)@,
            item@.id,
            completed_item(item@, stored_path@, finished_at@),
            final(store)@,
            r,
        ),
{
    let mut item = item;
    complete_item(&mut item, stored_path, finished_at);
    replace_item(store, item)
}

/// Whether the outcome is that of recording that the image of `item` was written to `stored_path`
/// now.
pub open spec fn completes(
    before: StoreView,
    item: ItemView,
    stored_path: Seq<char>,
    after: StoreView,
    r: Result<HistoryItem, String>,
) -> bool {
    exists|finished_at: Seq<char>|
        is_now_text(finished_at) && #[trigger] replaces(
            before,
            item.id,
            completed_item(item, stored_path, finished_at),
            after,
            r,
        )
}

/// Records that the image of `item` was written to `stored_path` now.
pub fn record_result(store: &mut AppStore, item: HistoryItem, stored_path: String) -> (r: Result<
    HistoryItem,
    String,
>)
    ensures
        completes(old(store)@, item@, stored_path@, final(store)@, r),
{
    record_result_at(store, item, stored_path, now_rfc3339())
}

/// `item`, with the task id `task_id` if there is one.
pub open spec fn with_task_id(item: ItemView, task_id: Option<Seq<char>>) -> ItemView {
    if task_id is Some {
        ItemView { task_id, ..item }
    } else {
        item
    }
}

/// Says where the image `bytes` of the item `history_id` goes, which the service calls `task_id`
/// if it gave it a name.
pub fn complete_history_with_bytes(
    store: &AppStore,
    history_id: &str,
    task_id: Option<String>,
    bytes: Vec<u8>,
) -> (r: Result<ResultFile, String>)
    ensures
        match r {
            Ok(file) => {
                let h = store@.data.history;
                &&& first_item(h, history_id@, item_index(h, history_id@))
                &&& file.is_for(store@, with_task_id(item_of(h, history_id@), text_if_any(task_id)), bytes@)
            },
            Err(e) => !has_item(store@.data.history, history_id@) && e@ == unknown_item(),
        },
{
    match find_item(&store.data.history, history_id) {
        Some(i) => {
            let mut item = store.data.history[i].clone();
            if task_id.is_some() {
                item.task_id = task_id;
            }
            Ok(store_result(store, item, bytes))
        },
        None => Err("历史记录不存在".to_string()),
    }
}

/// Whether `item` waits for the service, which knows it as a task.
pub open spec fn is_awaiting(item: ItemView) -> bool {
    item.status == "pending"@ && item.task_id is Some
}

/// The ids of the items of `h` that wait for the service, in order.
pub open spec fn awaiting_ids(h: Seq<ItemView>) -> Seq<Seq<char>>
    decreases h.len(),
{
    if h.len() == 0 {
        Seq::empty()
    } else if is_awaiting(h.last()) {
        awaiting_ids(h.drop_last()).push(h.last().id)
    } else {
        awaiting_ids(h.drop_last())
    }
}

/// The ids of the items that wait for the service, in order.
pub fn pending_task_ids(store: &AppStore) -> (r: Vec<String>)
    ensures
        texts(r@) == awaiting_ids(store@.data.history),
{
    let ghost h = store@.data.history;
    let mut r: Vec<String> = Vec::new();
    let mut i: usize = 0;
    assert(texts(r@) =~= Seq::empty());
    while i < store.data.history.len()
        invariant
            i <= store.data.history@.len(),
            h == history_view(store.data.history@),
            texts(r@) == awaiting_ids(h.take(i as int)),
        decreases store.data.history@.len() - i,
    {
        let item = &store.data.history[i];
        assert(h.take(i + 1).drop_last() =~= h.take(i as int));
        assert(h.take(i + 1).last() == item@);
        if same_text(item.status.as_str(), "pending") && item.task_id.is_some() {
            let ghost before = r@;
            r.push(item.id.clone());
            assert(texts(r@) =~= texts(before).push(item@.id));
        }
        i = i + 1;
    }
    assert(h.take(i as int) =~= h);
    r
}

}
