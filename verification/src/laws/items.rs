//! The items of the history: what each operation makes of an item, field by field.

use crate::history::{
    accept_task, awaiting_ids, complete_history_with_bytes, fail_history, fail_history_at, fails, has_item, item_index,
    item_of, pending_task_ids, record_result, record_result_at, replace_item, replaces, store_result, ResultFile,
};
use crate::laws::history::{first_item_exists, first_item_is_unique};
use crate::model::{text_if_any, texts, HistoryItem, ItemView};
use crate::paths::PathView;
use crate::store::{clear_history, AppStore, StoreView};
use crate::time::{elapsed, is_now_text};
use vstd::prelude::*;

verus! {

/// What an item holds is what its fields hold.
pub proof fn items_hold_their_fields(item: HistoryItem)
    ensures
        item@.id == item.id@,
        item@.prompt == item.prompt@,
        item@.size == item.size@,
        item@.provider_name == item.provider_name@,
        item@.adapter == item.adapter@,
        item@.reference_paths.len() == item.reference_paths@.len(),
        forall|i: int|
            0 <= i < item.reference_paths@.len() ==> #[trigger] item@.reference_paths[i] == item.reference_paths@[i]@,
        item@.status == item.status@,
        item.task_id matches Some(t) ==> item@.task_id == Some(t@),
        item.task_id is None ==> item@.task_id is None,
        item@.stored_path == item.stored_path@,
        item.error matches Some(e) ==> item@.error == Some(e@),
        item.error is None ==> item@.error is None,
        item@.created_at == item.created_at@,
        item@.finished_at == item.finished_at@,
        item@.duration_seconds == item.duration_seconds,
{
}

/// What a state holds is what its history, its services and its places hold.
pub proof fn states_hold_their_parts(store: AppStore)
    ensures
        store@.data.history.len() == store.data.history@.len(),
        forall|i: int|
            0 <= i < store.data.history@.len() ==> #[trigger] store@.data.history[i] == store.data.history@[i]@,
        store@.data.settings.providers.len() == store.data.settings.providers@.len(),
        forall|i: int|
            0 <= i < store.data.settings.providers@.len() ==> #[trigger] store@.data.settings.providers[i]
                == store.data.settings.providers@[i]@,
        store@.data.settings.active_provider_id == store.data.settings.active_provider_id@,
        store@.state_path == store.state_path@,
        store@.data_dir == store.data_dir@,
{
}

/// Whether the item at `k` is the first of `h` with the id `id`.
pub open spec fn is_first(h: Seq<ItemView>, id: Seq<char>, k: int) -> bool {
    0 <= k < h.len() && h[k].id == id && (forall|j: int| 0 <= j < k ==> (#[trigger] h[j]).id != id)
}

/// Whether no item of `h` has the id `id`.
pub open spec fn is_unknown(h: Seq<ItemView>, id: Seq<char>) -> bool {
    forall|j: int| 0 <= j < h.len() ==> (#[trigger] h[j]).id != id
}

/// An item is found by its id, and of several with the same id the first.
pub proof fn items_are_found_by_their_id(h: Seq<ItemView>, id: Seq<char>)
    ensures
        forall|k: int| #[trigger] is_first(h, id, k) ==> has_item(h, id) && item_index(h, id) == k && item_of(h, id) == h[k],
        is_unknown(h, id) <==> !has_item(h, id),
        has_item(h, id) ==> is_first(h, id, item_index(h, id)),
{
    assert forall|k: int| #[trigger] is_first(h, id, k) implies has_item(h, id) && item_index(h, id) == k && item_of(h, id)
        == h[k] by {
        assert(h[k].id == id);
        assert(crate::history::first_item(h, id, k));
        first_item_is_unique(h, id, k);
    }
    if has_item(h, id) {
        first_item_exists(h, id);
        let k = item_index(h, id);
        assert(h[k].id == id);
    }
}

/// Whether `new` asks for the same image as `old_item`, of the same service, since the same time.
pub open spec fn asks_the_same(old_item: ItemView, new: ItemView) -> bool {
    &&& new.id == old_item.id
    &&& new.prompt == old_item.prompt
    &&& new.size == old_item.size
    &&& new.provider_name == old_item.provider_name
    &&& new.adapter == old_item.adapter
    &&& new.reference_paths == old_item.reference_paths
    &&& new.created_at == old_item.created_at
}

/// Whether `new` is `old_item` once it failed at `finished_at`, for the reason `message`.
pub open spec fn is_failure(old_item: ItemView, new: ItemView, message: Seq<char>, finished_at: Seq<char>) -> bool {
    &&& asks_the_same(old_item, new)
    &&& new.task_id == old_item.task_id
    &&& new.stored_path == old_item.stored_path
    &&& new.status == "failed"@
    &&& new.error == Some(message)
    &&& new.finished_at == finished_at
    &&& new.duration_seconds == Some(elapsed(old_item.created_at, finished_at))
}

/// Whether `new` is `old_item` once its image was written to `stored_path` at `finished_at`.
pub open spec fn is_completion(old_item: ItemView, new: ItemView, stored_path: Seq<char>, finished_at: Seq<char>) -> bool {
    &&& asks_the_same(old_item, new)
    &&& new.task_id == old_item.task_id
    &&& new.stored_path == stored_path
    &&& new.status == "completed"@
    &&& new.error is None
    &&& new.finished_at == finished_at
    &&& new.duration_seconds == Some(elapsed(old_item.created_at, finished_at))
}

/// Whether `new` is `old_item` once a service accepted it as the task `task_id`.
pub open spec fn is_acceptance(old_item: ItemView, new: ItemView, task_id: Seq<char>) -> bool {
    &&& asks_the_same(old_item, new)
    &&& new.task_id == Some(task_id)
    &&& new.stored_path == old_item.stored_path
    &&& new.status == old_item.status
    &&& new.error is None
    &&& new.finished_at == old_item.finished_at
    &&& new.duration_seconds == old_item.duration_seconds
}

/// Whether `after` is `before` with `new` in the place `k` of the history.
pub open spec fn is_changed_at(before: StoreView, after: StoreView, k: int, new: ItemView) -> bool {
    &&& after.data.settings == before.data.settings
    &&& after.state_path == before.state_path
    &&& after.data_dir == before.data_dir
    &&& after.data.history.len() == before.data.history.len()
    &&& forall|i: int|
        0 <= i < before.data.history.len() ==> #[trigger] after.data.history[i] == (if i == k {
            new
        } else {
            before.data.history[i]
        })
}

/// What is reported of an id that no item has.
pub open spec fn reports_unknown_item(r: Result<HistoryItem, String>) -> bool {
    r matches Err(e) && e@ == "历史记录不存在"@
}

proof fn replacing_changes_one_place(
    before: StoreView,
    id: Seq<char>,
    changed: ItemView,
    after: StoreView,
    r: Result<HistoryItem, String>,
)
    requires
        replaces(before, id, changed, after, r),
    ensures
        forall|k: int|
            #[trigger] is_first(before.data.history, id, k) ==> (r matches Ok(item) && item@ == changed) && is_changed_at(
                before,
                after,
                k,
                changed,
            ),
        is_unknown(before.data.history, id) ==> reports_unknown_item(r) && after == before,
{
    items_are_found_by_their_id(before.data.history, id);
}

/// Failing an item marks the first with its id as failed, with the message, the time and the seconds
/// since it was created, and changes nothing else. An unknown id is reported, and nothing changes.
pub proof fn failing_marks_the_item(
    store: &mut AppStore,
    id: &str,
    message: String,
    finished_at: String,
    r: Result<HistoryItem, String>,
)
    requires
        call_ensures(fail_history_at, (store, id, message, finished_at), r),
    ensures
        forall|k: int|
            #[trigger] is_first(old(store)@.data.history, id@, k) ==> (r matches Ok(item) && is_failure(
                old(store)@.data.history[k],
                item@,
                message@,
                finished_at@,
            ) && is_changed_at(old(store)@, final(store)@, k, item@)),
        is_unknown(old(store)@.data.history, id@) ==> reports_unknown_item(r) && final(store)@ == old(store)@,
{
    let h = old(store)@.data.history;
    items_are_found_by_their_id(h, id@);
    let changed = crate::history::failed_item(item_of(h, id@), message@, finished_at@);
    replacing_changes_one_place(old(store)@, id@, changed, final(store)@, r);
}

/// Whether, from `before` to `after`, the first item with the id `id` was marked as failed now, for
/// the reason `message`; or nothing was changed, and an unknown id was reported.
pub open spec fn fails_now(
    before: StoreView,
    id: Seq<char>,
    message: Seq<char>,
    after: StoreView,
    r: Result<HistoryItem, String>,
) -> bool {
    &&& forall|k: int|
        #[trigger] is_first(before.data.history, id, k) ==> (r matches Ok(item) && is_failure(
            before.data.history[k],
            item@,
            message,
            item@.finished_at,
        ) && is_now_text(item@.finished_at) && is_changed_at(before, after, k, item@))
    &&& is_unknown(before.data.history, id) ==> reports_unknown_item(r) && after == before
}

pub(crate) proof fn failing_is_failing_now(
    before: StoreView,
    id: Seq<char>,
    message: Seq<char>,
    after: StoreView,
    r: Result<HistoryItem, String>,
)
    requires
        fails(before, id, message, after, r),
    ensures
        fails_now(before, id, message, after, r),
{
    let h = before.data.history;
    items_are_found_by_their_id(h, id);
    let at = choose|t: Seq<char>|
        is_now_text(t) && #[trigger] replaces(
            before,
            id,
            crate::history::failed_item(item_of(h, id), message, t),
            after,
            r,
        );
    replacing_changes_one_place(before, id, crate::history::failed_item(item_of(h, id), message, at), after, r);
}

/// Failing an item now is failing it at a time that can be the time now.
pub proof fn failing_now_marks_the_item(store: &mut AppStore, id: &str, message: String, r: Result<HistoryItem, String>)
    requires
        call_ensures(fail_history, (store, id, message), r),
    ensures
        fails_now(old(store)@, id@, message@, final(store)@, r),
{
    failing_is_failing_now(old(store)@, id@, message@, final(store)@, r);
}

/// Recording a result marks the first item with the id of `item` as completed, with what `item` asks,
/// the path, the time and the seconds since it was created, and changes nothing else.
pub proof fn recording_completes_the_item(
    store: &mut AppStore,
    item: HistoryItem,
    stored_path: String,
    finished_at: String,
    r: Result<HistoryItem, String>,
)
    requires
        call_ensures(record_result_at, (store, item, stored_path, finished_at), r),
    ensures
        forall|k: int|
            #[trigger] is_first(old(store)@.data.history, item.id@, k) ==> (r matches Ok(done) && is_completion(
                item@,
                done@,
                stored_path@,
                finished_at@,
            ) && is_changed_at(old(store)@, final(store)@, k, done@)),
        is_unknown(old(store)@.data.history, item.id@) ==> reports_unknown_item(r) && final(store)@ == old(store)@,
{
    let changed = crate::history::completed_item(item@, stored_path@, finished_at@);
    replacing_changes_one_place(old(store)@, item@.id, changed, final(store)@, r);
}

/// Recording a result now is recording it at a time that can be the time now.
pub proof fn recording_now_completes_the_item(
    store: &mut AppStore,
    item: HistoryItem,
    stored_path: String,
    r: Result<HistoryItem, String>,
)
    requires
        call_ensures(record_result, (store, item, stored_path), r),
    ensures
        forall|k: int|
            #[trigger] is_first(old(store)@.data.history, item.id@, k) ==> (r matches Ok(done) && is_completion(
                item@,
                done@,
                stored_path@,
                done@.finished_at,
            ) && is_now_text(done@.finished_at) && is_changed_at(old(store)@, final(store)@, k, done@)),
        is_unknown(old(store)@.data.history, item.id@) ==> reports_unknown_item(r) && final(store)@ == old(store)@,
{
    let at = choose|t: Seq<char>|
        is_now_text(t) && #[trigger] replaces(
            old(store)@,
            item@.id,
            crate::history::completed_item(item@, stored_path@, t),
            final(store)@,
            r,
        );
    let changed = crate::history::completed_item(item@, stored_path@, at);
    replacing_changes_one_place(old(store)@, item@.id, changed, final(store)@, r);
}

/// Replacing an item puts it in the place of the first with its id, and changes nothing else.
pub proof fn replacing_puts_the_item_in_its_place(
    store: &mut AppStore,
    item: HistoryItem,
    r: Result<HistoryItem, String>,
)
    requires
        call_ensures(replace_item, (store, item), r),
    ensures
        forall|k: int|
            #[trigger] is_first(old(store)@.data.history, item.id@, k) ==> (r matches Ok(put) && put@ == item@)
                && is_changed_at(old(store)@, final(store)@, k, item@),
        is_unknown(old(store)@.data.history, item.id@) ==> reports_unknown_item(r) && final(store)@ == old(store)@,
{
    replacing_changes_one_place(old(store)@, item@.id, item@, final(store)@, r);
}

/// Accepting a task gives the first item with the id the task's name and takes its error away, and
/// changes nothing else.
pub proof fn accepting_names_the_task(store: &mut AppStore, id: &str, task_id: String, r: Result<HistoryItem, String>)
    requires
        call_ensures(accept_task, (store, id, task_id), r),
    ensures
        forall|k: int|
            #[trigger] is_first(old(store)@.data.history, id@, k) ==> (r matches Ok(item) && is_acceptance(
                old(store)@.data.history[k],
                item@,
                task_id@,
            ) && is_changed_at(old(store)@, final(store)@, k, item@)),
        is_unknown(old(store)@.data.history, id@) ==> reports_unknown_item(r) && final(store)@ == old(store)@,
{
    let h = old(store)@.data.history;
    items_are_found_by_their_id(h, id@);
    let changed = crate::history::accepted_item(item_of(h, id@), task_id@);
    replacing_changes_one_place(old(store)@, id@, changed, final(store)@, r);
}

/// Whether `file` holds the image `bytes` of `item`, bound for `<id>.png` among the results.
pub open spec fn is_result_of(file: ResultFile, data_dir: PathView, item: ItemView, bytes: Seq<u8>) -> bool {
    &&& file.item@ == item
    &&& file.bytes@ == bytes
    &&& file.dir@.base == data_dir.base
    &&& file.dir@.names == data_dir.names.push("results"@)
    &&& file.path@.base == data_dir.base
    &&& file.path@.names == data_dir.names.push("results"@).push(item.id + seq!['.', 'p', 'n', 'g'])
}

pub(crate) proof fn results_go_to_their_place(store: StoreView, item: ItemView, bytes: Seq<u8>)
    ensures
        forall|file: ResultFile|
            #[trigger] file.is_for(store, item, bytes) ==> is_result_of(file, store.data_dir, item, bytes),
{
    reveal_strlit(".png");
    assert(".png"@ =~= seq!['.', 'p', 'n', 'g']);
}

/// An image is written under the id of its item among the results, as it came.
pub proof fn images_are_kept_by_id(store: &AppStore, item: HistoryItem, bytes: Vec<u8>, r: ResultFile)
    requires
        call_ensures(store_result, (store, item, bytes), r),
    ensures
        is_result_of(r, store@.data_dir, item@, bytes@),
{
    results_go_to_their_place(store@, item@, bytes@);
}

/// An image that came at once is kept for the first item with the id; the item gets the name that the
/// service gave it, if it gave one, and keeps everything else.
pub proof fn images_that_came_at_once_are_kept(
    store: &AppStore,
    id: &str,
    task_id: Option<String>,
    bytes: Vec<u8>,
    r: Result<ResultFile, String>,
)
    requires
        call_ensures(complete_history_with_bytes, (store, id, task_id, bytes), r),
    ensures
        forall|k: int|
            #[trigger] is_first(store@.data.history, id@, k) ==> (r matches Ok(file) && is_result_of(
                file,
                store@.data_dir,
                file.item@,
                bytes@,
            ) && is_named_anew(store@.data.history[k], file.item@, text_if_any(task_id))),
        is_unknown(store@.data.history, id@) ==> (r matches Err(e) && e@ == "历史记录不存在"@),
{
    items_are_found_by_their_id(store@.data.history, id@);
    if let Ok(file) = r {
        results_go_to_their_place(store@, file.item@, bytes@);
    }
}

/// Whether `new` is `old_item` with the task id `task_id`, if there is one.
pub open spec fn is_named_anew(old_item: ItemView, new: ItemView, task_id: Option<Seq<char>>) -> bool {
    &&& asks_the_same(old_item, new)
    &&& new.task_id == (if task_id is Some {
        task_id
    } else {
        old_item.task_id
    })
    &&& new.stored_path == old_item.stored_path
    &&& new.status == old_item.status
    &&& new.error == old_item.error
    &&& new.finished_at == old_item.finished_at
    &&& new.duration_seconds == old_item.duration_seconds
}

proof fn awaiting_ids_are_filtered(h: Seq<ItemView>)
    ensures
        awaiting_ids(h) == h.filter(|i: ItemView| i.status == "pending"@ && i.task_id is Some).map_values(
            |i: ItemView| i.id,
        ),
    decreases h.len(),
{
    let waits = |i: ItemView| i.status == "pending"@ && i.task_id is Some;
    let id = |i: ItemView| i.id;
    reveal(Seq::filter);
    if h.len() > 0 {
        awaiting_ids_are_filtered(h.drop_last());
        let rest = h.drop_last().filter(waits);
        if waits(h.last()) {
            assert(h.filter(waits) == rest.push(h.last()));
            assert(rest.push(h.last()).map_values(id) =~= rest.map_values(id).push(h.last().id));
        } else {
            assert(h.filter(waits) == rest);
        }
    } else {
        assert(h.filter(waits).map_values(id) =~= Seq::empty());
    }
}

/// The requests that are asked after are the pending ones that have a task id, each under its id, in
/// the order of the history.
pub proof fn pending_tasks_are_asked_after(store: &AppStore, r: Vec<String>)
    requires
        call_ensures(pending_task_ids, (store,), r),
    ensures
        texts(r@) == store@.data.history.filter(
            |i: ItemView| i.status == "pending"@ && i.task_id is Some,
        ).map_values(|i: ItemView| i.id),
{
    awaiting_ids_are_filtered(store@.data.history);
}

/// Clearing the history leaves no item, and everything else.
pub proof fn clearing_leaves_no_item(store: &mut AppStore)
    requires
        call_ensures(clear_history, (store,), ()),
    ensures
        final(store)@.data.history.len() == 0,
        final(store)@.data.settings == old(store)@.data.settings,
        final(store)@.state_path == old(store)@.state_path,
        final(store)@.data_dir == old(store)@.data_dir,
{
}

}
