//! The history.

use crate::download::download_fault;
use crate::generate::{new_item, with_front, HISTORY_LIMIT};
use crate::history::{
    accepted_item, awaiting_ids, completed_item, failed_item, fails, first_item, has_item,
    is_awaiting, item_index, item_of, replaces,
};
use crate::model::{HistoryItem, ItemView, ProviderView};
use crate::poll::{after_question, PollView};
use crate::store::StoreView;
use crate::text::is_blank;
use crate::time::is_now_text;
use vstd::prelude::*;

verus! {

/// The first item with a given id is there if any is.
pub proof fn first_item_exists(h: Seq<ItemView>, id: Seq<char>)
    requires
        has_item(h, id),
    ensures
        first_item(h, id, item_index(h, id)),
{
    let n = choose|n: int| 0 <= n < h.len() && #[trigger] h[n].id == id;
    first_item_at_or_before(h, id, n);
}

proof fn first_item_at_or_before(h: Seq<ItemView>, id: Seq<char>, n: int)
    requires
        0 <= n < h.len(),
        h[n].id == id,
    ensures
        exists|i: int| first_item(h, id, i),
    decreases n,
{
    if forall|j: int| 0 <= j < n ==> #[trigger] h[j].id != id {
        assert(first_item(h, id, n));
    } else {
        let j = choose|j: int| 0 <= j < n && #[trigger] h[j].id == id;
        first_item_at_or_before(h, id, j);
    }
}

/// There is only one first item with a given id.
pub proof fn first_item_is_unique(h: Seq<ItemView>, id: Seq<char>, i: int)
    requires
        first_item(h, id, i),
    ensures
        item_index(h, id) == i,
{
    let k = item_index(h, id);
    assert(first_item(h, id, k));
    if k < i {
        assert(h[k].id != id);
    } else if i < k {
        assert(h[i].id != id);
    }
}

/// A new item stands at the front of the history, the older items follow in their order, the
/// oldest are dropped beyond the limit, and no other is.
pub proof fn new_items_come_first(h: Seq<ItemView>, item: ItemView)
    ensures
        with_front(h, item)[0] == item,
        forall|i: int| 1 <= i < with_front(h, item).len() ==> #[trigger] with_front(h, item)[i] == h[i - 1],
        with_front(h, item).len() <= HISTORY_LIMIT,
        h.len() < HISTORY_LIMIT ==> with_front(h, item).len() == h.len() + 1,
        h.len() >= HISTORY_LIMIT ==> with_front(h, item).len() == HISTORY_LIMIT,
{
}

/// An item that has just been queued is found by its id, and no service is asked after it yet.
pub proof fn new_items_are_found(
    h: Seq<ItemView>,
    provider: ProviderView,
    prompt: Seq<char>,
    size: Seq<char>,
    reference_paths: Seq<Seq<char>>,
    id: Seq<char>,
    created_at: Seq<char>,
)
    ensures
        ({
            let item = new_item(provider, prompt, size, reference_paths, id, created_at);
            let after = with_front(h, item);
            &&& has_item(after, id)
            &&& item_of(after, id) == item
            &&& !is_awaiting(item)
            &&& download_fault(after, id) == Some("图片尚未生成完成"@)
        }),
{
    let item = new_item(provider, prompt, size, reference_paths, id, created_at);
    let after = with_front(h, item);
    assert(after[0].id == id);
    assert(first_item(after, id, 0));
    first_item_is_unique(after, id, 0);
    statuses_differ();
}

/// Changing an item keeps the settings, the number and the order of the items, and every other
/// item; if it keeps the id, the changed item is the one found by it.
pub proof fn changing_an_item_keeps_the_rest(
    before: StoreView,
    id: Seq<char>,
    changed: ItemView,
    after: StoreView,
    r: Result<HistoryItem, String>,
)
    requires
        replaces(before, id, changed, after, r),
    ensures
        after.data.settings == before.data.settings,
        after.data_dir == before.data_dir,
        after.state_path == before.state_path,
        after.data.history.len() == before.data.history.len(),
        r is Ok <==> has_item(before.data.history, id),
        forall|i: int|
            0 <= i < before.data.history.len() && i != item_index(before.data.history, id)
                ==> #[trigger] after.data.history[i] == before.data.history[i],
        r is Ok && changed.id == id ==> has_item(after.data.history, id) && item_of(after.data.history, id) == changed,
        r is Err ==> after == before,
{
    let h = before.data.history;
    let k = item_index(h, id);
    if r is Ok {
        assert(h[k].id == id);
        if changed.id == id {
            let g = after.data.history;
            assert(g[k] == changed);
            assert forall|j: int| 0 <= j < k implies #[trigger] g[j].id != id by {
                assert(g[j] == h[j]);
            }
            assert(first_item(g, id, k));
            first_item_is_unique(g, id, k);
        }
    }
}

/// The three words for the status of an item differ.
proof fn statuses_differ()
    ensures
        "pending"@ != "failed"@,
        "pending"@ != "completed"@,
        "failed"@ != "completed"@,
{
    reveal_strlit("pending");
    reveal_strlit("failed");
    reveal_strlit("completed");
    assert("pending"@.len() == 7 && "failed"@.len() == 6 && "completed"@.len() == 9);
}

/// What was recorded as completed can be downloaded, from the path that was recorded, unless that
/// path is blank; and no service is asked after it any more.
pub proof fn completed_items_can_be_downloaded(
    before: StoreView,
    item: ItemView,
    stored_path: Seq<char>,
    finished_at: Seq<char>,
    after: StoreView,
    r: Result<HistoryItem, String>,
    attempt: int,
)
    requires
        replaces(before, item.id, completed_item(item, stored_path, finished_at), after, r),
        r is Ok,
        !is_blank(stored_path),
    ensures
        download_fault(after.data.history, item.id) is None,
        item_of(after.data.history, item.id).stored_path == stored_path,
        !is_awaiting(item_of(after.data.history, item.id)),
        after_question(attempt, r) == PollView::Stop,
{
    changing_an_item_keeps_the_rest(
        before,
        item.id,
        completed_item(item, stored_path, finished_at),
        after,
        r,
    );
    statuses_differ();
}

/// What was marked as failed cannot be downloaded, and no service is asked after it any more.
pub proof fn failed_items_are_settled(
    before: StoreView,
    id: Seq<char>,
    message: Seq<char>,
    after: StoreView,
    r: Result<HistoryItem, String>,
    attempt: int,
)
    requires
        fails(before, id, message, after, r),
        r is Ok,
    ensures
        item_of(after.data.history, id).error == Some(message),
        download_fault(after.data.history, id) == Some("图片尚未生成完成"@),
        !is_awaiting(item_of(after.data.history, id)),
        after_question(attempt, r) == PollView::Stop,
{
    let item = item_of(before.data.history, id);
    let finished_at = choose|finished_at: Seq<char>|
        is_now_text(finished_at) && #[trigger] replaces(
            before,
            id,
            failed_item(item, message, finished_at),
            after,
            r,
        );
    changing_an_item_keeps_the_rest(before, id, failed_item(item, message, finished_at), after, r);
    statuses_differ();
}

/// An item that waits and that the service accepts as a task is one that the service is asked
/// after, and keeps all but its task id and its error.
pub proof fn accepted_items_are_awaited(
    before: StoreView,
    id: Seq<char>,
    task_id: Seq<char>,
    after: StoreView,
    r: Result<HistoryItem, String>,
)
    requires
        replaces(before, id, accepted_item(item_of(before.data.history, id), task_id), after, r),
        r is Ok,
        item_of(before.data.history, id).status == "pending"@,
    ensures
        is_awaiting(item_of(after.data.history, id)),
        awaiting_ids(after.data.history).contains(id),
        item_of(after.data.history, id).task_id == Some(task_id),
        item_of(after.data.history, id).prompt == item_of(before.data.history, id).prompt,
{
    let changed = accepted_item(item_of(before.data.history, id), task_id);
    changing_an_item_keeps_the_rest(before, id, changed, after, r);
    first_item_exists(after.data.history, id);
    awaiting_ids_are_those_of_awaiting_items(after.data.history, id);
}

/// The service is asked after an id exactly if an item with that id waits for it.
pub proof fn awaiting_ids_are_those_of_awaiting_items(h: Seq<ItemView>, id: Seq<char>)
    ensures
        awaiting_ids(h).contains(id) <==> exists|i: int|
            0 <= i < h.len() && is_awaiting(#[trigger] h[i]) && h[i].id == id,
    decreases h.len(),
{
    if h.len() > 0 {
        let t = h.drop_last();
        awaiting_ids_are_those_of_awaiting_items(t, id);
        let ids = awaiting_ids(t);
        if awaiting_ids(h).contains(id) {
            if ids.contains(id) {
                let i = choose|i: int| 0 <= i < t.len() && is_awaiting(#[trigger] t[i]) && t[i].id == id;
                assert(h[i] == t[i]);
            } else {
                let k = choose|k: int| 0 <= k < awaiting_ids(h).len() && awaiting_ids(h)[k] == id;
                if is_awaiting(h.last()) && k < ids.len() {
                    assert(ids[k] == id);
                }
                assert(h[h.len() - 1] == h.last());
            }
        }
        if exists|i: int| 0 <= i < h.len() && is_awaiting(#[trigger] h[i]) && h[i].id == id {
            let i = choose|i: int| 0 <= i < h.len() && is_awaiting(#[trigger] h[i]) && h[i].id == id;
            if i < t.len() {
                assert(t[i] == h[i]);
                let k = choose|k: int| 0 <= k < ids.len() && ids[k] == id;
                assert(awaiting_ids(h)[k] == id);
            } else {
                assert(awaiting_ids(h)[ids.len() as int] == id);
            }
        }
    }
}

}
