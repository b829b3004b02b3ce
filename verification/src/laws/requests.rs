//! A request, from the moment it is queued until its image can be downloaded.

use crate::download::download_fault;
use crate::history::{
    accepted_item, awaiting_ids, completed_item, completes, failed_item, fails, first_item, has_item, is_awaiting,
    item_index, item_of, replaces, result_path, with_task_id, ResultFile,
};
use crate::json::{failure_text, image_in, ImageSourceView, JsonView, TaskState};
use crate::laws::history::{
    accepted_items_are_awaited, changing_an_item_keeps_the_rest, completed_items_can_be_downloaded, first_item_exists,
    first_item_is_unique,
};
use crate::laws::settings::normalizing_twice_is_normalizing_once;
use crate::model::{text_if_any, HistoryItem, ItemView, SettingsView};
use crate::query::{begins, goes_on, provider_to_ask, task_url, QueryStep};
use crate::store::{is_sound, with_settings, StoreView};
use crate::submit::{follows, SubmitResult, SubmitStep};
use crate::text::{is_blank, trimmed};
use crate::time::is_now_text;
use vstd::prelude::*;

verus! {

/// Whatever becomes of the history, and whatever settings the user asks for, the state stays sound.
pub proof fn sound_states_stay_sound(s: StoreView, history: Seq<ItemView>, settings: SettingsView)
    requires
        is_sound(s),
    ensures
        is_sound(s.with_history(history)),
        is_sound(with_settings(s, settings)),
{
    normalizing_twice_is_normalizing_once(settings);
}

/// A request that a service accepted as a task is asked after: it is among those that the next run
/// asks after, and a question after it goes to the service of its name, under the task's name, and
/// changes nothing by itself.
pub proof fn accepted_requests_are_asked_after(
    before: StoreView,
    id: Seq<char>,
    submit: SubmitResult,
    between: StoreView,
    step: SubmitStep,
    after: StoreView,
    question: QueryStep,
)
    requires
        follows(before, id, Ok(submit), between, step),
        submit.bytes is None,
        submit.task_id is Some,
        has_item(before.data.history, id),
        item_of(before.data.history, id).status == "pending"@,
        before.data.settings.providers.len() > 0,
        begins(between, id, after, question),
    ensures
        awaiting_ids(between.data.history).contains(id),
        ({
            let item = item_of(before.data.history, id);
            let provider = provider_to_ask(before.data.settings, item.provider_name);
            &&& provider matches Some(p)
            &&& question matches QueryStep::Ask { item: asked, url, token }
            &&& asked@.id == id
            &&& url@ == task_url(p, submit.task_id->0@)
            &&& token@ == trimmed(p.api_key)
        }),
        after == between,
{
    first_item_exists(before.data.history, id);
    if let SubmitStep::Accepted(r) = step {
        accepted_items_are_awaited(before, id, submit.task_id->0@, between, r);
        changing_an_item_keeps_the_rest(
            before,
            id,
            accepted_item(item_of(before.data.history, id), submit.task_id->0@),
            between,
            r,
        );
    }
}

/// An image that came with the answer to a question can be downloaded once it was written and
/// recorded, from the path that was recorded.
pub proof fn answered_requests_can_be_downloaded(
    before: StoreView,
    item: ItemView,
    v: JsonView,
    compact: Seq<char>,
    between: StoreView,
    file: ResultFile,
    stored_path: Seq<char>,
    after: StoreView,
    r: Result<HistoryItem, String>,
)
    requires
        goes_on(before, item, v, compact, TaskState::Completed, between, QueryStep::Write(file)),
        has_item(before.data.history, item.id),
        completes(between, file.item@, stored_path, after, r),
        !is_blank(stored_path),
    ensures
        image_in(v, compact) == Ok::<ImageSourceView, Seq<char>>(ImageSourceView::Inline(file.bytes@)),
        r is Ok,
        download_fault(after.data.history, item.id) is None,
        item_of(after.data.history, item.id).stored_path == stored_path,
        item_of(after.data.history, item.id).prompt == item.prompt,
        !is_awaiting(item_of(after.data.history, item.id)),
{
    written_images_can_be_downloaded(between, item, stored_path, after, r);
}

/// An image that the answer to a question gave an address of can be downloaded once it was fetched,
/// written and recorded, from the path that was recorded.
pub proof fn fetched_requests_can_be_downloaded(
    before: StoreView,
    item: ItemView,
    v: JsonView,
    compact: Seq<char>,
    between: StoreView,
    fetched_for: HistoryItem,
    url: String,
    bytes: Seq<u8>,
    file: ResultFile,
    stored_path: Seq<char>,
    after: StoreView,
    r: Result<HistoryItem, String>,
)
    requires
        goes_on(
            before,
            item,
            v,
            compact,
            TaskState::Completed,
            between,
            (QueryStep::Fetch { item: fetched_for, url }),
        ),
        has_item(before.data.history, item.id),
        file.is_for(between, fetched_for@, bytes),
        completes(between, file.item@, stored_path, after, r),
        !is_blank(stored_path),
    ensures
        image_in(v, compact) == Ok::<ImageSourceView, Seq<char>>(ImageSourceView::Remote(url@)),
        file.bytes@ == bytes,
        file.path@ == result_path(before, item),
        r is Ok,
        download_fault(after.data.history, item.id) is None,
        item_of(after.data.history, item.id).stored_path == stored_path,
        item_of(after.data.history, item.id).prompt == item.prompt,
        !is_awaiting(item_of(after.data.history, item.id)),
{
    written_images_can_be_downloaded(between, item, stored_path, after, r);
}

/// An image that a service sent at once can be downloaded once it was written and recorded, from
/// the path that was recorded; and the request keeps the name that the service gave it.
pub proof fn sent_images_can_be_downloaded(
    before: StoreView,
    id: Seq<char>,
    submit: SubmitResult,
    between: StoreView,
    step: SubmitStep,
    stored_path: Seq<char>,
    after: StoreView,
    r: Result<HistoryItem, String>,
)
    requires
        follows(before, id, Ok(submit), between, step),
        submit.bytes is Some,
        has_item(before.data.history, id),
        step matches SubmitStep::Write(file) && completes(between, file.item@, stored_path, after, r),
        !is_blank(stored_path),
    ensures
        step matches SubmitStep::Write(file) && file.bytes@ == submit.bytes->0@,
        r is Ok,
        download_fault(after.data.history, id) is None,
        item_of(after.data.history, id).stored_path == stored_path,
        submit.task_id matches Some(task_id) ==> item_of(after.data.history, id).task_id == Some(task_id@),
{
    first_item_exists(before.data.history, id);
    let item = with_task_id(item_of(before.data.history, id), text_if_any(submit.task_id));
    written_images_can_be_downloaded(between, item, stored_path, after, r);
}

proof fn written_images_can_be_downloaded(
    before: StoreView,
    item: ItemView,
    stored_path: Seq<char>,
    after: StoreView,
    r: Result<HistoryItem, String>,
)
    requires
        has_item(before.data.history, item.id),
        completes(before, item, stored_path, after, r),
        !is_blank(stored_path),
    ensures
        r is Ok,
        download_fault(after.data.history, item.id) is None,
        item_of(after.data.history, item.id).stored_path == stored_path,
        item_of(after.data.history, item.id).prompt == item.prompt,
        item_of(after.data.history, item.id).task_id == item.task_id,
        !is_awaiting(item_of(after.data.history, item.id)),
{
    let finished_at = choose|finished_at: Seq<char>|
        is_now_text(finished_at) && #[trigger] replaces(
            before,
            item.id,
            completed_item(item, stored_path, finished_at),
            after,
            r,
        );
    changing_an_item_keeps_the_rest(
        before,
        item.id,
        completed_item(item, stored_path, finished_at),
        after,
        r,
    );
    completed_items_can_be_downloaded(before, item, stored_path, finished_at, after, r, 0);
}

/// Whether `after` differs from `before` in nothing but the first item with the id `id`: settings
/// and places are the same, and so are the number of the items, their order, their ids, and every
/// other item. Where no item has the id, nothing differs.
pub open spec fn leaves_the_rest(before: StoreView, id: Seq<char>, after: StoreView) -> bool {
    let h = before.data.history;
    let g = after.data.history;
    &&& after == before.with_history(g)
    &&& g.len() == h.len()
    &&& forall|i: int|
        0 <= i < h.len() ==> {
            &&& (#[trigger] g[i]).id == h[i].id
            &&& i != item_index(h, id) ==> g[i] == h[i]
        }
    &&& !has_item(h, id) ==> after == before
}

proof fn replacing_leaves_the_rest(
    before: StoreView,
    id: Seq<char>,
    changed: ItemView,
    after: StoreView,
    r: Result<HistoryItem, String>,
)
    requires
        replaces(before, id, changed, after, r),
        changed.id == id || !has_item(before.data.history, id),
    ensures
        leaves_the_rest(before, id, after),
{
    let h = before.data.history;
    assert(after =~= before.with_history(after.data.history));
    if r is Ok {
        assert(h[item_index(h, id)].id == id);
    }
}

proof fn failing_leaves_the_rest(
    before: StoreView,
    id: Seq<char>,
    message: Seq<char>,
    after: StoreView,
    r: Result<HistoryItem, String>,
)
    requires
        fails(before, id, message, after, r),
    ensures
        leaves_the_rest(before, id, after),
{
    let item = item_of(before.data.history, id);
    let finished_at = choose|finished_at: Seq<char>|
        is_now_text(finished_at) && #[trigger] replaces(
            before,
            id,
            failed_item(item, message, finished_at),
            after,
            r,
        );
    if has_item(before.data.history, id) {
        first_item_exists(before.data.history, id);
    }
    replacing_leaves_the_rest(before, id, failed_item(item, message, finished_at), after, r);
}

proof fn completing_leaves_the_rest(
    before: StoreView,
    item: ItemView,
    stored_path: Seq<char>,
    after: StoreView,
    r: Result<HistoryItem, String>,
)
    requires
        completes(before, item, stored_path, after, r),
    ensures
        leaves_the_rest(before, item.id, after),
{
    let finished_at = choose|finished_at: Seq<char>|
        is_now_text(finished_at) && #[trigger] replaces(
            before,
            item.id,
            completed_item(item, stored_path, finished_at),
            after,
            r,
        );
    replacing_leaves_the_rest(before, item.id, completed_item(item, stored_path, finished_at), after, r);
}

proof fn leaving_nothing_else(s: StoreView, id: Seq<char>)
    ensures
        leaves_the_rest(s, id, s),
{
    assert(s =~= s.with_history(s.data.history));
}

proof fn leaving_the_rest_twice(a: StoreView, id: Seq<char>, b: StoreView, c: StoreView)
    requires
        leaves_the_rest(a, id, b),
        leaves_the_rest(b, id, c),
    ensures
        leaves_the_rest(a, id, c),
{
    let (h, g) = (a.data.history, b.data.history);
    if has_item(h, id) {
        first_item_exists(h, id);
        let k = item_index(h, id);
        assert forall|j: int| 0 <= j < k implies #[trigger] g[j].id != id by {
            assert(h[j].id != id);
        }
        assert(g[k].id == id);
        assert(first_item(g, id, k));
        first_item_is_unique(g, id, k);
    }
    assert(c =~= a.with_history(c.data.history));
    assert forall|i: int| 0 <= i < h.len() implies {
        &&& (#[trigger] c.data.history[i]).id == h[i].id
        &&& i != item_index(h, id) ==> c.data.history[i] == h[i]
    } by {
        assert(g[i].id == h[i].id);
    }
}

/// A whole question leaves everything alone but the item that it is after. Here it begins with
/// `first`; `second` follows on the answer, if the service is asked and the answer can be read; and
/// the image is recorded, if one is written, be it in the answer or fetched.
pub proof fn questions_leave_the_rest_alone(
    before: StoreView,
    id: Seq<char>,
    begun: StoreView,
    first: QueryStep,
    v: JsonView,
    compact: Seq<char>,
    state: TaskState,
    answered: StoreView,
    second: Option<QueryStep>,
    stored_path: Option<Seq<char>>,
    after: StoreView,
    r: Result<HistoryItem, String>,
)
    requires
        begins(before, id, begun, first),
        match second {
            Some(step) => first matches QueryStep::Ask { item, .. } && goes_on(
                begun,
                item@,
                v,
                compact,
                state,
                answered,
                step,
            ),
            None => answered == begun,
        },
        match stored_path {
            Some(path) => {
                ||| second matches Some(QueryStep::Write(file)) && completes(answered, file.item@, path, after, r)
                ||| second matches Some(QueryStep::Fetch { item, .. }) && completes(answered, item@, path, after, r)
            },
            None => after == answered,
        },
    ensures
        leaves_the_rest(before, id, after),
{
    leaving_nothing_else(before, id);
    if let QueryStep::Changed(outcome) = first {
        failing_leaves_the_rest(before, id, "历史记录缺少 task id"@, begun, outcome);
    }
    leaving_nothing_else(begun, id);
    if let Some(QueryStep::Changed(outcome)) = second {
        failing_leaves_the_rest(begun, id, failure_text(v), answered, outcome);
    }
    leaving_the_rest_twice(before, id, begun, answered);
    leaving_nothing_else(answered, id);
    if let Some(path) = stored_path {
        match second {
            Some(QueryStep::Write(file)) => completing_leaves_the_rest(answered, file.item@, path, after, r),
            Some(QueryStep::Fetch { item, .. }) => completing_leaves_the_rest(answered, item@, path, after, r),
            _ => {},
        }
    }
    leaving_the_rest_twice(before, id, answered, after);
}

/// Handing a request over leaves everything alone but its item, whatever came of it, and so does
/// recording the image, if one is written.
pub proof fn submissions_leave_the_rest_alone(
    before: StoreView,
    id: Seq<char>,
    outcome: Result<SubmitResult, String>,
    between: StoreView,
    step: SubmitStep,
    stored_path: Option<Seq<char>>,
    after: StoreView,
    r: Result<HistoryItem, String>,
)
    requires
        follows(before, id, outcome, between, step),
        match stored_path {
            Some(path) => step matches SubmitStep::Write(file) && completes(between, file.item@, path, after, r),
            None => after == between,
        },
    ensures
        leaves_the_rest(before, id, after),
{
    leaving_nothing_else(before, id);
    if has_item(before.data.history, id) {
        first_item_exists(before.data.history, id);
    }
    match step {
        SubmitStep::Failed(failed) => match outcome {
            Err(e) => failing_leaves_the_rest(before, id, e@, between, failed),
            Ok(_) => failing_leaves_the_rest(before, id, "异步提交成功但响应中没有 task id"@, between, failed),
        },
        SubmitStep::Accepted(accepted) => {
            let task_id = outcome->Ok_0.task_id->0@;
            let changed = accepted_item(item_of(before.data.history, id), task_id);
            replacing_leaves_the_rest(before, id, changed, between, accepted);
        },
        SubmitStep::Write(file) => {
            if let Some(path) = stored_path {
                completing_leaves_the_rest(between, file.item@, path, after, r);
            }
        },
        SubmitStep::Lost(_) => {},
    }
}

}
