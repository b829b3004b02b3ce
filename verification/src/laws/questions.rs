//! Questions after tasks, requests, and time.

use crate::history::{completed_item, failed_item, has_item, item_of};
use crate::json::{field, task_id_in, JsonView};
use crate::model::{HistoryItem, ItemView, ProviderView};
use crate::poll::{after_question, PollView, POLL_MAX_ATTEMPTS};
use crate::query::{begins, QueryStep};
use crate::store::StoreView;
use crate::submit::{are_distinct, field_json, fields_json, is_object_of, request_fields, FieldView};
use crate::text::occurs_at;
use crate::time::{
    elapsed, elapsed_between, has_signed_year, is_now_text, nanos_between, rfc3339_stamp, seconds_between, Stamp,
};
use vstd::prelude::*;

verus! {

/// A service is asked after a task a limited number of times.
pub proof fn polling_ends(attempt: int, outcome: Result<HistoryItem, String>)
    requires
        after_question(attempt, outcome) == PollView::Again,
    ensures
        attempt + 1 < POLL_MAX_ATTEMPTS,
{
}

/// A question after an item that is not there is not asked again.
pub proof fn unknown_items_are_given_up(
    before: StoreView,
    id: Seq<char>,
    after: StoreView,
    step: QueryStep,
    attempt: int,
)
    requires
        begins(before, id, after, step),
        !has_item(before.data.history, id),
    ensures
        step matches QueryStep::Refused(e) && after_question(attempt, Err(e)) == PollView::Fail(e@),
        after == before,
{
    if let QueryStep::Refused(e) = step {
        let message = "历史记录不存在"@;
        assert(e@.subrange(0, message.len() as int) =~= message);
        assert(occurs_at(message, e@, 0));
    }
}

/// A question after an item that is settled, or that runs at a service, changes nothing by itself.
pub proof fn questions_begin_without_change(
    before: StoreView,
    id: Seq<char>,
    after: StoreView,
    step: QueryStep,
)
    requires
        begins(before, id, after, step),
        has_item(before.data.history, id),
        item_of(before.data.history, id).status != "pending"@ || item_of(before.data.history, id).task_id is Some,
    ensures
        after == before,
{
}

/// A task id that is found in an answer is not empty.
pub proof fn task_ids_are_not_empty(v: JsonView)
    ensures
        task_id_in(v) matches Some(id) ==> id.len() > 0,
{
}

/// No two fields of a request have the same name.
pub proof fn request_fields_are_distinct(
    provider: ProviderView,
    prompt: Seq<char>,
    size: Seq<char>,
    refs: Seq<Seq<char>>,
    async_mode: bool,
)
    ensures
        are_distinct(request_fields(provider, prompt, size, refs, async_mode)),
{
    reveal_strlit("model");
    reveal_strlit("prompt");
    reveal_strlit("n");
    reveal_strlit("size");
    reveal_strlit("response_format");
    reveal_strlit("async");
    reveal_strlit("image");
    reveal_strlit("images");
    assert("model"@[0] == 'm' && "async"@[0] == 'a' && "image"@[0] == 'i' && "size"@[0] == 's');
    assert("model"@.len() == 5 && "prompt"@.len() == 6 && "n"@.len() == 1 && "size"@.len() == 4);
    assert("response_format"@.len() == 15 && "async"@.len() == 5 && "image"@.len() == 5 && "images"@.len() == 6);
    assert("prompt"@[0] == 'p' && "images"@[0] == 'i');
}

proof fn fields_are_found_among_all(fields: Seq<(Seq<char>, JsonView)>, key: Seq<char>, k: int)
    requires
        0 <= k < fields.len(),
        fields[k].0 == key,
    ensures
        exists|i: int| 0 <= i < fields.len() && (#[trigger] fields[i]).0 == key && field(fields, key) == Some(fields[i].1),
    decreases fields.len(),
{
    if fields[0].0 == key {
        assert(field(fields, key) == Some(fields[0].1));
    } else {
        let rest = fields.drop_first();
        fields_are_found_among_all(rest, key, k - 1);
        let i = choose|i: int| 0 <= i < rest.len() && (#[trigger] rest[i]).0 == key && field(rest, key) == Some(rest[i].1);
        assert(fields[i + 1] == rest[i]);
    }
}

/// An object that was made of fields has each of them under its name, in whatever order it holds
/// them.
pub proof fn objects_have_their_fields(v: JsonView, fields: Seq<(Seq<char>, FieldView)>, i: int)
    requires
        is_object_of(v, fields),
        are_distinct(fields),
        0 <= i < fields.len(),
    ensures
        v.member(fields[i].0) == Some(field_json(fields[i].1)),
{
    let all = fields_json(fields);
    let held = v->Object_0;
    let key = fields[i].0;
    all.to_multiset_ensures();
    held.to_multiset_ensures();
    assert(all[i] == (key, field_json(fields[i].1)));
    assert(all.contains(all[i]));
    assert(held.to_multiset().count(all[i]) > 0);
    assert(held.contains(all[i]));
    let k = choose|k: int| 0 <= k < held.len() && held[k] == all[i];
    fields_are_found_among_all(held, key, k);
    let n = choose|n: int| 0 <= n < held.len() && (#[trigger] held[n]).0 == key && field(held, key) == Some(held[n].1);
    assert(held.contains(held[n]));
    assert(all.to_multiset().count(held[n]) > 0);
    assert(all.contains(held[n]));
    let j = choose|j: int| 0 <= j < all.len() && all[j] == held[n];
    assert(fields[j].0 == key);
}

/// No time passes between a point in time and itself, and of two points in time at most one comes
/// after the other.
pub proof fn time_runs_one_way(start: Stamp, finish: Stamp)
    ensures
        nanos_between(start, start) == 0,
        nanos_between(finish, start) == -nanos_between(start, finish),
        elapsed_between(Some(start), Some(start)) == 0,
        elapsed_between(Some(start), Some(finish)) > 0 ==> elapsed_between(Some(finish), Some(start)) == 0,
{
    let d = finish.day - start.day;
    assert((start.day - finish.day) * 86_400 == -(d * 86_400));
}

/// An item that is finished when it was created took no time.
pub proof fn no_time_passes_at_once(at: Seq<char>)
    ensures
        elapsed(at, at) == 0,
{
    if let Some(s) = rfc3339_stamp(at) {
        time_runs_one_way(s, s);
    }
}

/// The times that are written down can be read back, as long as the years have four digits: the
/// duration of an item that was created and finished then is the time between the two, in whole
/// seconds, and 0 if the clock was set back.
pub proof fn durations_are_measured(item: ItemView, message: Seq<char>, stored_path: Seq<char>, finished_at: Seq<char>)
    requires
        is_now_text(item.created_at),
        is_now_text(finished_at),
        !has_signed_year(item.created_at),
        !has_signed_year(finished_at),
    ensures
        ({
            let start = rfc3339_stamp(item.created_at);
            let finish = rfc3339_stamp(finished_at);
            &&& start matches Some(s)
            &&& finish matches Some(f)
            &&& elapsed(item.created_at, finished_at) == (match seconds_between(s, f) {
                Some(n) => n,
                None => 0,
            })
            &&& failed_item(item, message, finished_at).duration_seconds == Some(elapsed(item.created_at, finished_at))
            &&& completed_item(item, stored_path, finished_at).duration_seconds == Some(
                elapsed(item.created_at, finished_at),
            )
        }),
{
}

}
