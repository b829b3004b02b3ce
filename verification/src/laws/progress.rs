//! How a request goes on: what is asked, what follows from an answer, and when asking ends.

use crate::encoding::base64_text;
use crate::http::{query_reply, HttpReply};
use crate::json::{failure_text, json_read, json_text, JsonView};
use crate::laws::answers::{describes_image, says, says_nothing, tells_status, words_differ};
use crate::laws::encoding::base64_is_injective;
use crate::laws::items::{
    failing_is_failing_now, fails_now, is_acceptance, is_changed_at, is_first, is_named_anew, is_result_of, is_unknown,
    items_are_found_by_their_id, reports_unknown_item, results_go_to_their_place,
};
use crate::laws::sending::{bare_addresses_are_below, is_below};
use crate::laws::text::{cut, truncating_is_cutting};
use crate::model::{text_if_any, AppSettings, HistoryItem, ProviderConfig, ProviderView, SettingsView};
use crate::poll::{poll_step, PollStep, POLL_INTERVAL_SECS};
use crate::query::{find_provider_to_ask, provider_to_ask, query_answer, query_image_task_inner, QueryStep};
use crate::store::AppStore;
use crate::submit::{after_submit, SubmitResult, SubmitStep};
use crate::text::{lowered, occurs_at, occurs_in, trimmed};
use vstd::prelude::*;

verus! {

/// Whether the service at `i` is the one to ask after an item of the service called `name`: the first
/// of that name, or the first of all if none has it.
pub open spec fn is_to_be_asked(s: Seq<ProviderView>, name: Seq<char>, i: int) -> bool {
    &&& 0 <= i < s.len()
    &&& {
        ||| s[i].name == name && (forall|j: int| 0 <= j < i ==> (#[trigger] s[j]).name != name)
        ||| i == 0 && (forall|j: int| 0 <= j < s.len() ==> (#[trigger] s[j]).name != name)
    }
}

proof fn first_named_exists(s: Seq<ProviderView>, name: Seq<char>, n: int)
    requires
        0 <= n < s.len(),
        s[n].name == name,
    ensures
        exists|i: int| crate::query::first_named(s, name, i),
    decreases n,
{
    if forall|j: int| 0 <= j < n ==> #[trigger] s[j].name != name {
        assert(crate::query::first_named(s, name, n));
    } else {
        let j = choose|j: int| 0 <= j < n && #[trigger] s[j].name == name;
        first_named_exists(s, name, j);
    }
}

proof fn services_to_ask(s: SettingsView, name: Seq<char>)
    ensures
        forall|i: int| #[trigger] is_to_be_asked(s.providers, name, i) ==> provider_to_ask(s, name) == Some(s.providers[i]),
        s.providers.len() == 0 ==> provider_to_ask(s, name) is None,
        s.providers.len() > 0 ==> exists|i: int| #[trigger] is_to_be_asked(s.providers, name, i),
{
    let p = s.providers;
    if exists|n: int| 0 <= n < p.len() && #[trigger] p[n].name == name {
        let n = choose|n: int| 0 <= n < p.len() && #[trigger] p[n].name == name;
        first_named_exists(p, name, n);
        let k = choose|i: int| crate::query::first_named(p, name, i);
        assert(is_to_be_asked(p, name, k));
        assert forall|i: int| #[trigger] is_to_be_asked(p, name, i) implies i == k by {
            if i == 0 && forall|j: int| 0 <= j < p.len() ==> (#[trigger] p[j]).name != name {
                assert(p[n].name != name);
            }
            if i < k {
                assert(p[i].name != name);
            }
            if k < i {
                assert(p[k].name != name);
            }
        }
    } else if p.len() > 0 {
        assert(is_to_be_asked(p, name, 0));
        assert forall|i: int| #[trigger] is_to_be_asked(p, name, i) implies i == 0 by {
            assert(p[i].name != name);
        }
    }
}

/// The service to ask after an item is the first of the name that the item gives, else the first of
/// all, and there is none only if there is no service.
pub proof fn services_are_asked_by_name<'a>(settings: &'a AppSettings, name: &str, r: Option<&'a ProviderConfig>)
    requires
        call_ensures(find_provider_to_ask, (settings, name), r),
    ensures
        forall|i: int|
            #[trigger] is_to_be_asked(settings@.providers, name@, i) ==> (r matches Some(p) && p@
                == settings@.providers[i]),
        r is None <==> settings@.providers.len() == 0,
{
    services_to_ask(settings@, name@);
}

/// A question after an item that is not there, or with no service, is refused; one after an item that
/// is settled ends with it; one after a pending item that has no task marks it as failed; and one after
/// a pending task goes to `/images/<task id>` of the service that the item names, with its key. Only the
/// marking changes anything.
pub proof fn questions_begin_with_the_item(store: &mut AppStore, id: &str, r: QueryStep)
    requires
        call_ensures(query_image_task_inner, (store, id), r),
    ensures
        is_unknown(old(store)@.data.history, id@) ==> (r matches QueryStep::Refused(e) && e@ == "历史记录不存在"@
            && final(store)@ == old(store)@),
        forall|k: int|
            #[trigger] is_first(old(store)@.data.history, id@, k) && old(store)@.data.settings.providers.len() == 0 ==> (
            r matches QueryStep::Refused(e) && e@ == "未配置 Provider"@ && final(store)@ == old(store)@),
        forall|k: int|
            #[trigger] is_first(old(store)@.data.history, id@, k) && old(store)@.data.settings.providers.len() > 0
                && old(store)@.data.history[k].status != "pending"@ ==> (r matches QueryStep::Unchanged(item) && item@
                == old(store)@.data.history[k] && final(store)@ == old(store)@),
        forall|k: int|
            #[trigger] is_first(old(store)@.data.history, id@, k) && old(store)@.data.settings.providers.len() > 0
                && old(store)@.data.history[k].status == "pending"@ && old(store)@.data.history[k].task_id is None ==> (
            r matches QueryStep::Changed(outcome) && fails_now(
                old(store)@,
                id@,
                "历史记录缺少 task id"@,
                final(store)@,
                outcome,
            )),
        forall|k: int, i: int|
            #[trigger] is_first(old(store)@.data.history, id@, k) && #[trigger] is_to_be_asked(
                old(store)@.data.settings.providers,
                old(store)@.data.history[k].provider_name,
                i,
            ) && old(store)@.data.history[k].status == "pending"@ && old(store)@.data.history[k].task_id is Some ==> (
            r matches QueryStep::Ask { item, url, token } && item@ == old(store)@.data.history[k] && is_below(
                url@,
                old(store)@.data.settings.providers[i].base_url,
                "/images/"@ + old(store)@.data.history[k].task_id->0,
            ) && token@ == trimmed(old(store)@.data.settings.providers[i].api_key) && final(store)@ == old(store)@),
{
    let before = old(store)@;
    let h = before.data.history;
    items_are_found_by_their_id(h, id@);
    if crate::history::has_item(h, id@) {
        let item = crate::history::item_of(h, id@);
        services_to_ask(before.data.settings, item.provider_name);
        if let Some(p) = provider_to_ask(before.data.settings, item.provider_name) {
            if let Some(task_id) = item.task_id {
                bare_addresses_are_below(p.base_url, "/images/"@ + task_id);
            }
        }
    }
    if let QueryStep::Changed(outcome) = r {
        if crate::history::has_item(h, id@) {
            failing_is_failing_now(before, id@, "历史记录缺少 task id"@, final(store)@, outcome);
        }
    }
}

/// Whether `s` is a word for a task that failed.
pub open spec fn is_word_for_failed(s: Seq<char>) -> bool {
    s == "failed"@ || s == "error"@ || s == "canceled"@ || s == "cancelled"@
}

/// Whether `s` is a word for a task that is done.
pub open spec fn is_word_for_done(s: Seq<char>) -> bool {
    s == "completed"@ || s == "succeeded"@ || s == "succeed"@ || s == "success"@ || s == "finished"@ || s == "done"@
}

/// Whether the status of the answer `v` is, in lower case, `word`.
pub open spec fn has_status(v: JsonView, word: Seq<char>) -> bool {
    exists|s: Seq<char>| #[trigger] tells_status(v, JsonView::Text(s)) && lowered(s) == word
}

proof fn statuses_are_told(v: JsonView)
    ensures
        forall|word: Seq<char>| #[trigger] has_status(v, word) <==> crate::json::status_in(v) == Some(word),
{
    assert forall|word: Seq<char>| #[trigger] has_status(v, word) <==> crate::json::status_in(v) == Some(word) by {
        if has_status(v, word) {
            let s = choose|s: Seq<char>| #[trigger] tells_status(v, JsonView::Text(s)) && lowered(s) == word;
            assert(crate::json::status_text(v) == Some(s));
        }
        if crate::json::status_in(v) == Some(word) {
            let s = crate::json::status_text(v)->0;
            assert(tells_status(v, JsonView::Text(s)));
        }
    }
}

/// An answer that tells of a failure marks the item as failed, with what it says; one that tells of
/// nothing, or of anything else, leaves the item as it is; one that tells that the task is done leads to
/// its image: to write it, to fetch it from its address, or to the report that there is none. An answer
/// that cannot be read is reported. Only the marking changes anything.
pub proof fn answers_settle_the_item(
    store: &mut AppStore,
    item: HistoryItem,
    url: &str,
    text: &str,
    v: JsonView,
    part: JsonView,
    r: QueryStep,
)
    requires
        call_ensures(query_answer, (store, item, url, text), r),
        json_read(text@) == Ok::<JsonView, Seq<char>>(v),
        describes_image(v, part),
    ensures
        forall|word: Seq<char>|
            #[trigger] has_status(v, word) && is_word_for_failed(word) ==> (r matches QueryStep::Changed(outcome)
                && fails_now(old(store)@, item.id@, failure_text(v), final(store)@, outcome)),
        (forall|word: Seq<char>| #[trigger] has_status(v, word) ==> !is_word_for_failed(word) && !is_word_for_done(word))
            ==> (r matches QueryStep::Unchanged(i) && i@ == item@ && final(store)@ == old(store)@),
        forall|word: Seq<char>, bytes: Seq<u8>|
            #[trigger] has_status(v, word) && is_word_for_done(word) && says(
                part,
                "b64_json"@,
                #[trigger] base64_text(bytes),
            ) ==> (r matches QueryStep::Write(file) && is_result_of(file, old(store)@.data_dir, item@, bytes)
                && final(store)@ == old(store)@),
        forall|word: Seq<char>, s: Seq<char>|
            #[trigger] has_status(v, word) && is_word_for_done(word) && #[trigger] says(part, "b64_json"@, s) && (
            forall|bytes: Seq<u8>| #[trigger] base64_text(bytes) != s) ==> (r matches QueryStep::Refused(e) && e@
                == "base64 解码失败："@ + crate::encoding::base64_fault(s) && final(store)@ == old(store)@),
        forall|word: Seq<char>, u: Seq<char>|
            #[trigger] has_status(v, word) && is_word_for_done(word) && says_nothing(part, "b64_json"@) && #[trigger] says(
                part,
                "url"@,
                u,
            ) ==> (r matches QueryStep::Fetch { item: i, url: a } && i@ == item@ && a@ == u && final(store)@
                == old(store)@),
        forall|word: Seq<char>, u: Seq<char>|
            #[trigger] has_status(v, word) && is_word_for_done(word) && says_nothing(part, "b64_json"@) && part.member(
                "url"@,
            ) is None && #[trigger] says(v, "url"@, u) ==> (r matches QueryStep::Fetch { item: i, url: a } && i@ == item@
                && a@ == u && final(store)@ == old(store)@),
        forall|word: Seq<char>|
            #[trigger] has_status(v, word) && is_word_for_done(word) && says_nothing(part, "b64_json"@) && says_nothing(
                part,
                "url"@,
            ) && (part.member("url"@) is Some || says_nothing(v, "url"@)) ==> (r matches QueryStep::Refused(e) && e@
                == "响应中未找到图片数据："@ + cut(json_text(v), 300) && final(store)@ == old(store)@),
{
    let before = old(store)@;
    words_differ();
    statuses_are_told(v);
    truncating_is_cutting(json_text(v), 300);
    if let Some(JsonView::Text(s)) = part.member("b64_json"@) {
        assert(says(part, "b64_json"@, s));
    }
    if let Some(JsonView::Text(s)) = part.member("url"@) {
        assert(says(part, "url"@, s));
    }
    if let Some(JsonView::Text(s)) = v.member("url"@) {
        assert(says(v, "url"@, s));
    }
    assert(crate::json::image_part(v) == part);
    if let Some(word) = crate::json::status_in(v) {
        assert(has_status(v, word));
    }
    assert forall|word: Seq<char>| #[trigger] has_status(v, word) implies crate::json::status_in(v) == Some(word) by {}
    if let QueryStep::Changed(outcome) = r {
        failing_is_failing_now(before, item@.id, failure_text(v), final(store)@, outcome);
    }
    assert forall|word: Seq<char>, bytes: Seq<u8>|
        #[trigger] has_status(v, word) && is_word_for_done(word) && says(
            part,
            "b64_json"@,
            #[trigger] base64_text(bytes),
        ) implies (r matches QueryStep::Write(file) && is_result_of(file, before.data_dir, item@, bytes) && final(store)@
        == before) by {
        let s = base64_text(bytes);
        let read = choose|b: Seq<u8>| base64_text(b) == s;
        base64_is_injective(read, bytes);
        results_go_to_their_place(before, item@, bytes);
    }
}

/// What an answer says of a failure goes by its members.
pub proof fn failures_go_by_member(v: JsonView)
    ensures
        forall|s: Seq<char>| #[trigger] says(v, "error"@, s) ==> failure_text(v) == s,
        forall|s: Seq<char>| v.member("error"@) is None && #[trigger] says(v, "message"@, s) ==> failure_text(v) == s,
        v.member("error"@) matches Some(x) && !(x is Text) ==> failure_text(v) == "生成失败"@,
        v.member("error"@) is None && says_nothing(v, "message"@) ==> failure_text(v) == "生成失败"@,
{
    if let Some(JsonView::Text(s)) = v.member("message"@) {
        assert(says(v, "message"@, s));
    }
}

/// An answer that cannot be read is reported, and changes nothing.
pub proof fn unreadable_answers_change_nothing(
    store: &mut AppStore,
    item: HistoryItem,
    url: &str,
    text: &str,
    fault: Seq<char>,
    r: QueryStep,
)
    requires
        call_ensures(query_answer, (store, item, url, text), r),
        json_read(text@) == Err::<JsonView, Seq<char>>(fault),
    ensures
        r matches QueryStep::Refused(e) && e@ == url@ + " 返回非 JSON："@ + fault + "；"@ + cut(text@, 300),
        final(store)@ == old(store)@,
{
    truncating_is_cutting(text@, 300);
}

/// What follows once a request was handed over: on a failure the item is marked with it; with an image
/// the image is to be written, and the item keeps the service's name for it; with a name alone the item
/// is accepted under it; with neither it is marked as failed. Writing alone changes nothing, and what is
/// not in the history is reported.
pub proof fn submissions_settle_or_accept(
    store: &mut AppStore,
    id: &str,
    outcome: Result<SubmitResult, String>,
    r: SubmitStep,
)
    requires
        call_ensures(after_submit, (store, id, outcome), r),
    ensures
        outcome matches Err(e) ==> (r matches SubmitStep::Failed(failed) && fails_now(
            old(store)@,
            id@,
            e@,
            final(store)@,
            failed,
        )),
        outcome matches Ok(submit) ==> submit.bytes is None && submit.task_id is None ==> (r matches SubmitStep::Failed(
            failed,
        ) && fails_now(old(store)@, id@, "异步提交成功但响应中没有 task id"@, final(store)@, failed)),
        outcome matches Ok(submit) ==> submit.bytes is Some ==> final(store)@ == old(store)@ && (is_unknown(
            old(store)@.data.history,
            id@,
        ) ==> (r matches SubmitStep::Lost(e) && e@ == "历史记录不存在"@)) && (forall|k: int|
            #[trigger] is_first(old(store)@.data.history, id@, k) ==> (r matches SubmitStep::Write(file) && is_named_anew(
                old(store)@.data.history[k],
                file.item@,
                text_if_any(submit.task_id),
            ) && is_result_of(file, old(store)@.data_dir, file.item@, submit.bytes->0@))),
        outcome matches Ok(submit) ==> submit.bytes is None && submit.task_id is Some ==> (r matches SubmitStep::Accepted(
            accepted,
        ) && (is_unknown(old(store)@.data.history, id@) ==> reports_unknown_item(accepted) && final(store)@
            == old(store)@) && (forall|k: int|
            #[trigger] is_first(old(store)@.data.history, id@, k) ==> (accepted matches Ok(item) && is_acceptance(
                old(store)@.data.history[k],
                item@,
                submit.task_id->0@,
            ) && is_changed_at(old(store)@, final(store)@, k, item@)))),
{
    let before = old(store)@;
    items_are_found_by_their_id(before.data.history, id@);
    match r {
        SubmitStep::Failed(failed) => match outcome {
            Err(e) => failing_is_failing_now(before, id@, e@, final(store)@, failed),
            Ok(_) => failing_is_failing_now(
                before,
                id@,
                "异步提交成功但响应中没有 task id"@,
                final(store)@,
                failed,
            ),
        },
        SubmitStep::Write(file) => {
            results_go_to_their_place(before, file.item@, file.bytes@);
        },
        _ => {},
    }
}

/// Whether `e` holds the text `x`, with something before and something behind it.
pub open spec fn holds_text(e: Seq<char>, x: Seq<char>) -> bool {
    exists|a: Seq<char>, b: Seq<char>| e == #[trigger] (a + x + b)
}

pub(crate) proof fn occurring_is_being_held(x: Seq<char>, e: Seq<char>)
    ensures
        occurs_in(x, e) <==> holds_text(e, x),
{
    if occurs_in(x, e) {
        let i = choose|i: int| occurs_at(x, e, i);
        let (a, b) = (e.take(i), e.skip(i + x.len()));
        assert(a + x + b =~= e) by {
            assert forall|k: int| 0 <= k < x.len() implies e[i + k] == x[k] by {
                assert(e.subrange(i, i + x.len())[k] == x[k]);
            }
        }
    }
    if holds_text(e, x) {
        let (a, b) = choose|a: Seq<char>, b: Seq<char>| e == #[trigger] (a + x + b);
        assert(e.subrange(a.len() as int, a.len() as int + x.len()) =~= x);
        assert(occurs_at(x, e, a.len() as int));
    }
}

/// Whether `e` tells that the item is gone or lacks a task id, so that asking again is of no use.
pub open spec fn is_of_no_use_to_ask(e: Seq<char>) -> bool {
    holds_text(e, "缺少 task id"@) || holds_text(e, "历史记录不存在"@)
}

/// A service is asked every three seconds, up to 120 times. A settled item ends the questions. Before
/// the last question a pending item is asked after again, and so it is after any error but one that
/// tells that the item is gone or lacks a task id: that one marks it as failed at once. After the last
/// question a pending item is left alone, and an error marks it as failed as timed out.
pub proof fn questions_go_on_until_settled(attempt: usize, outcome: Result<HistoryItem, String>, r: PollStep)
    requires
        call_ensures(poll_step, (attempt, outcome), r),
    ensures
        POLL_INTERVAL_SECS == 3,
        crate::poll::POLL_MAX_ATTEMPTS == 120,
        outcome matches Ok(item) ==> item.status@ != "pending"@ ==> r is Stop,
        outcome matches Ok(item) ==> item.status@ == "pending"@ && attempt + 1 < 120 ==> r is Again,
        outcome matches Ok(item) ==> item.status@ == "pending"@ && attempt + 1 >= 120 ==> r is Stop,
        outcome matches Err(e) ==> is_of_no_use_to_ask(e@) ==> (r matches PollStep::Fail(m) && m@ == e@),
        outcome matches Err(e) ==> !is_of_no_use_to_ask(e@) && attempt + 1 < 120 ==> r is Again,
        outcome matches Err(e) ==> !is_of_no_use_to_ask(e@) && attempt + 1 >= 120 ==> (r matches PollStep::Fail(m) && m@
            == "轮询超时："@ + e@),
{
    if let Err(e) = outcome {
        occurring_is_being_held("缺少 task id"@, e@);
        occurring_is_being_held("历史记录不存在"@, e@);
    }
}

/// A report of a reply holds `x` only where the status or the body does, if `x` begins with no
/// character of the heading and holds neither the colon behind the status nor a full stop.
proof fn reports_hold_what_replies_hold(heading: Seq<char>, status: Seq<char>, body: Seq<char>, x: Seq<char>)
    requires
        x.len() > 0,
        forall|i: int| 0 <= i < heading.len() ==> #[trigger] heading[i] != x[0],
        forall|i: int| 0 <= i < x.len() ==> #[trigger] x[i] != '：' && x[i] != '.',
        !holds_text(status, x),
        !holds_text(body, x),
    ensures
        !holds_text(heading + status + seq!['：'] + cut(body, 500), x),
{
    let e = heading + status + seq!['：'] + cut(body, 500);
    occurring_is_being_held(x, e);
    occurring_is_being_held(x, status);
    occurring_is_being_held(x, body);
    if occurs_in(x, e) {
        let i = choose|i: int| occurs_at(x, e, i);
        let n = x.len() as int;
        let (a, b) = (heading.len() as int, (heading.len() + status.len()) as int);
        assert forall|k: int| 0 <= k < n implies e[i + k] == x[k] by {
            assert(e.subrange(i, i + n)[k] == x[k]);
        }
        assert(e[i] == x[0]);
        if i < a {
            assert(e[i] == heading[i]);
        } else if i + n <= b {
            assert(status.subrange(i - a, i - a + n) =~= x) by {
                assert forall|k: int| 0 <= k < n implies status[i - a + k] == x[k] by {
                    assert(e[i + k] == status[i - a + k]);
                }
            }
            assert(occurs_at(x, status, i - a));
        } else if i <= b {
            assert(e[b] == '：');
            assert(x[b - i] == '：');
        } else {
            let at = i - b - 1;
            let part = cut(body, 500);
            assert forall|k: int| 0 <= k < n implies part[at + k] == x[k] by {
                assert(e[i + k] == part[at + k]);
            }
            if body.len() > 500 && at + n > 500 {
                let k = if at >= 500 {
                    0
                } else {
                    500 - at
                };
                assert(part[at + k] == '.');
                assert(x[k] == '.');
            } else {
                assert(body.subrange(at, at + n) =~= x) by {
                    assert forall|k: int| 0 <= k < n implies body[at + k] == x[k] by {
                        assert(part[at + k] == body[at + k]);
                    }
                }
                assert(occurs_at(x, body, at));
            }
        }
    }
}

/// A service that answers a question with an error is asked again, up to the last question, unless its
/// status or its body tells that the item is gone or lacks a task id.
pub proof fn errors_of_the_service_are_survived(reply: HttpReply, e: String, attempt: usize, r: PollStep)
    requires
        call_ensures(query_reply, (reply,), Err(e)),
        call_ensures(poll_step, (attempt, Err(e)), r),
        attempt + 1 < 120,
        !is_of_no_use_to_ask(reply.status@),
        !is_of_no_use_to_ask(reply.body@),
    ensures
        r is Again,
{
    let heading = "查询任务失败"@ + " HTTP "@;
    reveal_strlit("查询任务失败");
    reveal_strlit(" HTTP ");
    reveal_strlit("：");
    reveal_strlit("缺少 task id");
    reveal_strlit("历史记录不存在");
    assert(heading =~= seq!['查', '询', '任', '务', '失', '败', ' ', 'H', 'T', 'T', 'P', ' ']);
    assert("缺少 task id"@ =~= seq!['缺', '少', ' ', 't', 'a', 's', 'k', ' ', 'i', 'd']);
    assert("历史记录不存在"@ =~= seq!['历', '史', '记', '录', '不', '存', '在']);
    assert("："@ =~= seq!['：']);
    truncating_is_cutting(reply.body@, 500);
    reports_hold_what_replies_hold(heading, reply.status@, reply.body@, "缺少 task id"@);
    reports_hold_what_replies_hold(heading, reply.status@, reply.body@, "历史记录不存在"@);
    assert(e@ == heading + reply.status@ + "："@ + cut(reply.body@, 500));
    questions_go_on_until_settled(attempt, Err(e), r);
}

}
