//! A question after a task: what to ask, and what to make of the answer.
//!
//! [`query_image_task_inner`] begins. Each step either ends the question or names the next thing
//! that has to be done outside, whose result is handed to the function that goes on from there.

use crate::history::{
    fail_history, fails, find_item, first_item, has_item, item_index, item_of, store_result, unknown_item,
    ResultFile,
};
use crate::http::{service_url, url_below};
use crate::json::{
    extract_image_bytes, extract_status, failure_message, failure_text, image_in, json_read, json_text, lowers_ascii_status,
    not_json, parse_json, state_of, status_in, task_state, ImageSource, ImageSourceView, JsonView, Payload, TaskState,
};
use crate::model::{AppSettings, HistoryItem, ItemView, ProviderConfig, ProviderView, SettingsView};
use crate::store::{AppStore, StoreView};
use crate::text::{joined, same_text, trim, trimmed};
use vstd::prelude::*;

verus! {

/// What a question after a task comes to, or what has to be done next.
#[derive(Debug, PartialEq)]
pub enum QueryStep {
    /// The question ends with this item. Nothing changed.
    Unchanged(HistoryItem),
    /// The question ends with this error. Nothing changed.
    Refused(String),
    /// The state changed and has to be saved; then the question ends with this outcome.
    Changed(Result<HistoryItem, String>),
    /// Ask for `url`, with the key `token`, and go on with [`query_answer`].
    Ask { item: HistoryItem, url: String, token: String },
    /// Download `url`, and go on with [`store_result`].
    Fetch { item: HistoryItem, url: String },
    /// Write the image, and go on with [`crate::history::record_result`].
    Write(ResultFile),
}

/// Whether `i` is the position of the first of `s` that is called `name`.
pub open spec fn first_named(s: Seq<ProviderView>, name: Seq<char>, i: int) -> bool {
    &&& 0 <= i < s.len()
    &&& s[i].name == name
    &&& forall|j: int| 0 <= j < i ==> #[trigger] s[j].name != name
}

/// The service to ask after an item of the service called `name`: the first of that name, else the
/// first of all, else none.
pub open spec fn provider_to_ask(s: SettingsView, name: Seq<char>) -> Option<ProviderView> {
    if exists|i: int| 0 <= i < s.providers.len() && #[trigger] s.providers[i].name == name {
        Some(s.providers[choose|i: int| first_named(s.providers, name, i)])
    } else if s.providers.len() > 0 {
        Some(s.providers[0])
    } else {
        None
    }
}

/// The service to ask after an item of the service called `name`.
pub fn find_provider_to_ask<'a>(settings: &'a AppSettings, name: &str) -> (r: Option<&'a ProviderConfig>)
    ensures
        match r {
            Some(p) => provider_to_ask(settings@, name@) == Some(p@),
            None => provider_to_ask(settings@, name@) is None,
        },
{
    let ghost s = settings@.providers;
    let mut i: usize = 0;
    while i < settings.providers.len()
        invariant
            i <= settings.providers@.len(),
            s == settings@.providers,
            forall|j: int| 0 <= j < i ==> #[trigger] s[j].name != name@,
        decreases settings.providers@.len() - i,
    {
        assert(s[i as int] == settings.providers@[i as int]@);
        if same_text(settings.providers[i].name.as_str(), name) {
            assert(first_named(s, name@, i as int));
            return Some(&settings.providers[i]);
        }
        i = i + 1;
    }
    if settings.providers.len() > 0 {
        assert(s[0] == settings.providers@[0]@);
        Some(&settings.providers[0])
    } else {
        None
    }
}

/// Where to ask `provider` after the task `task_id`.
pub open spec fn task_url(provider: ProviderView, task_id: Seq<char>) -> Seq<char> {
    service_url(provider, "/images/"@ + task_id)
}

/// Whether `step` is how a question after the item `id` begins.
pub open spec fn begins(before: StoreView, id: Seq<char>, after: StoreView, step: QueryStep) -> bool {
    let h = before.data.history;
    let item = item_of(h, id);
    if !has_item(h, id) {
        &&& step matches QueryStep::Refused(e)
        &&& e@ == unknown_item()
        &&& after == before
    } else {
        &&& first_item(h, id, item_index(h, id))
        &&& match provider_to_ask(before.data.settings, item.provider_name) {
            None => {
                &&& step matches QueryStep::Refused(e)
                &&& e@ == "未配置 Provider"@
                &&& after == before
            },
            Some(p) => if item.status != "pending"@ {
                &&& step matches QueryStep::Unchanged(i)
                &&& i@ == item
                &&& after == before
            } else {
                match item.task_id {
                    None => {
                        &&& step matches QueryStep::Changed(r)
                        &&& fails(before, id, "历史记录缺少 task id"@, after, r)
                    },
                    Some(task_id) => {
                        &&& step matches QueryStep::Ask { item: i, url, token }
                        &&& i@ == item
                        &&& url@ == task_url(p, task_id)
                        &&& token@ == trimmed(p.api_key)
                        &&& after == before
                    },
                }
            },
        }
    }
}

/// Begins a question after the item `history_id`.
pub fn query_image_task_inner(store: &mut AppStore, history_id: &str) -> (r: QueryStep)
    ensures
        begins(old(store)@, history_id@, final(store)@, r),
{
    let item = match find_item(&store.data.history, history_id) {
        Some(i) => store.data.history[i].clone(),
        None => {
            return QueryStep::Refused("历史记录不存在".to_string());
        },
    };
    match find_provider_to_ask(&store.data.settings, item.provider_name.as_str()) {
        None => {
            return QueryStep::Refused("未配置 Provider".to_string());
        },
        Some(provider) => {
            if !same_text(item.status.as_str(), "pending") {
                return QueryStep::Unchanged(item);
            }
            if let Some(task_id) = &item.task_id {
                let path = joined("/images/", task_id.as_str());
                let url = url_below(provider.base_url.as_str(), path.as_str());
                let token = trim(provider.api_key.as_str()).to_string();
                return QueryStep::Ask { item, url, token };
            }
        },
    }
    QueryStep::Changed(fail_history(store, history_id, "历史记录缺少 task id".to_string()))
}

/// Whether `step` goes on with `item`, whose task stands as `state`, after the answer with the
/// value `v`, where `compact` is the answer.
pub open spec fn goes_on(
    before: StoreView,
    item: ItemView,
    v: JsonView,
    compact: Seq<char>,
    state: TaskState,
    after: StoreView,
    step: QueryStep,
) -> bool {
    match state {
        TaskState::Failed => {
            &&& step matches QueryStep::Changed(r)
            &&& fails(before, item.id, failure_text(v), after, r)
        },
        TaskState::Running => {
            &&& step matches QueryStep::Unchanged(i)
            &&& i@ == item
            &&& after == before
        },
        TaskState::Completed => {
            &&& after == before
            &&& match image_in(v, compact) {
                Err(e) => step matches QueryStep::Refused(told) && told@ == e,
                Ok(ImageSourceView::Inline(bytes)) => {
                    &&& step matches QueryStep::Write(file)
                    &&& file.is_for(before, item, bytes)
                },
                Ok(ImageSourceView::Remote(address)) => {
                    &&& step matches QueryStep::Fetch { item: i, url }
                    &&& i@ == item
                    &&& url@ == address
                },
            }
        },
    }
}

/// Goes on with `item`, whose task stands as `state`, after the answer `payload`.
pub fn query_state(store: &mut AppStore, item: HistoryItem, payload: &Payload, state: TaskState) -> (r: QueryStep)
    ensures
        goes_on(old(store)@, item@, payload.value@, payload.compact@, state, final(store)@, r),
{
    match state {
        TaskState::Failed => {
            let message = failure_message(&payload.value);
            QueryStep::Changed(fail_history(store, item.id.as_str(), message))
        },
        TaskState::Running => QueryStep::Unchanged(item),
        TaskState::Completed => match extract_image_bytes(payload) {
            Err(e) => QueryStep::Refused(e),
            Ok(ImageSource::Inline(bytes)) => QueryStep::Write(store_result(store, item, bytes)),
            Ok(ImageSource::Remote(url)) => QueryStep::Fetch { item, url },
        },
    }
}

/// Goes on with `item` after the answer `payload`.
pub fn query_payload(store: &mut AppStore, item: HistoryItem, payload: &Payload) -> (r: QueryStep)
    ensures
        goes_on(
            old(store)@,
            item@,
            payload.value@,
            payload.compact@,
            state_of(status_in(payload.value@)),
            final(store)@,
            r,
        ),
        lowers_ascii_status(payload.value@),
{
    let state = task_state(&extract_status(&payload.value));
    query_state(store, item, payload, state)
}

/// Goes on with `item` after the answer `text` from `url`.
pub fn query_answer(store: &mut AppStore, item: HistoryItem, url: &str, text: &str) -> (r: QueryStep)
    ensures
        match json_read(text@) {
            Ok(v) => {
                &&& goes_on(
                    old(store)@,
                    item@,
                    v,
                    json_text(v),
                    state_of(status_in(v)),
                    final(store)@,
                    r,
                )
                &&& lowers_ascii_status(v)
            },
            Err(fault) => {
                &&& r matches QueryStep::Refused(e)
                &&& e@ == not_json(text@, url@, fault)
                &&& final(store)@ == old(store)@
            },
        },
{
    match parse_json(text, url) {
        Ok(payload) => query_payload(store, item, &payload),
        Err(e) => QueryStep::Refused(e),
    }
}

}
