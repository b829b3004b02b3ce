//! A request for an image: the item that stands for it in the history.

use crate::ids::{is_new_id, new_id};
use crate::model::{texts, HistoryItem, ItemView, ProviderConfig, ProviderView, SettingsView};
use crate::settings::{active_provider, chosen_provider, provider_fault, validate_provider};
use crate::store::AppStore;
use crate::text::{is_blank, trim, trimmed};
use crate::time::{is_now_text, now_rfc3339};
use vstd::prelude::*;

verus! {

/// How many items the history keeps.
pub const HISTORY_LIMIT: usize = 80;

/// An item that has just been queued, and the service that it is for.
#[derive(Debug, PartialEq)]
pub struct Generation {
    pub item: HistoryItem,
    pub provider: ProviderConfig,
}

/// What keeps a request for `prompt` from being queued, if anything.
pub open spec fn generation_fault(settings: SettingsView, prompt: Seq<char>) -> Option<Seq<char>> {
    if is_blank(prompt) {
        Some("提示词为空"@)
    } else {
        match chosen_provider(settings) {
            Some(p) => provider_fault(p),
            None => Some("未配置 Provider"@),
        }
    }
}

/// The item that stands for a request of `prompt`, as it is queued.
pub open spec fn new_item(
    provider: ProviderView,
    prompt: Seq<char>,
    size: Seq<char>,
    reference_paths: Seq<Seq<char>>,
    id: Seq<char>,
    created_at: Seq<char>,
) -> ItemView {
    ItemView {
        id,
        prompt,
        size,
        provider_name: provider.name,
        adapter: provider.adapter,
        reference_paths,
        status: "pending"@,
        task_id: None,
        stored_path: Seq::empty(),
        error: None,
        created_at,
        finished_at: Seq::empty(),
        duration_seconds: None,
    }
}

/// The history `h` with `item` at its front, and without what then exceeds the limit.
pub open spec fn with_front(h: Seq<ItemView>, item: ItemView) -> Seq<ItemView> {
    let all = seq![item] + h;
    if all.len() <= HISTORY_LIMIT {
        all
    } else {
        all.take(HISTORY_LIMIT as int)
    }
}

/// Puts the item that stands for a request of `prompt` at the front of the history.
pub fn queue_item(
    store: &mut AppStore,
    provider: &ProviderConfig,
    prompt: &str,
    size: String,
    reference_paths: Vec<String>,
    id: String,
    created_at: String,
) -> (r: HistoryItem)
    ensures
        r@ == new_item(provider@, prompt@, size@, texts(reference_paths@), id@, created_at@),
        final(store)@ == old(store)@.with_history(with_front(old(store)@.data.history, r@)),
{
    let item = HistoryItem {
        id,
        prompt: prompt.to_string(),
        size,
        provider_name: provider.name.clone(),
        adapter: provider.adapter.clone(),
        reference_paths,
        status: "pending".to_string(),
        task_id: None,
        stored_path: String::new(),
        error: None,
        created_at,
        finished_at: String::new(),
        duration_seconds: None,
    };
    let ghost h = store@.data.history;
    store.data.history.truncate(HISTORY_LIMIT - 1);
    store.data.history.insert(0, item.clone());
    assert(store@.data.history =~= with_front(h, item@));
    item
}

/// Whether `g` is what becomes of a request of `prompt` that is queued as `id` at `created_at`.
pub open spec fn is_queued(
    g: Generation,
    settings: SettingsView,
    prompt: Seq<char>,
    size: Seq<char>,
    reference_paths: Seq<Seq<char>>,
    id: Seq<char>,
    created_at: Seq<char>,
) -> bool {
    &&& chosen_provider(settings) == Some(g.provider@)
    &&& g.item@ == new_item(g.provider@, trimmed(prompt), size, reference_paths, id, created_at)
}

/// Queues a request of `prompt` with the service in use.
///
/// The id that the item gets is new, and its time is now.
pub fn generate_image(
    store: &mut AppStore,
    prompt: &str,
    size: String,
    reference_paths: Vec<String>,
) -> (r: Result<Generation, String>)
    ensures
        match r {
            Ok(g) => {
                let before = old(store)@;
                &&& generation_fault(before.data.settings, prompt@) is None
                &&& exists|id: Seq<char>, created_at: Seq<char>|
                    is_new_id(id, "img_"@) && is_now_text(created_at) && #[trigger] is_queued(
                        g,
                        before.data.settings,
                        prompt@,
                        size@,
                        texts(reference_paths@),
                        id,
                        created_at,
                    )
                &&& final(store)@ == before.with_history(with_front(before.data.history, g.item@))
            },
            Err(e) => {
                &&& generation_fault(old(store)@.data.settings, prompt@) == Some(e@)
                &&& final(store)@ == old(store)@
            },
        },
{
    let wanted = trim(prompt);
    if wanted.is_empty() {
        return Err("提示词为空".to_string());
    }
    let provider = match active_provider(&store.data.settings) {
        Ok(p) => p,
        Err(e) => {
            return Err(e);
        },
    };
    match validate_provider(&provider) {
        Ok(_) => {},
        Err(e) => {
            return Err(e);
        },
    }
    let ghost settings = store@.data.settings;
    let id = new_id("img_");
    let created_at = now_rfc3339();
    let ghost (new_id, now) = (id@, created_at@);
    let item = queue_item(store, &provider, wanted, size, reference_paths, id, created_at);
    let g = Generation { item, provider };
    assert(is_queued(g, settings, prompt@, size@, texts(reference_paths@), new_id, now));
    Ok(g)
}

}
