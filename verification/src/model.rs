//! The records that the application keeps, and what they hold as mathematical values.

use vstd::prelude::*;

verus! {

/// The texts that a list of strings holds.
pub open spec fn texts(v: Seq<String>) -> Seq<Seq<char>> {
    v.map_values(|s: String| s@)
}

/// The text that an optional string holds, if any.
pub open spec fn text_if_any(s: Option<String>) -> Option<Seq<char>> {
    match s {
        Some(t) => Some(t@),
        None => None,
    }
}

/// Copies a list of strings.
pub fn copy_texts(v: &Vec<String>) -> (r: Vec<String>)
    ensures
        texts(r@) == texts(v@),
        r@.len() == v@.len(),
{
    let r = v.clone();
    assert(texts(r@) =~= texts(v@));
    r
}

/// Copies an optional string.
pub fn copy_text_if_any(s: &Option<String>) -> (r: Option<String>)
    ensures
        text_if_any(r) == text_if_any(*s),
{
    match s {
        Some(t) => Some(t.clone()),
        None => None,
    }
}

/// An image service and how to reach it.
#[derive(Debug, PartialEq)]
pub struct ProviderConfig {
    pub id: String,
    pub name: String,
    pub base_url: String,
    pub api_key: String,
    pub model: String,
    pub adapter: String,
}

/// What a [`ProviderConfig`] holds.
#[verifier::ext_equal]
pub struct ProviderView {
    pub id: Seq<char>,
    pub name: Seq<char>,
    pub base_url: Seq<char>,
    pub api_key: Seq<char>,
    pub model: Seq<char>,
    pub adapter: Seq<char>,
}

impl View for ProviderConfig {
    type V = ProviderView;

    open spec fn view(&self) -> ProviderView {
        ProviderView {
            id: self.id@,
            name: self.name@,
            base_url: self.base_url@,
            api_key: self.api_key@,
            model: self.model@,
            adapter: self.adapter@,
        }
    }
}

impl Clone for ProviderConfig {
    fn clone(&self) -> (r: Self)
        ensures
            r@ == self@,
    {
        ProviderConfig {
            id: self.id.clone(),
            name: self.name.clone(),
            base_url: self.base_url.clone(),
            api_key: self.api_key.clone(),
            model: self.model.clone(),
            adapter: self.adapter.clone(),
        }
    }
}

/// The configured services and the id of the one in use.
#[derive(Debug, PartialEq)]
pub struct AppSettings {
    pub providers: Vec<ProviderConfig>,
    pub active_provider_id: String,
}

/// What [`AppSettings`] hold.
#[verifier::ext_equal]
pub struct SettingsView {
    pub providers: Seq<ProviderView>,
    pub active_provider_id: Seq<char>,
}

/// What a list of services holds.
pub open spec fn providers_view(v: Seq<ProviderConfig>) -> Seq<ProviderView> {
    v.map_values(|p: ProviderConfig| p@)
}

impl View for AppSettings {
    type V = SettingsView;

    open spec fn view(&self) -> SettingsView {
        SettingsView {
            providers: providers_view(self.providers@),
            active_provider_id: self.active_provider_id@,
        }
    }
}

impl Clone for AppSettings {
    fn clone(&self) -> (r: Self)
        ensures
            r@ == self@,
    {
        let r = AppSettings {
            providers: self.providers.clone(),
            active_provider_id: self.active_provider_id.clone(),
        };
        assert(r@.providers =~= self@.providers);
        r
    }
}

/// One generation, from its request to its result.
#[derive(Debug, PartialEq)]
pub struct HistoryItem {
    pub id: String,
    pub prompt: String,
    pub size: String,
    pub provider_name: String,
    pub adapter: String,
    pub reference_paths: Vec<String>,
    pub status: String,
    pub task_id: Option<String>,
    pub stored_path: String,
    pub error: Option<String>,
    pub created_at: String,
    pub finished_at: String,
    pub duration_seconds: Option<u64>,
}

/// What a [`HistoryItem`] holds.
#[verifier::ext_equal]
pub struct ItemView {
    pub id: Seq<char>,
    pub prompt: Seq<char>,
    pub size: Seq<char>,
    pub provider_name: Seq<char>,
    pub adapter: Seq<char>,
    pub reference_paths: Seq<Seq<char>>,
    pub status: Seq<char>,
    pub task_id: Option<Seq<char>>,
    pub stored_path: Seq<char>,
    pub error: Option<Seq<char>>,
    pub created_at: Seq<char>,
    pub finished_at: Seq<char>,
    pub duration_seconds: Option<u64>,
}

impl View for HistoryItem {
    type V = ItemView;

    open spec fn view(&self) -> ItemView {
        ItemView {
            id: self.id@,
            prompt: self.prompt@,
            size: self.size@,
            provider_name: self.provider_name@,
            adapter: self.adapter@,
            reference_paths: texts(self.reference_paths@),
            status: self.status@,
            task_id: text_if_any(self.task_id),
            stored_path: self.stored_path@,
            error: text_if_any(self.error),
            created_at: self.created_at@,
            finished_at: self.finished_at@,
            duration_seconds: self.duration_seconds,
        }
    }
}

impl Clone for HistoryItem {
    fn clone(&self) -> (r: Self)
        ensures
            r@ == self@,
    {
        HistoryItem {
            id: self.id.clone(),
            prompt: self.prompt.clone(),
            size: self.size.clone(),
            provider_name: self.provider_name.clone(),
            adapter: self.adapter.clone(),
            reference_paths: copy_texts(&self.reference_paths),
            status: self.status.clone(),
            task_id: copy_text_if_any(&self.task_id),
            stored_path: self.stored_path.clone(),
            error: copy_text_if_any(&self.error),
            created_at: self.created_at.clone(),
            finished_at: self.finished_at.clone(),
            duration_seconds: self.duration_seconds,
        }
    }
}

/// Everything that outlives a run of the application.
#[derive(Debug, PartialEq)]
pub struct AppData {
    pub settings: AppSettings,
    pub history: Vec<HistoryItem>,
}

/// What [`AppData`] hold.
#[verifier::ext_equal]
pub struct DataView {
    pub settings: SettingsView,
    pub history: Seq<ItemView>,
}

/// What a history holds.
pub open spec fn history_view(v: Seq<HistoryItem>) -> Seq<ItemView> {
    v.map_values(|h: HistoryItem| h@)
}

impl View for AppData {
    type V = DataView;

    open spec fn view(&self) -> DataView {
        DataView { settings: self.settings@, history: history_view(self.history@) }
    }
}

impl Clone for AppData {
    fn clone(&self) -> (r: Self)
        ensures
            r@ == self@,
    {
        let r = AppData { settings: self.settings.clone(), history: self.history.clone() };
        assert(r@.history =~= self@.history);
        r
    }
}

/// An image that the user hands over as a reference.
#[derive(Debug, PartialEq)]
pub struct ImageInput {
    pub file_name: String,
    pub mime: String,
    pub bytes: Vec<u8>,
}

/// A reference image that has been stored.
#[derive(Debug, PartialEq)]
pub struct ReferenceImage {
    pub id: String,
    pub name: String,
    pub mime: String,
    pub size_bytes: u64,
    pub stored_path: String,
    pub created_at: String,
}

/// What a [`ReferenceImage`] holds.
#[verifier::ext_equal]
pub struct ReferenceView {
    pub id: Seq<char>,
    pub name: Seq<char>,
    pub mime: Seq<char>,
    pub size_bytes: u64,
    pub stored_path: Seq<char>,
    pub created_at: Seq<char>,
}

impl View for ReferenceImage {
    type V = ReferenceView;

    open spec fn view(&self) -> ReferenceView {
        ReferenceView {
            id: self.id@,
            name: self.name@,
            mime: self.mime@,
            size_bytes: self.size_bytes,
            stored_path: self.stored_path@,
            created_at: self.created_at@,
        }
    }
}

}
