//! The state of the application, and what the user's requests make of it.

use crate::laws::settings::normalizing_twice_is_normalizing_once;
use crate::model::{AppData, AppSettings, DataView, ItemView, SettingsView};
use crate::paths::{BaseDir, FilePath, PathView};
use crate::settings::{default_data, default_settings, is_normal, normal_settings, normalize_settings};
use crate::text::joined;
use vstd::prelude::*;

verus! {

/// The data, and where they are kept.
#[derive(Debug, PartialEq)]
pub struct AppStore {
    pub data: AppData,
    pub state_path: FilePath,
    pub data_dir: FilePath,
}

/// What an [`AppStore`] holds.
#[verifier::ext_equal]
pub struct StoreView {
    pub data: DataView,
    pub state_path: PathView,
    pub data_dir: PathView,
}

impl StoreView {
    /// `self` with another history.
    pub open spec fn with_history(self, history: Seq<ItemView>) -> StoreView {
        StoreView { data: DataView { history, ..self.data }, ..self }
    }
}

impl View for AppStore {
    type V = StoreView;

    open spec fn view(&self) -> StoreView {
        StoreView { data: self.data@, state_path: self.state_path@, data_dir: self.data_dir@ }
    }
}

/// The directory for the application's own data.
pub open spec fn app_data_dir() -> PathView {
    PathView { base: BaseDir::AppData, names: Seq::empty() }
}

/// Whether the state `s` is one that the application can be in: its settings are in normal form,
/// and it is kept in the directory for the application's own data.
pub open spec fn is_sound(s: StoreView) -> bool {
    &&& is_normal(s.data.settings)
    &&& s.data_dir == app_data_dir()
    &&& s.state_path == app_data_dir().join("state.json"@)
}

/// `s` with the normal form of other settings.
pub open spec fn with_settings(s: StoreView, settings: SettingsView) -> StoreView {
    StoreView { data: DataView { settings: normal_settings(settings), ..s.data }, ..s }
}

/// The data that a run starts with, where `loaded` are those of the last run, if they can be read.
pub open spec fn starting_data(loaded: Option<DataView>) -> DataView {
    match loaded {
        Some(data) => DataView { settings: normal_settings(data.settings), ..data },
        None => DataView { settings: normal_settings(default_settings()), history: Seq::empty() },
    }
}

impl AppStore {
    /// Where the state is kept between runs.
    pub fn state_file() -> (r: FilePath)
        ensures
            r@ == app_data_dir().join("state.json"@),
    {
        FilePath::new(BaseDir::AppData).join("state.json")
    }

    /// The state that a run starts with: the data of the last run if they can be read, else those
    /// of a new installation, with the settings in normal form.
    pub fn load(loaded: Option<AppData>) -> (r: AppStore)
        ensures
            r@.data == starting_data(
                match loaded {
                    Some(data) => Some(data@),
                    None => None,
                },
            ),
            is_sound(r@),
    {
        let mut data = match loaded {
            Some(data) => data,
            None => default_data(),
        };
        proof {
            normalizing_twice_is_normalizing_once(data@.settings);
        }
        data.settings = normalize_settings(data.settings);
        AppStore { data, state_path: AppStore::state_file(), data_dir: FilePath::new(BaseDir::AppData) }
    }

    /// What is written to the state file for data whose JSON text is `text`.
    pub fn state_file_text(text: &str) -> (r: String)
        ensures
            r@ == text@ + "\n"@,
    {
        joined(text, "\n")
    }

    /// The directory of the reference images.
    pub fn references_dir(&self) -> (r: FilePath)
        ensures
            r@ == self@.data_dir.join("references"@),
    {
        self.data_dir.join("references")
    }

    /// The directory of the generated images.
    pub fn results_dir(&self) -> (r: FilePath)
        ensures
            r@ == self@.data_dir.join("results"@),
    {
        self.data_dir.join("results")
    }

    /// The directory for downloads where the platform assigns none.
    pub fn downloads_dir(&self) -> (r: FilePath)
        ensures
            r@ == self@.data_dir.join("downloads"@),
    {
        self.data_dir.join("downloads")
    }
}

/// Replaces the settings by the normal form of `settings`.
pub fn update_settings(store: &mut AppStore, settings: AppSettings)
    ensures
        final(store)@ == with_settings(old(store)@, settings@),
{
    store.data.settings = normalize_settings(settings);
}

/// Forgets the history.
pub fn clear_history(store: &mut AppStore)
    ensures
        final(store)@ == old(store)@.with_history(Seq::empty()),
{
    store.data.history.clear();
    assert(store@.data.history =~= Seq::empty());
}

}
