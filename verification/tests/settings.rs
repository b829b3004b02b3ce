use image_lab::model::{AppData, AppSettings, HistoryItem, ProviderConfig};
use image_lab::paths::{BaseDir, FilePath};
use image_lab::settings::{active_provider, default_data, normalize_settings, validate_provider};
use image_lab::store::{clear_history, update_settings, AppStore};

fn provider(id: &str, name: &str, base_url: &str, api_key: &str, model: &str, adapter: &str) -> ProviderConfig {
    ProviderConfig {
        id: id.to_string(),
        name: name.to_string(),
        base_url: base_url.to_string(),
        api_key: api_key.to_string(),
        model: model.to_string(),
        adapter: adapter.to_string(),
    }
}

fn settings(providers: Vec<ProviderConfig>, active: &str) -> AppSettings {
    AppSettings { providers, active_provider_id: active.to_string() }
}

fn below(base: BaseDir, names: &[&str]) -> FilePath {
    FilePath { base, names: names.iter().map(|n| n.to_string()).collect() }
}

#[test]
fn a_new_installation_has_one_provider() {
    let data = default_data();
    assert_eq!(
        data.settings,
        settings(
            vec![provider("default", "GeekAI Proxy", "https://geekai.co/api/v1", "", "gpt-image-2", "async_generations")],
            "default",
        )
    );
    assert!(data.history.is_empty());
}

#[test]
fn no_provider_means_the_default() {
    assert_eq!(normalize_settings(settings(vec![], "x")), default_data().settings);
}

#[test]
fn blank_fields_are_filled_in() {
    let s = normalize_settings(settings(
        vec![provider(" ", "", "u", "k", "\t", ""), provider("", " ", "", "", "m", "sync_generations")],
        "nobody",
    ));
    assert_eq!(
        s,
        settings(
            vec![
                provider("default", "Provider 1", "u", "k", "gpt-image-2", "async_generations"),
                provider("provider-1", "Provider 2", "", "", "m", "sync_generations"),
            ],
            "default",
        )
    );
}

#[test]
fn the_active_id_is_kept_if_it_is_known() {
    let s = normalize_settings(settings(
        vec![provider("a", "A", "u", "k", "m", "x"), provider("b", "B", "u", "k", "m", "x")],
        "b",
    ));
    assert_eq!(s.active_provider_id, "b");
}

#[test]
fn a_placeholder_gets_the_default_address_and_model() {
    let old = provider("", "GeekAI Proxy", "https://api.example.com/v1", " ", "gpt-image-1", "async_generations");
    let s = normalize_settings(settings(vec![old], "default"));
    assert_eq!(s, AppSettings {
        providers: vec![provider(
            "default",
            "GeekAI Proxy",
            "https://geekai.co/api/v1",
            " ",
            "gpt-image-2",
            "async_generations",
        )],
        active_provider_id: "default".to_string(),
    });
}

#[test]
fn a_placeholder_with_a_key_is_kept() {
    let used = provider("default", "GeekAI Proxy", "https://api.example.com/v1", "k", "gpt-image-1", "a");
    let s = normalize_settings(settings(vec![used.clone()], "default"));
    assert_eq!(s.providers, vec![used]);
}

#[test]
fn normalizing_twice_changes_nothing() {
    let s = normalize_settings(settings(
        vec![
            provider("", "GeekAI Proxy", "https://api.example.com/v1", "", "gpt-image-1", ""),
            provider("", "", "", "", "", ""),
        ],
        "",
    ));
    assert_eq!(normalize_settings(s.clone()), s);
}

#[test]
fn the_active_provider_is_the_first_with_its_id() {
    let a = provider("a", "A", "u", "k", "m", "x");
    let b = provider("b", "B", "u", "k", "m", "x");
    let c = provider("b", "C", "u", "k", "m", "x");
    let s = settings(vec![a.clone(), b.clone(), c], "b");
    assert_eq!(active_provider(&s), Ok(b));
    assert_eq!(active_provider(&settings(vec![a.clone()], "b")), Ok(a));
    assert_eq!(active_provider(&settings(vec![], "b")), Err("未配置 Provider".to_string()));
}

#[test]
fn a_provider_needs_address_key_and_model() {
    assert_eq!(validate_provider(&provider("", "", "u", "k", "m", "")), Ok(()));
    assert_eq!(validate_provider(&provider("", "", " ", "", "", "")), Err("Base URL 为空".to_string()));
    assert_eq!(validate_provider(&provider("", "", "u", " ", "", "")), Err("API Key 为空".to_string()));
    assert_eq!(validate_provider(&provider("", "", "u", "k", "\n", "")), Err("模型名称为空".to_string()));
}

#[test]
fn loading_normalizes_the_settings() {
    let loaded = AppData { settings: settings(vec![provider("", "N", "u", "k", "m", "a")], ""), history: vec![] };
    let store = AppStore::load(Some(loaded));
    assert_eq!(store.data.settings, settings(vec![provider("default", "N", "u", "k", "m", "a")], "default"));
    assert_eq!(store.data_dir, below(BaseDir::AppData, &[]));
    assert_eq!(store.state_path, below(BaseDir::AppData, &["state.json"]));
}

#[test]
fn loading_nothing_gives_the_default() {
    assert_eq!(AppStore::load(None).data, default_data());
}

#[test]
fn loading_what_was_kept_changes_nothing() {
    let data = AppStore::load(None).data;
    assert_eq!(AppStore::load(Some(data.clone())).data, data);
}

#[test]
fn the_directories_lie_below_the_data_directory() {
    let store = AppStore::load(None);
    assert_eq!(store.references_dir(), below(BaseDir::AppData, &["references"]));
    assert_eq!(store.results_dir(), below(BaseDir::AppData, &["results"]));
    assert_eq!(store.downloads_dir(), below(BaseDir::AppData, &["downloads"]));
}

#[test]
fn the_state_file_ends_with_a_line_break() {
    assert_eq!(AppStore::state_file_text("{}"), "{}\n");
}

#[test]
fn updating_the_settings_normalizes_them() {
    let mut store = AppStore::load(None);
    update_settings(&mut store, settings(vec![provider("p", "", "u", "k", "m", "a")], "q"));
    assert_eq!(store.data.settings, settings(vec![provider("p", "Provider 1", "u", "k", "m", "a")], "p"));
}

#[test]
fn clearing_forgets_the_history_only() {
    let item = HistoryItem {
        id: "i".to_string(),
        prompt: String::new(),
        size: String::new(),
        provider_name: String::new(),
        adapter: String::new(),
        reference_paths: vec![],
        status: "pending".to_string(),
        task_id: None,
        stored_path: String::new(),
        error: None,
        created_at: String::new(),
        finished_at: String::new(),
        duration_seconds: None,
    };
    let mut store = AppStore::load(None);
    store.data.history.push(item);
    clear_history(&mut store);
    assert_eq!(store.data, default_data());
}
