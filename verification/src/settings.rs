//! The settings: their defaults, their normal form, and the service in use.

use crate::model::{providers_view, AppData, AppSettings, DataView, ProviderConfig, ProviderView, SettingsView};
use crate::text::{blank, decimal, decimal_text, is_blank, joined, same_text};
use vstd::prelude::*;

verus! {

/// The service that a new installation starts with.
pub open spec fn default_provider() -> ProviderView {
    ProviderView {
        id: "default"@,
        name: "GeekAI Proxy"@,
        base_url: "https://geekai.co/api/v1"@,
        api_key: Seq::empty(),
        model: "gpt-image-2"@,
        adapter: "async_generations"@,
    }
}

/// The settings of a new installation.
pub open spec fn default_settings() -> SettingsView {
    SettingsView { providers: seq![default_provider()], active_provider_id: "default"@ }
}

/// The data of a new installation: the default settings and no history.
pub fn default_data() -> (r: AppData)
    ensures
        r@ == (DataView { settings: default_settings(), history: Seq::empty() }),
{
    let mut providers: Vec<ProviderConfig> = Vec::new();
    providers.push(
        ProviderConfig {
            id: "default".to_string(),
            name: "GeekAI Proxy".to_string(),
            base_url: "https://geekai.co/api/v1".to_string(),
            api_key: String::new(),
            model: "gpt-image-2".to_string(),
            adapter: "async_generations".to_string(),
        },
    );
    let r = AppData {
        settings: AppSettings { providers, active_provider_id: "default".to_string() },
        history: Vec::new(),
    };
    assert(r@.settings.providers =~= default_settings().providers);
    assert(r@.history =~= Seq::empty());
    r
}

/// The id that the service at `index` gets if it has none.
pub open spec fn fallback_id(index: nat) -> Seq<char> {
    if index == 0 {
        "default"@
    } else {
        "provider-"@ + decimal(index)
    }
}

/// `s`, or `fallback` if `s` is blank.
pub open spec fn or_if_blank(s: Seq<char>, fallback: Seq<char>) -> Seq<char> {
    if is_blank(s) {
        fallback
    } else {
        s
    }
}

/// `p` with every blank id, name, model and adapter filled in, for a service at `index`.
pub open spec fn filled_in(p: ProviderView, index: nat) -> ProviderView {
    ProviderView {
        id: or_if_blank(p.id, fallback_id(index)),
        name: or_if_blank(p.name, "Provider "@ + decimal(index + 1)),
        base_url: p.base_url,
        api_key: p.api_key,
        model: or_if_blank(p.model, "gpt-image-2"@),
        adapter: or_if_blank(p.adapter, "async_generations"@),
    }
}

/// Whether `p` is a placeholder: an example address under the default name, without a key.
pub open spec fn is_placeholder(p: ProviderView) -> bool {
    &&& p.id == "default"@
    &&& p.name == "GeekAI Proxy"@
    &&& p.base_url == "https://api.example.com/v1"@
    &&& p.model == "gpt-image-1"@
    &&& is_blank(p.api_key)
}

/// The normal form of the service `p` at `index`: nothing needed is blank, and a placeholder
/// gets the default address and model.
pub open spec fn normal_provider(p: ProviderView, index: nat) -> ProviderView {
    let q = filled_in(p, index);
    if is_placeholder(q) {
        ProviderView { base_url: "https://geekai.co/api/v1"@, model: "gpt-image-2"@, ..q }
    } else {
        q
    }
}

/// The normal forms of the services `s`.
pub open spec fn normal_providers(s: Seq<ProviderView>) -> Seq<ProviderView> {
    s.map(|i: int, p: ProviderView| normal_provider(p, i as nat))
}

/// Whether one of the services `s` has the id `id`.
pub open spec fn has_provider(s: Seq<ProviderView>, id: Seq<char>) -> bool {
    exists|i: int| 0 <= i < s.len() && #[trigger] s[i].id == id
}

/// The normal form of the settings `s`: there is a service, each one is in normal form, and the
/// active id is that of one of them.
pub open spec fn normal_settings(s: SettingsView) -> SettingsView {
    if s.providers.len() == 0 {
        default_settings()
    } else {
        let providers = normal_providers(s.providers);
        SettingsView {
            providers,
            active_provider_id: if has_provider(providers, s.active_provider_id) {
                s.active_provider_id
            } else {
                providers[0].id
            },
        }
    }
}

/// Whether the settings `s` are in normal form.
pub open spec fn is_normal(s: SettingsView) -> bool {
    normal_settings(s) == s
}

/// Brings the service `p` at `index` into normal form.
pub fn normalize_provider(p: &mut ProviderConfig, index: usize)
    requires
        index < usize::MAX,
    ensures
        final(p)@ == normal_provider(old(p)@, index as nat),
{
    if blank(p.id.as_str()) {
        p.id = if index == 0 {
            "default".to_string()
        } else {
            joined("provider-", decimal_text(index as u64).as_str())
        };
    }
    if blank(p.name.as_str()) {
        p.name = joined("Provider ", decimal_text(index as u64 + 1).as_str());
    }
    if blank(p.model.as_str()) {
        p.model = "gpt-image-2".to_string();
    }
    if same_text(p.id.as_str(), "default") && same_text(p.name.as_str(), "GeekAI Proxy")
        && same_text(p.base_url.as_str(), "https://api.example.com/v1")
        && same_text(p.model.as_str(), "gpt-image-1") && blank(p.api_key.as_str()) {
        p.base_url = "https://geekai.co/api/v1".to_string();
        p.model = "gpt-image-2".to_string();
    }
    if blank(p.adapter.as_str()) {
        p.adapter = "async_generations".to_string();
    }
}

/// Finds the first of `providers` whose id is `id`.
pub fn find_provider(providers: &Vec<ProviderConfig>, id: &str) -> (r: Option<usize>)
    ensures
        match r {
            Some(i) => first_with_id(providers_view(providers@), id@, i as int),
            None => !has_provider(providers_view(providers@), id@),
        },
{
    let mut i: usize = 0;
    while i < providers.len()
        invariant
            i <= providers@.len(),
            forall|j: int| 0 <= j < i ==> #[trigger] providers_view(providers@)[j].id != id@,
        decreases providers@.len() - i,
    {
        assert(providers_view(providers@)[i as int] == providers@[i as int]@);
        if same_text(providers[i].id.as_str(), id) {
            return Some(i);
        }
        i = i + 1;
    }
    None
}

/// Whether `i` is the position of the first of `s` whose id is `id`.
pub open spec fn first_with_id(s: Seq<ProviderView>, id: Seq<char>, i: int) -> bool {
    &&& 0 <= i < s.len()
    &&& s[i].id == id
    &&& forall|j: int| 0 <= j < i ==> #[trigger] s[j].id != id
}

/// Brings `settings` into normal form.
pub fn normalize_settings(settings: AppSettings) -> (r: AppSettings)
    ensures
        r@ == normal_settings(settings@),
{
    let mut settings = settings;
    if settings.providers.len() == 0 {
        return default_data().settings;
    }
    let ghost given = settings@;
    let n: usize = settings.providers.len();
    let mut i: usize = 0;
    while i < n
        invariant
            i <= n == settings.providers@.len() == given.providers.len(),
            settings.active_provider_id@ == given.active_provider_id,
            forall|j: int| 0 <= j < i ==> #[trigger] settings@.providers[j] == normal_providers(given.providers)[j],
            forall|j: int| i <= j < n ==> #[trigger] settings@.providers[j] == given.providers[j],
        decreases n - i,
    {
        let ghost before = settings@.providers;
        assert(before[i as int] == given.providers[i as int]);
        normalize_provider(&mut settings.providers[i], i);
        assert(settings@.providers =~= before.update(i as int, normal_provider(before[i as int], i as nat)));
        i = i + 1;
    }
    assert(settings@.providers =~= normal_providers(given.providers));
    if find_provider(&settings.providers, settings.active_provider_id.as_str()).is_none() {
        settings.active_provider_id = settings.providers[0].id.clone();
    }
    settings
}

/// The service in use: the first with the active id, else the first of all, else none.
pub open spec fn chosen_provider(s: SettingsView) -> Option<ProviderView> {
    if has_provider(s.providers, s.active_provider_id) {
        Some(s.providers[choose|i: int| first_with_id(s.providers, s.active_provider_id, i)])
    } else if s.providers.len() > 0 {
        Some(s.providers[0])
    } else {
        None
    }
}

/// The service in use.
///
/// Fails only if no service is configured.
pub fn active_provider(settings: &AppSettings) -> (r: Result<ProviderConfig, String>)
    ensures
        match r {
            Ok(p) => chosen_provider(settings@) == Some(p@),
            Err(e) => chosen_provider(settings@) is None && e@ == "未配置 Provider"@,
        },
{
    match find_provider(&settings.providers, settings.active_provider_id.as_str()) {
        Some(i) => {
            assert(providers_view(settings.providers@)[i as int] == settings.providers@[i as int]@);
            Ok(settings.providers[i].clone())
        },
        None => {
            if settings.providers.len() > 0 {
                Ok(settings.providers[0].clone())
            } else {
                Err("未配置 Provider".to_string())
            }
        },
    }
}

/// What keeps `p` from being used, if anything: the first of its address, key and model that is
/// blank.
pub open spec fn provider_fault(p: ProviderView) -> Option<Seq<char>> {
    if is_blank(p.base_url) {
        Some("Base URL 为空"@)
    } else if is_blank(p.api_key) {
        Some("API Key 为空"@)
    } else if is_blank(p.model) {
        Some("模型名称为空"@)
    } else {
        None
    }
}

/// Checks that `provider` has an address, a key and a model.
pub fn validate_provider(provider: &ProviderConfig) -> (r: Result<(), String>)
    ensures
        match r {
            Ok(_) => provider_fault(provider@) is None,
            Err(e) => provider_fault(provider@) == Some(e@),
        },
{
    if blank(provider.base_url.as_str()) {
        return Err("Base URL 为空".to_string());
    }
    if blank(provider.api_key.as_str()) {
        return Err("API Key 为空".to_string());
    }
    if blank(provider.model.as_str()) {
        return Err("模型名称为空".to_string());
    }
    Ok(())
}

}
