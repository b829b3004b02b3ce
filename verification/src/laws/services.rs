//! The configured services: what is kept of what the user enters, and which one is used.

use crate::laws::settings::{default_settings_are_normal, first_provider_exists};
use crate::model::{AppData, AppSettings, ProviderConfig, ProviderView, SettingsView};
use crate::paths::{BaseDir, FilePath};
use crate::settings::{
    active_provider, chosen_provider, default_data, has_provider, normal_provider, normal_settings,
    normalize_provider, normalize_settings, validate_provider,
};
use crate::store::{update_settings, AppStore};
use crate::text::{decimal, is_blank};
use vstd::prelude::*;

verus! {

/// What a service holds is what its fields hold.
pub proof fn services_hold_their_fields(p: ProviderConfig)
    ensures
        p@.id == p.id@,
        p@.name == p.name@,
        p@.base_url == p.base_url@,
        p@.api_key == p.api_key@,
        p@.model == p.model@,
        p@.adapter == p.adapter@,
{
}

/// Whether the service `p`, at `index`, is the old placeholder: the first example address and model
/// under the default name, and no key.
pub open spec fn is_old_placeholder(p: ProviderView, index: nat) -> bool {
    &&& p.id == "default"@ || (is_blank(p.id) && index == 0)
    &&& p.name == "GeekAI Proxy"@
    &&& p.base_url == "https://api.example.com/v1"@
    &&& p.model == "gpt-image-1"@
    &&& is_blank(p.api_key)
}

/// Whether `n` is what becomes of the service `p` at `index`: what is not blank is kept, and what is
/// blank gets a default; the key is kept in any case; and so are address and model, unless `p` is the
/// old placeholder, which gets those of today.
pub open spec fn is_normal_form_of(p: ProviderView, index: nat, n: ProviderView) -> bool {
    &&& n.api_key == p.api_key
    &&& !is_blank(p.id) ==> n.id == p.id
    &&& is_blank(p.id) && index == 0 ==> n.id == "default"@
    &&& is_blank(p.id) && index > 0 ==> n.id == "provider-"@ + decimal(index)
    &&& !is_blank(p.name) ==> n.name == p.name
    &&& is_blank(p.name) ==> n.name == "Provider "@ + decimal(index + 1)
    &&& !is_blank(p.adapter) ==> n.adapter == p.adapter
    &&& is_blank(p.adapter) ==> n.adapter == "async_generations"@
    &&& is_old_placeholder(p, index) ==> n.base_url == "https://geekai.co/api/v1"@ && n.model == "gpt-image-2"@
    &&& !is_old_placeholder(p, index) ==> n.base_url == p.base_url
    &&& !is_old_placeholder(p, index) && !is_blank(p.model) ==> n.model == p.model
    &&& is_blank(p.model) ==> n.model == "gpt-image-2"@
}

proof fn normal_forms_keep_what_is_there(p: ProviderView, index: nat)
    ensures
        is_normal_form_of(p, index, normal_provider(p, index)),
{
    reveal_strlit("default");
    reveal_strlit("provider-");
    reveal_strlit("Provider ");
    reveal_strlit("GeekAI Proxy");
    reveal_strlit("gpt-image-1");
    reveal_strlit("gpt-image-2");
    assert("default"@[0] == 'd' && ("provider-"@ + decimal(index))[0] == 'p');
    assert("GeekAI Proxy"@[0] == 'G' && ("Provider "@ + decimal(index + 1))[0] == 'P');
    assert("gpt-image-1"@[10] == '1' && "gpt-image-2"@[10] == '2');
    crate::laws::text::blank_is_all_white_space("gpt-image-1"@);
    assert("gpt-image-1"@[0] == 'g');
    crate::laws::text::blank_is_all_white_space("GeekAI Proxy"@);
    crate::laws::text::blank_is_all_white_space("default"@);
}

/// Normalizing a service keeps what is not blank, and its key.
pub proof fn normalizing_keeps_what_is_there(p: &mut ProviderConfig, index: usize)
    requires
        call_ensures(normalize_provider, (p, index), ()),
    ensures
        is_normal_form_of(old(p)@, index as nat, final(p)@),
{
    normal_forms_keep_what_is_there(old(p)@, index as nat);
}

/// Whether `s` are the settings of a new installation.
pub open spec fn are_new(s: SettingsView) -> bool {
    &&& s.providers.len() == 1
    &&& s.providers[0].id == "default"@
    &&& s.providers[0].name == "GeekAI Proxy"@
    &&& s.providers[0].base_url == "https://geekai.co/api/v1"@
    &&& s.providers[0].api_key.len() == 0
    &&& s.providers[0].model == "gpt-image-2"@
    &&& s.providers[0].adapter == "async_generations"@
    &&& s.active_provider_id == "default"@
}

/// Whether `n` are what becomes of the settings `s`: those of a new installation if there is no
/// service; else every service in its place, each as it is but for what is blank; and the active id as
/// it is if a service has it, else that of the first.
pub open spec fn are_normal_form_of(s: SettingsView, n: SettingsView) -> bool {
    &&& s.providers.len() == 0 ==> are_new(n)
    &&& s.providers.len() > 0 ==> {
        &&& n.providers.len() == s.providers.len()
        &&& forall|i: int|
            0 <= i < s.providers.len() ==> is_normal_form_of(s.providers[i], i as nat, #[trigger] n.providers[i])
        &&& (exists|i: int| 0 <= i < n.providers.len() && (#[trigger] n.providers[i]).id == s.active_provider_id)
            ==> n.active_provider_id == s.active_provider_id
        &&& (forall|i: int| 0 <= i < n.providers.len() ==> (#[trigger] n.providers[i]).id != s.active_provider_id)
            ==> n.active_provider_id == n.providers[0].id
    }
}

proof fn normal_settings_keep_what_is_there(s: SettingsView)
    ensures
        are_normal_form_of(s, normal_settings(s)),
{
    let n = normal_settings(s);
    if s.providers.len() > 0 {
        assert forall|i: int| 0 <= i < s.providers.len() implies is_normal_form_of(
            s.providers[i],
            i as nat,
            #[trigger] n.providers[i],
        ) by {
            normal_forms_keep_what_is_there(s.providers[i], i as nat);
        }
        if forall|i: int| 0 <= i < n.providers.len() ==> (#[trigger] n.providers[i]).id != s.active_provider_id {
            assert(!has_provider(n.providers, s.active_provider_id));
        }
    }
}

/// Normalizing the settings keeps every service, in its place, and the active id where it can.
pub proof fn normalizing_keeps_every_service(settings: AppSettings, r: AppSettings)
    requires
        call_ensures(normalize_settings, (settings,), r),
    ensures
        are_normal_form_of(settings@, r@),
{
    normal_settings_keep_what_is_there(settings@);
}

/// A new installation has one service, and no history.
pub proof fn new_installations_have_one_service(r: AppData)
    requires
        call_ensures(default_data, (), r),
    ensures
        are_new(r@.settings),
        r@.history.len() == 0,
{
}

/// Updating the settings takes the normal form of the new ones, and keeps the history and the places.
pub proof fn updating_takes_the_new_settings(store: &mut AppStore, settings: AppSettings)
    requires
        call_ensures(update_settings, (store, settings), ()),
    ensures
        are_normal_form_of(settings@, final(store)@.data.settings),
        final(store)@.data.history == old(store)@.data.history,
        final(store)@.state_path == old(store)@.state_path,
        final(store)@.data_dir == old(store)@.data_dir,
{
    normal_settings_keep_what_is_there(settings@);
}

/// A run starts with the history of the last one and the normal form of its settings; or, if there was
/// none, as a new installation. The state is kept in `state.json` in the application's own directory.
pub proof fn runs_start_with_the_last_state(loaded: Option<AppData>, r: AppStore)
    requires
        call_ensures(AppStore::load, (loaded,), r),
    ensures
        loaded matches Some(data) ==> r@.data.history == data@.history && are_normal_form_of(
            data@.settings,
            r@.data.settings,
        ),
        loaded is None ==> are_new(r@.data.settings) && r@.data.history.len() == 0,
        r@.data_dir.base == BaseDir::AppData,
        r@.data_dir.names.len() == 0,
        r@.state_path.base == BaseDir::AppData,
        r@.state_path.names == seq!["state.json"@],
{
    if let Some(data) = loaded {
        normal_settings_keep_what_is_there(data@.settings);
    } else {
        default_settings_are_normal();
    }
    assert(r@.state_path.names =~= seq!["state.json"@]);
}

/// The state is written with a line break behind it, to where it is looked for, and images have their
/// own directories beside it.
pub proof fn places_lie_in_the_data_directory(
    store: &AppStore,
    text: &str,
    written: String,
    state: FilePath,
    references: FilePath,
    results: FilePath,
    downloads: FilePath,
)
    requires
        call_ensures(AppStore::state_file_text, (text,), written),
        call_ensures(AppStore::state_file, (), state),
        call_ensures(AppStore::references_dir, (store,), references),
        call_ensures(AppStore::results_dir, (store,), results),
        call_ensures(AppStore::downloads_dir, (store,), downloads),
    ensures
        written@ == text@.push('\n'),
        state@.base == BaseDir::AppData,
        state@.names == seq!["state.json"@],
        references@.base == store@.data_dir.base && results@.base == store@.data_dir.base && downloads@.base
            == store@.data_dir.base,
        references@.names == store@.data_dir.names.push("references"@),
        results@.names == store@.data_dir.names.push("results"@),
        downloads@.names == store@.data_dir.names.push("downloads"@),
{
    reveal_strlit("\n");
    assert(written@ =~= text@.push('\n'));
    assert(state@.names =~= seq!["state.json"@]);
}

/// Whether the service at `i` is the one in use: the first with the active id, or the first of all if
/// none has it.
pub open spec fn is_in_use(s: SettingsView, i: int) -> bool {
    let p = s.providers;
    &&& 0 <= i < p.len()
    &&& {
        ||| p[i].id == s.active_provider_id && (forall|j: int| 0 <= j < i ==> (#[trigger] p[j]).id != s.active_provider_id)
        ||| i == 0 && (forall|j: int| 0 <= j < p.len() ==> (#[trigger] p[j]).id != s.active_provider_id)
    }
}

pub(crate) proof fn chosen_services_are_in_use(s: SettingsView)
    ensures
        forall|i: int| #[trigger] is_in_use(s, i) ==> chosen_provider(s) == Some(s.providers[i]),
        s.providers.len() == 0 ==> chosen_provider(s) is None,
        s.providers.len() > 0 ==> exists|i: int| #[trigger] is_in_use(s, i),
{
    let (p, id) = (s.providers, s.active_provider_id);
    if has_provider(p, id) {
        let n = choose|n: int| 0 <= n < p.len() && #[trigger] p[n].id == id;
        first_provider_exists(p, id, n);
        let k = choose|i: int| crate::settings::first_with_id(p, id, i);
        assert(is_in_use(s, k));
        assert forall|i: int| #[trigger] is_in_use(s, i) implies i == k by {
            if forall|j: int| 0 <= j < p.len() ==> (#[trigger] p[j]).id != id {
                assert(p[n].id != id);
            }
            if i < k {
                assert(p[i].id != id);
            }
            if k < i {
                assert(p[k].id != id);
            }
        }
    } else if p.len() > 0 {
        assert(is_in_use(s, 0));
        assert forall|i: int| #[trigger] is_in_use(s, i) implies i == 0 by {
            assert(p[i].id != id);
        }
    }
}

/// The service in use is the first with the active id, else the first of all; it is missing only if
/// there is no service, and that is reported.
pub proof fn the_active_service_is_used(settings: &AppSettings, r: Result<ProviderConfig, String>)
    requires
        call_ensures(active_provider, (settings,), r),
    ensures
        forall|i: int| #[trigger] is_in_use(settings@, i) ==> (r matches Ok(p) && p@ == settings@.providers[i]),
        settings@.providers.len() == 0 ==> (r matches Err(e) && e@ == "未配置 Provider"@),
{
    chosen_services_are_in_use(settings@);
}

/// A service can be used exactly if it has an address, a key and a model; the first that is missing is
/// reported.
pub proof fn services_need_address_key_and_model(provider: &ProviderConfig, r: Result<(), String>)
    requires
        call_ensures(validate_provider, (provider,), r),
    ensures
        r is Ok <==> !is_blank(provider.base_url@) && !is_blank(provider.api_key@) && !is_blank(provider.model@),
        is_blank(provider.base_url@) ==> (r matches Err(e) && e@ == "Base URL 为空"@),
        !is_blank(provider.base_url@) && is_blank(provider.api_key@) ==> (r matches Err(e) && e@ == "API Key 为空"@),
        !is_blank(provider.base_url@) && !is_blank(provider.api_key@) && is_blank(provider.model@) ==> (r matches Err(e)
            && e@ == "模型名称为空"@),
{
}

}
