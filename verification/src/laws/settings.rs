//! Settings.

use crate::generate::generation_fault;
use crate::laws::text::blank_is_all_white_space;
use crate::model::{DataView, ProviderView, SettingsView};
use crate::settings::{
    chosen_provider, default_provider, default_settings, fallback_id, first_with_id, has_provider,
    is_normal, normal_provider, normal_providers, normal_settings,
};
use crate::store::starting_data;
use crate::text::{decimal, is_blank, is_white_space};
use vstd::prelude::*;

verus! {

/// A text that the settings fall back on is not blank.
proof fn fallbacks_are_not_blank(index: nat)
    ensures
        !is_blank(fallback_id(index)),
        !is_blank("Provider "@ + decimal(index)),
        !is_blank("gpt-image-2"@),
        !is_blank("gpt-image-1"@),
        !is_blank("async_generations"@),
{
    reveal_strlit("default");
    reveal_strlit("provider-");
    reveal_strlit("Provider ");
    reveal_strlit("gpt-image-2");
    reveal_strlit("gpt-image-1");
    reveal_strlit("async_generations");
    blank_is_all_white_space(fallback_id(index));
    blank_is_all_white_space("Provider "@ + decimal(index));
    blank_is_all_white_space("gpt-image-2"@);
    blank_is_all_white_space("gpt-image-1"@);
    blank_is_all_white_space("async_generations"@);
    assert(!is_white_space(fallback_id(index)[0]));
    assert(!is_white_space(("Provider "@ + decimal(index))[0]));
    assert(!is_white_space("gpt-image-2"@[0]));
    assert(!is_white_space("gpt-image-1"@[0]));
    assert(!is_white_space("async_generations"@[0]));
}

/// A service in normal form has an id, a name, a model and an adapter.
pub proof fn normal_providers_are_complete(p: ProviderView, index: nat)
    ensures
        !is_blank(normal_provider(p, index).id),
        !is_blank(normal_provider(p, index).name),
        !is_blank(normal_provider(p, index).model),
        !is_blank(normal_provider(p, index).adapter),
{
    fallbacks_are_not_blank(index);
    fallbacks_are_not_blank(index + 1);
}

/// Bringing a service into normal form a second time changes nothing.
pub proof fn normalizing_a_provider_twice_is_once(p: ProviderView, index: nat)
    ensures
        normal_provider(normal_provider(p, index), index) == normal_provider(p, index),
{
    normal_providers_are_complete(p, index);
    reveal_strlit("https://api.example.com/v1");
    reveal_strlit("https://geekai.co/api/v1");
    assert("https://api.example.com/v1"@.len() != "https://geekai.co/api/v1"@.len());
}

/// Bringing the settings into normal form a second time changes nothing.
pub proof fn normalizing_twice_is_normalizing_once(s: SettingsView)
    ensures
        is_normal(normal_settings(s)),
{
    let n = normal_settings(s);
    if s.providers.len() == 0 {
        default_settings_are_normal();
    } else {
        assert forall|i: int| 0 <= i < n.providers.len() implies #[trigger] normal_providers(n.providers)[i]
            == n.providers[i] by {
            normalizing_a_provider_twice_is_once(s.providers[i], i as nat);
        }
        assert(normal_providers(n.providers) =~= n.providers);
        assert(has_provider(n.providers, n.active_provider_id));
    }
}

/// The settings of a new installation are in normal form.
pub proof fn default_settings_are_normal()
    ensures
        is_normal(default_settings()),
{
    let p = default_provider();
    reveal_strlit("default");
    reveal_strlit("GeekAI Proxy");
    reveal_strlit("gpt-image-2");
    reveal_strlit("async_generations");
    reveal_strlit("https://api.example.com/v1");
    reveal_strlit("https://geekai.co/api/v1");
    assert("https://api.example.com/v1"@.len() != "https://geekai.co/api/v1"@.len());
    blank_is_all_white_space(p.id);
    blank_is_all_white_space(p.name);
    blank_is_all_white_space(p.model);
    blank_is_all_white_space(p.adapter);
    assert(!is_white_space(p.id[0]));
    assert(!is_white_space(p.name[0]));
    assert(!is_white_space(p.model[0]));
    assert(!is_white_space(p.adapter[0]));
    assert(normal_provider(p, 0) == p);
    assert(normal_providers(default_settings().providers) =~= default_settings().providers);
    assert(default_settings().providers[0].id == default_settings().active_provider_id);
}

/// The first of the services with a given id is there if any is.
pub(crate) proof fn first_provider_exists(s: Seq<ProviderView>, id: Seq<char>, n: int)
    requires
        0 <= n < s.len(),
        s[n].id == id,
    ensures
        exists|i: int| first_with_id(s, id, i),
    decreases n,
{
    if forall|j: int| 0 <= j < n ==> #[trigger] s[j].id != id {
        assert(first_with_id(s, id, n));
    } else {
        let j = choose|j: int| 0 <= j < n && #[trigger] s[j].id == id;
        first_provider_exists(s, id, j);
    }
}

/// Settings in normal form have a service in use: one whose id is the active one, and it has an id,
/// a name, a model and an adapter.
pub proof fn normal_settings_have_an_active_provider(s: SettingsView)
    requires
        is_normal(s),
    ensures
        chosen_provider(s) matches Some(p) && p.id == s.active_provider_id && !is_blank(p.id) && !is_blank(p.name)
            && !is_blank(p.model) && !is_blank(p.adapter),
{
    if s.providers.len() == 0 {
        assert(default_settings().providers.len() == 1);
    }
    assert(s.providers == normal_providers(s.providers));
    if !has_provider(s.providers, s.active_provider_id) {
        assert(s.providers[0].id == s.active_provider_id);
    }
    let n = choose|n: int| 0 <= n < s.providers.len() && #[trigger] s.providers[n].id == s.active_provider_id;
    first_provider_exists(s.providers, s.active_provider_id, n);
    let i = choose|i: int| first_with_id(s.providers, s.active_provider_id, i);
    normal_providers_are_complete(s.providers[i], i as nat);
    assert(normal_providers(s.providers)[i] == normal_provider(s.providers[i], i as nat));
}

/// With settings in normal form, all that can keep a request from being queued is a blank prompt,
/// address or key.
pub proof fn normal_settings_lack_only_address_and_key(s: SettingsView, prompt: Seq<char>)
    requires
        is_normal(s),
    ensures
        generation_fault(s, prompt) matches Some(e) ==> e == "提示词为空"@ || e == "Base URL 为空"@ || e
            == "API Key 为空"@,
{
    normal_settings_have_an_active_provider(s);
}

/// A run that starts with the data of the last run starts with just those data, if the settings
/// were in normal form; and the settings that a run starts with always are.
pub proof fn restarting_keeps_the_data(data: DataView)
    ensures
        is_normal(data.settings) ==> starting_data(Some(data)) == data,
        starting_data(Some(data)).history == data.history,
        is_normal(starting_data(Some(data)).settings),
        is_normal(starting_data(None).settings),
{
    normalizing_twice_is_normalizing_once(data.settings);
    normalizing_twice_is_normalizing_once(default_settings());
}

}
