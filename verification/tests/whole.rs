use image_lab::http::url_below;
use image_lab::model::{AppSettings, ProviderConfig};
use image_lab::paths::{download_place, extension_for, unique_download_path, BaseDir, FilePath};
use image_lab::poll::{poll_step, PollStep};
use image_lab::query::{query_image_task_inner, QueryStep};
use image_lab::settings::{active_provider, normalize_settings, validate_provider};
use image_lab::store::AppStore;
use image_lab::text::{decimal_text, strip_of, trim, CharSet};

fn bare_provider() -> ProviderConfig {
    ProviderConfig {
        id: String::new(),
        name: String::new(),
        base_url: String::new(),
        api_key: String::new(),
        model: String::new(),
        adapter: String::new(),
    }
}

#[test]
fn stripping_twice_changes_nothing() {
    let once = strip_of("-_-a-_-", CharSet::Only('-'));
    assert_eq!(once, "_-a-_");
    assert_eq!(strip_of(once, CharSet::Only('-')), once);
    assert_eq!(trim(trim(" \u{3000}a b\t")), "a b");
}

#[test]
fn different_numbers_have_different_notations() {
    let notations: Vec<String> = [0, 1, 9, 10, 11, 99, 100, 101, 110].iter().map(|n| decimal_text(*n)).collect();
    for i in 0..notations.len() {
        for j in 0..i {
            assert_ne!(notations[i], notations[j]);
        }
    }
}

#[test]
fn normal_settings_can_be_used_once_address_and_key_are_there() {
    let given = AppSettings { providers: vec![bare_provider()], active_provider_id: "gone".to_string() };
    let settings = normalize_settings(given);
    let mut provider = active_provider(&settings).unwrap();
    assert_eq!(provider.id, settings.active_provider_id);
    assert_eq!(validate_provider(&provider), Err("Base URL 为空".to_string()));
    provider.base_url = "u".to_string();
    assert_eq!(validate_provider(&provider), Err("API Key 为空".to_string()));
    provider.api_key = "k".to_string();
    assert_eq!(validate_provider(&provider), Ok(()));
}

#[test]
fn an_item_that_is_gone_is_asked_after_once() {
    let mut store = AppStore::load(None);
    match query_image_task_inner(&mut store, "x") {
        QueryStep::Refused(e) => assert_eq!(poll_step(0, Err(e.clone())), PollStep::Fail(e)),
        other => panic!("{other:?}"),
    }
}

#[test]
fn a_free_name_is_found_among_taken_ones() {
    let dir = FilePath::new(BaseDir::Downloads);
    let taken: Vec<FilePath> = (0..5).map(|n| download_place(&dir, "a", "png", n)).collect();
    let free = unique_download_path(&dir, "a", "png", |p| taken.contains(p)).unwrap();
    assert_eq!(free.names, vec!["image-lab-a-5.png".to_string()]);
}

#[test]
fn extensions_do_not_depend_on_capitals() {
    for name in ["x.JPG", "x.jpg", "x.JpEg", "x.WEBP", "x.Png", "x"] {
        assert_eq!(extension_for(name, ""), extension_for(&name.to_ascii_lowercase(), ""));
    }
}

#[test]
fn addresses_have_one_slash_before_their_path() {
    for base in ["https://x", "https://x/", "https://x///", " https://x/ "] {
        assert_eq!(url_below(base, "/images"), "https://x/images");
    }
    assert_eq!(url_below(" / ", "/images"), "/images");
}
