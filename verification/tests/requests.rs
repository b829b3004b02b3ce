use image_lab::download::{download_extension, download_result, Download};
use image_lab::generate::{generate_image, queue_item, HISTORY_LIMIT};
use image_lab::history::{
    accept_task, complete_history_with_bytes, fail_history, fail_history_at, pending_task_ids, record_result,
    record_result_at, replace_item, store_result, update_history, ResultFile,
};
use image_lab::model::{HistoryItem, ImageInput, ProviderConfig, ReferenceImage};
use image_lab::paths::{BaseDir, FilePath};
use image_lab::reference::{describe_reference, place_reference, record_reference, save_reference_image};
use image_lab::store::AppStore;

fn below(base: BaseDir, names: &[&str]) -> FilePath {
    FilePath { base, names: names.iter().map(|n| n.to_string()).collect() }
}

fn item(id: &str, status: &str) -> HistoryItem {
    HistoryItem {
        id: id.to_string(),
        prompt: "p".to_string(),
        size: "1024x1024".to_string(),
        provider_name: "GeekAI Proxy".to_string(),
        adapter: "async_generations".to_string(),
        reference_paths: vec![],
        status: status.to_string(),
        task_id: None,
        stored_path: String::new(),
        error: Some("old".to_string()),
        created_at: "2024-05-01T10:00:00+00:00".to_string(),
        finished_at: String::new(),
        duration_seconds: None,
    }
}

fn store_with(history: Vec<HistoryItem>) -> AppStore {
    let mut store = AppStore::load(None);
    store.data.settings.providers[0].api_key = "k".to_string();
    store.data.history = history;
    store
}

fn text(s: &str) -> String {
    s.to_string()
}

#[test]
fn a_request_is_queued_at_the_front() {
    let mut store = store_with(vec![item("a", "failed")]);
    let g = generate_image(&mut store, "  a cat \n", text("512x512"), vec![text("/r.png")]).unwrap();
    assert_eq!(g.provider, store.data.settings.providers[0]);
    assert!(g.item.id.starts_with("img_"));
    assert_eq!(g.item.id.len(), 36);
    assert_eq!(g.item.prompt, "a cat");
    assert_eq!(g.item.size, "512x512");
    assert_eq!(g.item.provider_name, "GeekAI Proxy");
    assert_eq!(g.item.adapter, "async_generations");
    assert_eq!(g.item.reference_paths, vec![text("/r.png")]);
    assert_eq!(g.item.status, "pending");
    assert_eq!(g.item.task_id, None);
    assert_eq!(g.item.stored_path, "");
    assert_eq!(g.item.error, None);
    assert_eq!(g.item.finished_at, "");
    assert_eq!(g.item.duration_seconds, None);
    assert!(chrono::DateTime::parse_from_rfc3339(&g.item.created_at).is_ok());
    assert_eq!(store.data.history, vec![g.item, item("a", "failed")]);
}

#[test]
fn a_request_needs_a_prompt_and_a_usable_provider() {
    let mut store = store_with(vec![]);
    assert_eq!(generate_image(&mut store, " ", text(""), vec![]), Err(text("提示词为空")));
    store.data.settings.providers[0].api_key = text(" ");
    assert_eq!(generate_image(&mut store, "p", text(""), vec![]), Err(text("API Key 为空")));
    store.data.settings.providers[0].base_url = text("");
    assert_eq!(generate_image(&mut store, "p", text(""), vec![]), Err(text("Base URL 为空")));
    store.data.settings.providers.clear();
    assert_eq!(generate_image(&mut store, "p", text(""), vec![]), Err(text("未配置 Provider")));
    assert!(store.data.history.is_empty());
}

#[test]
fn the_history_keeps_eighty_items() {
    let mut store = store_with((0..80).map(|i| item(&i.to_string(), "failed")).collect());
    let provider: ProviderConfig = store.data.settings.providers[0].clone();
    let new = queue_item(&mut store, &provider, "p", text("s"), vec![], text("new"), text("now"));
    assert_eq!(HISTORY_LIMIT, 80);
    assert_eq!(store.data.history.len(), 80);
    assert_eq!(store.data.history[0], new);
    assert_eq!(store.data.history[1].id, "0");
    assert_eq!(store.data.history[79].id, "78");
}

#[test]
fn a_longer_history_is_cut() {
    let mut store = store_with((0..100).map(|i| item(&i.to_string(), "failed")).collect());
    let provider: ProviderConfig = store.data.settings.providers[0].clone();
    queue_item(&mut store, &provider, "p", text("s"), vec![], text("new"), text("now"));
    assert_eq!(store.data.history.len(), 80);
    assert_eq!(store.data.history[79].id, "78");
}

#[test]
fn updating_changes_the_first_item_only() {
    let mut store = store_with(vec![item("a", "x"), item("b", "x"), item("b", "y")]);
    let r = update_history(&mut store, "b", |i| i.status = "z".to_string());
    assert_eq!(r, Ok(item("b", "z")));
    assert_eq!(store.data.history, vec![item("a", "x"), item("b", "z"), item("b", "y")]);
    let before = store.data.clone();
    let r = update_history(&mut store, "c", |i| i.status = "w".to_string());
    assert_eq!(r, Err(text("历史记录不存在")));
    assert_eq!(store.data, before);
}

#[test]
fn failing_an_item() {
    let mut store = store_with(vec![item("a", "pending"), item("b", "pending")]);
    let r = fail_history_at(&mut store, "b", text("broken"), text("2024-05-01T10:00:07.5+00:00"));
    let mut expected = item("b", "failed");
    expected.error = Some(text("broken"));
    expected.finished_at = text("2024-05-01T10:00:07.5+00:00");
    expected.duration_seconds = Some(7);
    assert_eq!(r, Ok(expected.clone()));
    assert_eq!(store.data.history, vec![item("a", "pending"), expected]);
    assert_eq!(
        fail_history_at(&mut store, "c", text("broken"), text("")),
        Err(text("历史记录不存在"))
    );
}

#[test]
fn failing_an_item_now() {
    let mut store = store_with(vec![item("a", "pending")]);
    let r = fail_history(&mut store, "a", text("broken")).unwrap();
    assert_eq!(r.status, "failed");
    assert_eq!(r.error, Some(text("broken")));
    assert!(r.finished_at.ends_with("+00:00"));
    assert!(chrono::DateTime::parse_from_rfc3339(&r.finished_at).is_ok());
    assert!(r.duration_seconds.unwrap() > 0);
    assert_eq!(download_result(&store, "a", true), Err(text("图片尚未生成完成")));
    assert_eq!(fail_history(&mut store, "b", text("broken")), Err(text("历史记录不存在")));
}

#[test]
fn completing_an_item() {
    let mut store = store_with(vec![item("a", "pending")]);
    let file = complete_history_with_bytes(&store, "a", Some(text("t")), vec![1, 2]).unwrap();
    let mut named = item("a", "pending");
    named.task_id = Some(text("t"));
    assert_eq!(
        file,
        ResultFile {
            item: named.clone(),
            dir: below(BaseDir::AppData, &["results"]),
            path: below(BaseDir::AppData, &["results", "a.png"]),
            bytes: vec![1, 2],
        }
    );
    let done = record_result_at(&mut store, file.item, text("/d/results/a.png"), text("2024-05-01T11:00:00Z")).unwrap();
    named.status = text("completed");
    named.stored_path = text("/d/results/a.png");
    named.error = None;
    named.finished_at = text("2024-05-01T11:00:00Z");
    named.duration_seconds = Some(3600);
    assert_eq!(done, named);
    assert_eq!(store.data.history, vec![named]);
    assert_eq!(
        download_result(&store, "a", true),
        Ok(Download {
            id: text("a"),
            source: text("/d/results/a.png"),
            dir: below(BaseDir::Downloads, &[]),
            ext: text("png"),
        })
    );
}

#[test]
fn completing_keeps_the_task_id_without_a_new_one() {
    let mut known = item("a", "pending");
    known.task_id = Some(text("t"));
    let store = store_with(vec![known.clone()]);
    assert_eq!(complete_history_with_bytes(&store, "a", None, vec![]).unwrap().item, known);
    assert_eq!(complete_history_with_bytes(&store, "b", None, vec![]), Err(text("历史记录不存在")));
}

#[test]
fn recording_a_result_for_a_forgotten_item() {
    let mut store = store_with(vec![]);
    let file = store_result(&store, item("a", "pending"), vec![3]);
    assert_eq!(file.path, below(BaseDir::AppData, &["results", "a.png"]));
    assert_eq!(record_result(&mut store, file.item, text("p")), Err(text("历史记录不存在")));
    assert!(store.data.history.is_empty());
}

#[test]
fn replacing_an_item() {
    let mut store = store_with(vec![item("a", "x"), item("b", "x")]);
    assert_eq!(replace_item(&mut store, item("b", "y")), Ok(item("b", "y")));
    assert_eq!(store.data.history, vec![item("a", "x"), item("b", "y")]);
}

#[test]
fn accepted_items_are_asked_after() {
    let mut store = store_with(vec![item("a", "pending"), item("b", "pending"), item("c", "failed")]);
    assert_eq!(pending_task_ids(&store), Vec::<String>::new());
    let mut accepted = item("b", "pending");
    accepted.task_id = Some(text("t"));
    accepted.error = None;
    assert_eq!(accept_task(&mut store, "b", text("t")), Ok(accepted));
    assert_eq!(pending_task_ids(&store), vec![text("b")]);
    accept_task(&mut store, "c", text("u")).unwrap();
    assert_eq!(pending_task_ids(&store), vec![text("b")]);
    accept_task(&mut store, "a", text("v")).unwrap();
    assert_eq!(pending_task_ids(&store), vec![text("a"), text("b")]);
    assert_eq!(accept_task(&mut store, "z", text("t")), Err(text("历史记录不存在")));
}

#[test]
fn downloads_need_a_completed_item() {
    let mut done = item("a", "completed");
    let store = store_with(vec![done.clone(), item("b", "pending")]);
    assert_eq!(download_result(&store, "c", true), Err(text("历史记录不存在")));
    assert_eq!(download_result(&store, "b", true), Err(text("图片尚未生成完成")));
    assert_eq!(download_result(&store, "a", true), Err(text("图片尚未生成完成")));
    done.stored_path = text("/x.y/image.JPG");
    let store = store_with(vec![done]);
    let d = download_result(&store, "a", false).unwrap();
    assert_eq!(d.dir, below(BaseDir::AppData, &["downloads"]));
    assert_eq!(d.ext, "JPG");
    assert_eq!(d.source, "/x.y/image.JPG");
}

#[test]
fn downloads_without_an_extension_are_png() {
    for (path, ext) in [("/a/b", "png"), ("/a/.hidden", "png"), ("/a/b.", "png"), ("/a/b.c.d", "d"), ("x.webp", "webp"),
        ("/a.b/c", "png"), ("/a/b.gif/", "gif"), ("/a/b.gif/.", "gif"), ("/a/..", "png"), ("...", "png"), ("..a", "a")] {
        let found = std::path::Path::new(path).extension().and_then(|e| e.to_str()).filter(|e| !e.is_empty());
        assert_eq!(found.unwrap_or("png"), ext, "{path}");
        let mut done = item("a", "completed");
        done.stored_path = text(path);
        assert_eq!(download_result(&store_with(vec![done]), "a", true).unwrap().ext, ext, "{path}");
    }
    assert_eq!(download_extension(None), "png");
    assert_eq!(download_extension(Some(text(""))), "png");
    assert_eq!(download_extension(Some(text("gif"))), "gif");
}

#[test]
fn reference_images_are_placed_by_id() {
    let store = store_with(vec![]);
    let input = |bytes: Vec<u8>| ImageInput { file_name: text("Cat.JPEG"), mime: text("image/jpeg"), bytes };
    assert_eq!(place_reference(&store, input(vec![]), text("ref_1")), Err(text("图片为空")));
    assert_eq!(save_reference_image(&store, input(vec![])), Err(text("图片为空")));
    let file = place_reference(&store, input(vec![7, 8, 9]), text("ref_1")).unwrap();
    assert_eq!(file.dir, below(BaseDir::AppData, &["references"]));
    assert_eq!(file.path, below(BaseDir::AppData, &["references", "ref_1.jpg"]));
    assert_eq!(file.input, input(vec![7, 8, 9]));
    assert_eq!(
        describe_reference(file, text("/s"), text("now")),
        ReferenceImage {
            id: text("ref_1"),
            name: text("Cat.JPEG"),
            mime: text("image/jpeg"),
            size_bytes: 3,
            stored_path: text("/s"),
            created_at: text("now"),
        }
    );
}

#[test]
fn reference_images_get_new_ids() {
    let store = store_with(vec![]);
    let input = ImageInput { file_name: text("a"), mime: text("image/webp"), bytes: vec![1] };
    let file = save_reference_image(&store, input).unwrap();
    assert!(file.id.starts_with("ref_"));
    assert_eq!(file.id.len(), 36);
    assert_eq!(file.path, below(BaseDir::AppData, &["references", &format!("{}.webp", file.id)]));
    let id = file.id.clone();
    let image = record_reference(file, text("/s"));
    assert_eq!(image.id, id);
    assert!(chrono::DateTime::parse_from_rfc3339(&image.created_at).is_ok());
}

#[test]
fn the_state_stays_where_it_is() {
    let mut store = store_with(vec![item("a", "pending")]);
    let settings = store.data.settings.clone();
    generate_image(&mut store, "p", text("s"), vec![]).unwrap();
    fail_history(&mut store, "a", text("e")).unwrap();
    assert_eq!(store.data.settings, settings);
    assert_eq!(store.state_path, AppStore::state_file());
    assert_eq!(AppStore::state_file(), below(BaseDir::AppData, &["state.json"]));
}

#[test]
fn the_times_that_are_written_can_be_read() {
    let mut store = store_with(vec![]);
    let queued = generate_image(&mut store, "p", text("s"), vec![]).unwrap().item;
    let failed = fail_history(&mut store, &queued.id, text("e")).unwrap();
    let start = chrono::DateTime::parse_from_rfc3339(&failed.created_at).unwrap();
    let finish = chrono::DateTime::parse_from_rfc3339(&failed.finished_at).unwrap();
    assert!(start <= finish);
    assert_eq!(failed.duration_seconds, Some((finish - start).num_seconds() as u64));
    assert_eq!(image_lab::time::elapsed_seconds("2000-01-01T00:00:00+00:00", &failed.finished_at) > 0, true);
}
