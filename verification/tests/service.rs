use image_lab::encoding::{can_encode, decode_base64, read_refs_base64};
use image_lab::download::download_result;
use image_lab::history::{pending_task_ids, record_result, store_result, ResultFile};
use image_lab::http::{generation_reply, query_reply, url_below, HttpReply};
use image_lab::json::{
    extract_image_bytes, extract_status, extract_task_id, failure_message, find_image, find_status, inline_image,
    no_image_message, not_json_message, parse_json, task_state, ImageField, ImageSource, Json, Payload, TaskState,
};
use image_lab::model::{HistoryItem, ProviderConfig};
use image_lab::paths::{BaseDir, FilePath};
use image_lab::query::{query_answer, query_image_task_inner, query_payload, query_state, QueryStep};
use image_lab::store::AppStore;
use image_lab::submit::{
    after_submit, can_submit, form_file_name, generation_fields, no_task_id_message, read_submit_payload, submit_answer,
    submit_generation, submit_json_generation, submit_openai_edits, FieldValue, FormFile, SubmitKind, SubmitReply,
    SubmitRequest, SubmitResult, SubmitStep,
};

fn text(s: &str) -> String {
    s.to_string()
}

fn payload(s: &str) -> Payload {
    parse_json(s, "u").unwrap()
}

fn value(s: &str) -> Json {
    payload(s).value
}

fn provider(adapter: &str) -> ProviderConfig {
    ProviderConfig {
        id: text("p"),
        name: text("P"),
        base_url: text(" https://x.test/v1// "),
        api_key: text(" key\n"),
        model: text(" m "),
        adapter: text(adapter),
    }
}

fn item(id: &str, status: &str, task_id: Option<&str>) -> HistoryItem {
    HistoryItem {
        id: text(id),
        prompt: text("p"),
        size: text("s"),
        provider_name: text("P"),
        adapter: text("a"),
        reference_paths: vec![],
        status: text(status),
        task_id: task_id.map(text),
        stored_path: text(""),
        error: None,
        created_at: text("2024-05-01T10:00:00Z"),
        finished_at: text(""),
        duration_seconds: None,
    }
}

fn store_with(history: Vec<HistoryItem>) -> AppStore {
    let mut store = AppStore::load(None);
    store.data.settings.providers.push(provider("sync_generations"));
    store.data.history = history;
    store
}

fn result_file(item: HistoryItem, bytes: Vec<u8>) -> ResultFile {
    let names = vec![text("results"), format!("{}.png", item.id)];
    ResultFile {
        item,
        dir: FilePath { base: BaseDir::AppData, names: vec![text("results")] },
        path: FilePath { base: BaseDir::AppData, names },
        bytes,
    }
}

#[test]
fn json_is_read_as_it_stands() {
    assert_eq!(
        value(r#"{"b":[1,-2.50,null],"a":{"x":true,"y":"é\n"}}"#),
        Json::Object(vec![
            (text("a"), Json::Object(vec![(text("x"), Json::Bool(true)), (text("y"), Json::Text(text("é\n")))])),
            (text("b"), Json::Array(vec![Json::Number(text("1")), Json::Number(text("-2.5")), Json::Null])),
        ])
    );
    assert_eq!(payload(" \"a\" "), Payload { value: Json::Text(text("a")), compact: text("\"a\"") });
}

#[test]
fn what_is_no_json_is_reported() {
    let fault = serde_json::from_str::<serde_json::Value>("<html>").unwrap_err().to_string();
    assert_eq!(parse_json("<html>", "https://u"), Err(format!("https://u 返回非 JSON：{fault}；<html>")));
    assert_eq!(not_json_message("t", "u", "f"), "u 返回非 JSON：f；t");
    let long = "x".repeat(301);
    let told = parse_json(&long, "u").unwrap_err();
    assert!(told.ends_with(&format!("；{}...", "x".repeat(300))));
}

#[test]
fn task_ids_are_found_in_their_order() {
    let id = |s: &str| extract_task_id(&value(s));
    assert_eq!(id(r#"{"id":"c","taskId":"b","task_id":"a"}"#), Some(text("a")));
    assert_eq!(id(r#"{"id":"c","taskId":"b","task_id":""}"#), Some(text("b")));
    assert_eq!(id(r#"{"id":"c","taskId":5}"#), Some(text("c")));
    assert_eq!(id(r#"{"id":1,"data":{"id":"d"}}"#), Some(text("d")));
    assert_eq!(id(r#"{"data":[{"taskId":"e"},{"task_id":"f"}]}"#), Some(text("e")));
    assert_eq!(id(r#"{"data":[]}"#), None);
    assert_eq!(id(r#"{"data":"x"}"#), None);
    assert_eq!(id(r#"["id"]"#), None);
    assert_eq!(id(r#"{"data":[{"x":1},{"task_id":"f"}]}"#), None);
}

#[test]
fn the_status_is_lowered() {
    let status = |s: &str| extract_status(&value(s));
    assert_eq!(status(r#"{"status":"COMPLETED"}"#), Some(text("completed")));
    assert_eq!(status(r#"{"task_status":"Été"}"#), Some(text("été")));
    assert_eq!(status(r#"{"data":{"status":"A"},"task_status":"B"}"#), Some(text("b")));
    assert_eq!(status(r#"{"data":{"task_status":"C"}}"#), Some(text("c")));
    assert_eq!(status(r#"{"data":{"task_status":"C","status":"D"}}"#), Some(text("d")));
    assert_eq!(status(r#"{"status":1,"task_status":"B"}"#), None);
    assert_eq!(status(r#"{"data":[{"status":"A"}]}"#), None);
    assert_eq!(status("3"), None);
    assert_eq!(find_status(&value(r#"{"status":"Done"}"#)), Some("Done"));
}

#[test]
fn the_words_for_the_state_of_a_task() {
    let state = |s: &str| task_state(&Some(text(s)));
    for s in ["failed", "error", "canceled", "cancelled"] {
        assert_eq!(state(s), TaskState::Failed);
    }
    for s in ["completed", "succeeded", "succeed", "success", "finished", "done"] {
        assert_eq!(state(s), TaskState::Completed);
    }
    for s in ["", "queued", "Done", "fail"] {
        assert_eq!(state(s), TaskState::Running);
    }
    assert_eq!(task_state(&None), TaskState::Running);
}

#[test]
fn failures_are_told_by_error_or_message() {
    let told = |s: &str| failure_message(&value(s));
    assert_eq!(told(r#"{"error":"e","message":"m"}"#), "e");
    assert_eq!(told(r#"{"message":"m"}"#), "m");
    assert_eq!(told(r#"{"error":{"code":1},"message":"m"}"#), "生成失败");
    assert_eq!(told("{}"), "生成失败");
}

#[test]
fn images_are_found_inline_or_at_an_address() {
    let image = |s: &str| find_image(&value(s));
    assert_eq!(image(r#"{"data":[{"b64_json":"QQ==","url":"u"}]}"#), ImageField::Base64(text("QQ==")));
    assert_eq!(image(r#"{"data":{"url":"u"}}"#), ImageField::Url(text("u")));
    assert_eq!(image(r#"{"url":"v","data":[{"b64_json":1}]}"#), ImageField::Url(text("v")));
    assert_eq!(image(r#"{"url":"v","data":[{"url":1}]}"#), ImageField::Missing);
    assert_eq!(image(r#"{"url":"v","data":[]}"#), ImageField::Url(text("v")));
    assert_eq!(image(r#"{"b64_json":"QQ=="}"#), ImageField::Base64(text("QQ==")));
    assert_eq!(image(r#"{"b64_json":"QQ==","data":null}"#), ImageField::Missing);
}

#[test]
fn images_are_decoded() {
    assert_eq!(
        extract_image_bytes(&payload(r#"{"data":[{"b64_json":"aGVsbG8="}]}"#)),
        Ok(ImageSource::Inline(b"hello".to_vec()))
    );
    assert_eq!(extract_image_bytes(&payload(r#"{"url":"v"}"#)), Ok(ImageSource::Remote(text("v"))));
    let told = extract_image_bytes(&payload(r#"{"b64_json":"a*"}"#)).unwrap_err();
    assert_eq!(told, "base64 解码失败：Invalid symbol 42, offset 1.");
    assert_eq!(inline_image(Ok(vec![1])), Ok(ImageSource::Inline(vec![1])));
    assert_eq!(inline_image(Err(text("f"))), Err(text("base64 解码失败：f")));
}

#[test]
fn an_answer_without_an_image_is_reported_compactly() {
    assert_eq!(
        extract_image_bytes(&payload("{ \"b\" : 1.0,\n \"a\" : [ 2 ] }")),
        Err(text("响应中未找到图片数据：{\"a\":[2],\"b\":1.0}"))
    );
    assert_eq!(no_image_message("{}"), "响应中未找到图片数据：{}");
}

#[test]
fn bytes_are_written_as_base64() {
    let files = vec![b"hello".to_vec(), vec![], vec![255, 254]];
    assert!(can_encode(&files));
    assert_eq!(read_refs_base64(&files), vec![text("aGVsbG8="), text(""), text("//4=")]);
}

#[test]
fn replies_are_judged_by_their_code() {
    let reply = |code: u16| HttpReply { code, status: text("502 Bad Gateway"), body: text("oops") };
    assert_eq!(generation_reply(reply(200)), Ok(text("oops")));
    assert_eq!(query_reply(reply(299)), Ok(text("oops")));
    assert_eq!(generation_reply(reply(502)), Err(text("图片生成失败 HTTP 502 Bad Gateway：oops")));
    assert_eq!(query_reply(reply(199)), Err(text("查询任务失败 HTTP 502 Bad Gateway：oops")));
    let long = HttpReply { code: 300, status: text("s"), body: "y".repeat(501) };
    assert_eq!(query_reply(long), Err(format!("查询任务失败 HTTP s：{}...", "y".repeat(500))));
}

#[test]
fn addresses_lie_below_the_base_address() {
    assert_eq!(url_below(" https://x.test/v1// ", "/images"), "https://x.test/v1/images");
    assert_eq!(url_below("https://x.test", "/images"), "https://x.test/images");
}

#[test]
fn the_fields_of_a_request() {
    let fields = |refs: Vec<String>, later: bool| generation_fields(&provider("a"), "cat", "1x1", refs, later);
    let common = || {
        vec![
            (text("model"), FieldValue::Text(text("m"))),
            (text("prompt"), FieldValue::Text(text("cat"))),
            (text("n"), FieldValue::Count(1)),
            (text("size"), FieldValue::Text(text("1x1"))),
            (text("response_format"), FieldValue::Text(text("url"))),
        ]
    };
    assert_eq!(fields(vec![], false), common());
    let mut one = common();
    one.push((text("async"), FieldValue::Flag(true)));
    one.push((text("image"), FieldValue::Text(text("r"))));
    assert_eq!(fields(vec![text("r")], true), one);
    let mut two = common();
    two.push((text("images"), FieldValue::Texts(vec![text("r"), text("s")])));
    assert_eq!(fields(vec![text("r"), text("s")], false), two);
}

#[test]
fn json_requests() {
    let body = "{\"async\":true,\"image\":\"aGVsbG8=\",\"model\":\"m\",\"n\":1,\"prompt\":\"a \\\"cat\\\"\",\
        \"response_format\":\"url\",\"size\":\"1x1\"}";
    let sent = submit_generation(&provider("anything"), "a \"cat\"", "1x1", &vec![text("/r")], vec![b"hello".to_vec()]);
    assert_eq!(sent.kind(), SubmitKind::Async);
    assert_eq!(
        sent,
        SubmitRequest::Json {
            url: text("https://x.test/v1/images/generations"),
            token: text("key"),
            body: text(body),
            async_mode: true,
        }
    );
    let sent = submit_json_generation(&provider("x"), "c", "s", &vec![vec![1], vec![2]], false);
    assert_eq!(
        sent,
        SubmitRequest::Json {
            url: text("https://x.test/v1/images/generations"),
            token: text("key"),
            body: text(
                "{\"images\":[\"AQ==\",\"Ag==\"],\"model\":\"m\",\"n\":1,\"prompt\":\"c\",\"response_format\":\"url\",\
                 \"size\":\"s\"}",
            ),
            async_mode: false,
        }
    );
    assert_eq!(submit_generation(&provider("sync_generations"), "c", "s", &vec![], vec![]).kind(), SubmitKind::Sync);
    assert_eq!(submit_generation(&provider("openai_edits"), "c", "s", &vec![], vec![]).kind(), SubmitKind::Async);
}

#[test]
fn form_requests() {
    let paths = vec![text("/tmp/a.png"), text("/tmp/..")];
    let contents = vec![vec![1, 2], vec![3]];
    let sent = submit_generation(&provider("openai_edits"), "c", "s", &paths, contents.clone());
    assert_eq!(sent.kind(), SubmitKind::Form);
    assert_eq!(sent, submit_openai_edits(&provider("x"), "c", "s", &paths, contents));
    assert_eq!(
        sent,
        SubmitRequest::Form {
            url: text("https://x.test/v1/images/edits"),
            token: text("key"),
            fields: vec![
                (text("model"), text("m")),
                (text("prompt"), text("c")),
                (text("size"), text("s")),
                (text("n"), text("1")),
                (text("response_format"), text("b64_json")),
            ],
            files: vec![
                FormFile { name: text("image[]"), file_name: text("a.png"), bytes: vec![1, 2] },
                FormFile { name: text("image[]"), file_name: text("image.png"), bytes: vec![3] },
            ],
        }
    );
    assert_eq!(form_file_name(None), "image.png");
    assert_eq!(form_file_name(Some(text("b"))), "b");
}

#[test]
fn answers_to_requests() {
    let answer = |kind: SubmitKind, s: &str| read_submit_payload(kind, &payload(s));
    assert_eq!(
        answer(SubmitKind::Async, r#"{"task_id":"t","url":"u"}"#),
        Ok(SubmitReply { task_id: Some(text("t")), image: None })
    );
    assert_eq!(
        answer(SubmitKind::Async, "{ \"x\": 1 }"),
        Err(text("异步提交成功但响应中没有 task id：{\"x\":1}"))
    );
    assert_eq!(no_task_id_message("c"), "异步提交成功但响应中没有 task id：c");
    assert_eq!(
        answer(SubmitKind::Sync, r#"{"task_id":"t","url":"u"}"#),
        Ok(SubmitReply { task_id: None, image: Some(ImageSource::Remote(text("u"))) })
    );
    assert_eq!(
        answer(SubmitKind::Form, r#"{"id":"t","data":[{"b64_json":"AQ=="}]}"#),
        Ok(SubmitReply { task_id: Some(text("t")), image: Some(ImageSource::Inline(vec![1])) })
    );
    assert_eq!(answer(SubmitKind::Form, "{}"), Err(text("响应中未找到图片数据：{}")));
    assert_eq!(answer(SubmitKind::Sync, "[]"), Err(text("响应中未找到图片数据：[]")));
    assert!(submit_answer(SubmitKind::Sync, "https://u", "no").unwrap_err().starts_with("https://u 返回非 JSON："));
    assert_eq!(
        submit_answer(SubmitKind::Async, "u", r#"{"id":"t"}"#),
        Ok(SubmitReply { task_id: Some(text("t")), image: None })
    );
}

#[test]
fn a_request_that_failed_marks_the_item() {
    let mut store = store_with(vec![item("a", "pending", None)]);
    match after_submit(&mut store, "a", Err(text("e"))) {
        SubmitStep::Failed(Ok(i)) => assert_eq!((i.status.as_str(), i.error), ("failed", Some(text("e")))),
        other => panic!("{other:?}"),
    }
    assert_eq!(store.data.history[0].status, "failed");
    match after_submit(&mut store, "a", Ok(SubmitResult { task_id: None, bytes: None })) {
        SubmitStep::Failed(Ok(i)) => assert_eq!(i.error, Some(text("异步提交成功但响应中没有 task id"))),
        other => panic!("{other:?}"),
    }
    assert_eq!(
        after_submit(&mut store, "b", Err(text("e"))),
        SubmitStep::Failed(Err(text("历史记录不存在")))
    );
}

#[test]
fn a_request_that_was_answered_is_written() {
    let mut store = store_with(vec![item("a", "pending", None)]);
    let outcome = || Ok(SubmitResult { task_id: Some(text("t")), bytes: Some(vec![9]) });
    assert_eq!(
        after_submit(&mut store, "a", outcome()),
        SubmitStep::Write(result_file(item("a", "pending", Some("t")), vec![9]))
    );
    assert_eq!(after_submit(&mut store, "b", outcome()), SubmitStep::Lost(text("历史记录不存在")));
    assert_eq!(store.data.history, vec![item("a", "pending", None)]);
}

#[test]
fn a_request_that_was_accepted_is_noted() {
    let mut store = store_with(vec![item("a", "pending", None)]);
    let outcome = || Ok(SubmitResult { task_id: Some(text("t")), bytes: None });
    assert_eq!(after_submit(&mut store, "a", outcome()), SubmitStep::Accepted(Ok(item("a", "pending", Some("t")))));
    assert_eq!(store.data.history, vec![item("a", "pending", Some("t"))]);
    assert_eq!(after_submit(&mut store, "b", outcome()), SubmitStep::Accepted(Err(text("历史记录不存在"))));
}

#[test]
fn questions_begin_with_the_item() {
    let mut store = store_with(vec![
        item("a", "pending", Some("t 1")),
        item("b", "completed", None),
        item("c", "pending", None),
    ]);
    assert_eq!(query_image_task_inner(&mut store, "x"), QueryStep::Refused(text("历史记录不存在")));
    assert_eq!(
        query_image_task_inner(&mut store, "a"),
        QueryStep::Ask {
            item: item("a", "pending", Some("t 1")),
            url: text("https://x.test/v1/images/t 1"),
            token: text("key"),
        }
    );
    assert_eq!(query_image_task_inner(&mut store, "b"), QueryStep::Unchanged(item("b", "completed", None)));
    match query_image_task_inner(&mut store, "c") {
        QueryStep::Changed(Ok(i)) => assert_eq!(i.error, Some(text("历史记录缺少 task id"))),
        other => panic!("{other:?}"),
    }
    assert_eq!(store.data.history[2].status, "failed");
}

#[test]
fn questions_fall_back_on_the_first_provider() {
    let mut lost = item("a", "pending", Some("t"));
    lost.provider_name = text("gone");
    let mut store = store_with(vec![lost.clone()]);
    assert_eq!(
        query_image_task_inner(&mut store, "a"),
        QueryStep::Ask { item: lost, url: text("https://geekai.co/api/v1/images/t"), token: text("") }
    );
    store.data.settings.providers.clear();
    assert_eq!(query_image_task_inner(&mut store, "a"), QueryStep::Refused(text("未配置 Provider")));
}

#[test]
fn answers_to_questions() {
    let pending = || item("a", "pending", Some("t"));
    let mut store = store_with(vec![pending()]);
    assert_eq!(
        query_answer(&mut store, pending(), "u", r#"{"status":"running"}"#),
        QueryStep::Unchanged(pending())
    );
    assert_eq!(
        query_answer(&mut store, pending(), "u", r#"{"status":"SUCCESS","url":"v"}"#),
        QueryStep::Fetch { item: pending(), url: text("v") }
    );
    assert_eq!(
        query_answer(&mut store, pending(), "u", r#"{"status":"done","b64_json":"AQI="}"#),
        QueryStep::Write(result_file(pending(), vec![1, 2]))
    );
    assert_eq!(
        query_answer(&mut store, pending(), "u", r#"{"status":"done"}"#),
        QueryStep::Refused(text("响应中未找到图片数据：{\"status\":\"done\"}"))
    );
    match query_answer(&mut store, pending(), "https://u", "") {
        QueryStep::Refused(e) => assert!(e.starts_with("https://u 返回非 JSON：")),
        other => panic!("{other:?}"),
    }
    assert_eq!(store.data.history, vec![pending()]);
    match query_answer(&mut store, pending(), "u", r#"{"data":{"status":"Cancelled"},"message":"m"}"#) {
        QueryStep::Changed(Ok(i)) => assert_eq!((i.status.as_str(), i.error), ("failed", Some(text("m")))),
        other => panic!("{other:?}"),
    }
    assert_eq!(store.data.history[0].status, "failed");
}

#[test]
fn answers_by_state() {
    let pending = || item("a", "pending", Some("t"));
    let mut store = store_with(vec![]);
    let p = payload(r#"{"status":"x","url":"v"}"#);
    assert_eq!(query_payload(&mut store, pending(), &p), QueryStep::Unchanged(pending()));
    assert_eq!(
        query_state(&mut store, pending(), &p, TaskState::Completed),
        QueryStep::Fetch { item: pending(), url: text("v") }
    );
    assert_eq!(
        query_state(&mut store, pending(), &p, TaskState::Failed),
        QueryStep::Changed(Err(text("历史记录不存在")))
    );
}

#[test]
fn files_are_named_as_std_reads_their_paths() {
    for path in [
        "a.png", "/a/b.png", "a/b/", "a/b//", "a/.", "a/./.", ".", "..", "a/..", "a/../.", "", "/", "./", "a/.b", "...",
        "a/b.", "x y/中.jpg", "a/./b", "C:a.png", "C:\\x\\a.png", "1:x", "//s/t/a.png", "//s/t", "\\\\?\\C:\\a/b.png",
    ] {
        let expected = std::path::Path::new(path).file_name().and_then(|n| n.to_str()).unwrap_or("image.png");
        match submit_openai_edits(&provider("x"), "c", "s", &vec![text(path)], vec![vec![0]]) {
            SubmitRequest::Form { files, .. } => assert_eq!(files[0].file_name, expected, "{path}"),
            other => panic!("{other:?}"),
        }
    }
}

#[test]
fn requests_need_a_file_for_each_path() {
    assert!(can_submit(&provider("openai_edits"), &vec![text("a")], &vec![vec![1]]));
    assert!(can_submit(&provider("sync_generations"), &vec![], &vec![]));
    assert!(!can_submit(&provider("openai_edits"), &vec![text("a")], &vec![]));
    assert!(!can_submit(&provider("x"), &vec![], &vec![vec![1]]));
}

#[test]
fn an_accepted_request_is_asked_after() {
    let mut store = store_with(vec![item("b", "failed", None), item("a", "pending", None)]);
    after_submit(&mut store, "a", Ok(SubmitResult { task_id: Some(text("t")), bytes: None }));
    assert_eq!(pending_task_ids(&store), vec![text("a")]);
    match query_image_task_inner(&mut store, "a") {
        QueryStep::Ask { item, url, token } => {
            assert_eq!((item.id.as_str(), url.as_str(), token.as_str()), ("a", "https://x.test/v1/images/t", "key"));
        }
        other => panic!("{other:?}"),
    }
}

#[test]
fn an_answered_request_can_be_downloaded() {
    let mut store = store_with(vec![item("a", "pending", Some("t"))]);
    let answer = r#"{"status":"Succeeded","data":[{"b64_json":"AQI="}]}"#;
    match query_answer(&mut store, item("a", "pending", Some("t")), "u", answer) {
        QueryStep::Write(file) => {
            assert_eq!(file.bytes, vec![1, 2]);
            let done = record_result(&mut store, file.item, text("/d/a.png")).unwrap();
            assert_eq!(done.status, "completed");
        }
        other => panic!("{other:?}"),
    }
    let download = download_result(&store, "a", true).unwrap();
    assert_eq!((download.source.as_str(), download.ext.as_str()), ("/d/a.png", "png"));
    assert!(pending_task_ids(&store).is_empty());
    assert_eq!(query_image_task_inner(&mut store, "a"), QueryStep::Unchanged(store.data.history[0].clone()));
}

#[test]
fn an_image_that_is_sent_at_once_can_be_downloaded() {
    let mut store = store_with(vec![item("a", "pending", None)]);
    match after_submit(&mut store, "a", Ok(SubmitResult { task_id: Some(text("t")), bytes: Some(vec![7]) })) {
        SubmitStep::Write(file) => {
            record_result(&mut store, file.item, text("/d/a.webp")).unwrap();
        }
        other => panic!("{other:?}"),
    }
    assert_eq!(download_result(&store, "a", false).unwrap().ext, "webp");
    assert_eq!(store.data.history[0].task_id, Some(text("t")));
}

#[test]
fn base64_is_read_back_and_nothing_else_is_read() {
    for n in 0..40u8 {
        let bytes: Vec<u8> = (0..n).map(|i| i.wrapping_mul(37).wrapping_add(n)).collect();
        let written = read_refs_base64(&vec![bytes.clone()]);
        assert_eq!(written[0].len(), (bytes.len() + 2) / 3 * 4);
        assert_eq!(decode_base64(&written[0]), Ok(bytes));
    }
    assert_eq!(decode_base64("//4="), Ok(vec![255, 254]));
    assert_eq!(decode_base64("+w=="), Ok(vec![251]));
    assert_eq!(decode_base64("+w"), Err(text("Invalid padding")));
    assert_eq!(decode_base64("+x=="), Err(text("Invalid last symbol 120, offset 1.")));
    assert_eq!(decode_base64("+w==\n"), Err(text("Invalid symbol 10, offset 4.")));
    assert_eq!(decode_base64("A"), Err(text("Invalid input length: 1")));
    assert_eq!(decode_base64("_w=="), Err(text("Invalid symbol 95, offset 0.")));
}

#[test]
fn a_fetched_image_can_be_downloaded() {
    let mut store = store_with(vec![item("b", "pending", None), item("a", "pending", Some("t"))]);
    let settings = store.data.settings.clone();
    let answer = r#"{"status":"done","data":{"url":"https://x.test/i"}}"#;
    match query_answer(&mut store, item("a", "pending", Some("t")), "u", answer) {
        QueryStep::Fetch { item, url } => {
            assert_eq!(url, "https://x.test/i");
            let file = store_result(&store, item, vec![5, 6]);
            assert_eq!(file.bytes, vec![5, 6]);
            record_result(&mut store, file.item, text("/d/a.png")).unwrap();
        }
        other => panic!("{other:?}"),
    }
    assert_eq!(download_result(&store, "a", true).unwrap().source, "/d/a.png");
    assert_eq!(store.data.settings, settings);
    assert_eq!(store.data.history.len(), 2);
    assert_eq!(store.data.history[0], item("b", "pending", None));
}

#[test]
fn a_submission_leaves_the_other_items_alone() {
    let mut store = store_with(vec![item("b", "pending", None), item("a", "pending", None), item("a", "x", None)]);
    after_submit(&mut store, "a", Err(text("e")));
    assert_eq!(store.data.history[0], item("b", "pending", None));
    assert_eq!(store.data.history[1].status, "failed");
    assert_eq!(store.data.history[2], item("a", "x", None));
}

#[test]
fn the_body_holds_every_field() {
    let refs = vec![vec![1], vec![2]];
    match submit_json_generation(&provider("x"), "a \"b\"", "s", &refs, true) {
        SubmitRequest::Json { body, .. } => {
            let sent = value(&body);
            assert_eq!(sent.get("model"), Some(&Json::Text(text("m"))));
            assert_eq!(sent.get("prompt"), Some(&Json::Text(text("a \"b\""))));
            assert_eq!(sent.get("n"), Some(&Json::Number(text("1"))));
            assert_eq!(sent.get("size"), Some(&Json::Text(text("s"))));
            assert_eq!(sent.get("response_format"), Some(&Json::Text(text("url"))));
            assert_eq!(sent.get("async"), Some(&Json::Bool(true)));
            assert_eq!(
                sent.get("images"),
                Some(&Json::Array(vec![Json::Text(text("AQ==")), Json::Text(text("Ag=="))]))
            );
            assert_eq!(sent.get("image"), None);
        }
        other => panic!("{other:?}"),
    }
}
