//! Handing a request to a service: what to send, and what to make of the answer.
//!
//! [`submit_generation`] says what to send. Its reply goes to [`submit_answer`], and what comes out
//! of that, with the image downloaded if need be, to [`after_submit`].

use crate::encoding::{all_encodable, base64_texts, can_encode, read_refs_base64};
use crate::history::{
    accept_task, accepted_item, complete_history_with_bytes, fail_history, fails, first_item, has_item, item_index,
    item_of, replaces, unknown_item, with_task_id, ResultFile,
};
use crate::http::{service_url, url_below};
use crate::json::{
    compact_json, extract_image_bytes, extract_task_id, image_in, json_held, json_read, json_text, not_json, parse_json,
    task_id_in, ImageSource, JsonView, Payload,
};
use crate::laws::names::plain_paths_have_one_name;
use crate::laws::questions::request_fields_are_distinct;
use crate::model::{text_if_any, texts, HistoryItem, ProviderConfig, ProviderView};
use crate::paths::{can_be_name, last_name, may_be_verbatim, path_file_name, reads_alike};
use crate::store::{AppStore, StoreView};
use crate::text::{decimal, joined, occurs_in, same_text, trim, trimmed, truncate, truncated};
use vstd::prelude::*;

verus! {

/// The value of a field of a request.
#[derive(Debug, PartialEq)]
pub enum FieldValue {
    Text(String),
    Count(u64),
    Flag(bool),
    Texts(Vec<String>),
}

/// What a [`FieldValue`] holds.
pub enum FieldView {
    Text(Seq<char>),
    Count(u64),
    Flag(bool),
    Texts(Seq<Seq<char>>),
}

impl View for FieldValue {
    type V = FieldView;

    open spec fn view(&self) -> FieldView {
        match self {
            FieldValue::Text(s) => FieldView::Text(s@),
            FieldValue::Count(n) => FieldView::Count(*n),
            FieldValue::Flag(b) => FieldView::Flag(*b),
            FieldValue::Texts(v) => FieldView::Texts(texts(v@)),
        }
    }
}

/// What a list of fields holds.
pub open spec fn fields_view(fields: Seq<(String, FieldValue)>) -> Seq<(Seq<char>, FieldView)> {
    fields.map_values(|f: (String, FieldValue)| (f.0@, f.1@))
}

/// The value of a field, as JSON.
pub open spec fn field_json(f: FieldView) -> JsonView {
    match f {
        FieldView::Text(s) => JsonView::Text(s),
        FieldView::Count(n) => JsonView::Number(decimal(n as nat)),
        FieldView::Flag(b) => JsonView::Bool(b),
        FieldView::Texts(v) => JsonView::Array(v.map_values(|s: Seq<char>| JsonView::Text(s))),
    }
}

/// Fields, as JSON.
pub open spec fn fields_json(fields: Seq<(Seq<char>, FieldView)>) -> Seq<(Seq<char>, JsonView)> {
    fields.map_values(|f: (Seq<char>, FieldView)| (f.0, field_json(f.1)))
}

/// Whether no two of `fields` have the same name.
pub open spec fn are_distinct(fields: Seq<(Seq<char>, FieldView)>) -> bool {
    forall|i: int, j: int| 0 <= i < j < fields.len() ==> (#[trigger] fields[i]).0 != (#[trigger] fields[j]).0
}

/// Whether `v` is an object with the fields `fields`, each once, in some order.
pub open spec fn is_object_of(v: JsonView, fields: Seq<(Seq<char>, FieldView)>) -> bool {
    v matches JsonView::Object(held) && held.to_multiset() == fields_json(fields).to_multiset()
}

/// Collecting into a `serde_json::Map` makes an object that holds the given fields, where each value
/// is that of `serde_json::Value::from`. In which order the object holds them is for the features of
/// `serde_json` to say, so it is left open.
#[verifier::external_body]
pub(crate) fn object_value(fields: &Vec<(String, FieldValue)>) -> (r: serde_json::Value)
    requires
        are_distinct(fields_view(fields@)),
    ensures
        is_object_of(json_held(r), fields_view(fields@)),
{
    let object: serde_json::Map<String, serde_json::Value> = fields.iter().map(|f| (f.0.clone(), match &f.1 {
        FieldValue::Text(s) => serde_json::Value::from(s.as_str()),
        FieldValue::Count(n) => serde_json::Value::from(*n),
        FieldValue::Flag(b) => serde_json::Value::from(*b),
        FieldValue::Texts(v) => serde_json::Value::from(v.as_slice()),
    })).collect();
    serde_json::Value::Object(object)
}

/// Whether `text` is the JSON text of an object with the fields `fields`, each once, in some order.
pub open spec fn is_object_text(text: Seq<char>, fields: Seq<(Seq<char>, FieldView)>) -> bool {
    exists|v: JsonView| #[trigger] is_object_of(v, fields) && text == json_text(v)
}

/// The fields of a request for an image, where `refs` are the reference images.
pub open spec fn request_fields(
    provider: ProviderView,
    prompt: Seq<char>,
    size: Seq<char>,
    refs: Seq<Seq<char>>,
    async_mode: bool,
) -> Seq<(Seq<char>, FieldView)> {
    let common = seq![
        ("model"@, FieldView::Text(trimmed(provider.model))),
        ("prompt"@, FieldView::Text(prompt)),
        ("n"@, FieldView::Count(1)),
        ("size"@, FieldView::Text(size)),
        ("response_format"@, FieldView::Text("url"@)),
    ];
    let timed = if async_mode {
        common.push(("async"@, FieldView::Flag(true)))
    } else {
        common
    };
    if refs.len() == 0 {
        timed
    } else if refs.len() == 1 {
        timed.push(("image"@, FieldView::Text(refs[0])))
    } else {
        timed.push(("images"@, FieldView::Texts(refs)))
    }
}

/// The fields of a request for an image, where `refs` are the reference images.
pub fn generation_fields(
    provider: &ProviderConfig,
    prompt: &str,
    size: &str,
    refs: Vec<String>,
    async_mode: bool,
) -> (r: Vec<(String, FieldValue)>)
    ensures
        fields_view(r@) == request_fields(provider@, prompt@, size@, texts(refs@), async_mode),
{
    let mut r: Vec<(String, FieldValue)> = Vec::new();
    r.push(("model".to_string(), FieldValue::Text(trim(provider.model.as_str()).to_string())));
    r.push(("prompt".to_string(), FieldValue::Text(prompt.to_string())));
    r.push(("n".to_string(), FieldValue::Count(1)));
    r.push(("size".to_string(), FieldValue::Text(size.to_string())));
    r.push(("response_format".to_string(), FieldValue::Text("url".to_string())));
    if async_mode {
        r.push(("async".to_string(), FieldValue::Flag(true)));
    }
    if refs.len() == 1 {
        r.push(("image".to_string(), FieldValue::Text(refs[0].clone())));
    } else if refs.len() > 0 {
        r.push(("images".to_string(), FieldValue::Texts(refs)));
    }
    assert(fields_view(r@) =~= request_fields(provider@, prompt@, size@, texts(refs@), async_mode));
    r
}

/// A file in a form.
#[derive(Debug, PartialEq)]
pub struct FormFile {
    /// The name of the field that carries the file.
    pub name: String,
    pub file_name: String,
    pub bytes: Vec<u8>,
}

/// What to send to a service.
#[derive(Debug, PartialEq)]
pub enum SubmitRequest {
    /// Post `body`, which is JSON.
    Json { url: String, token: String, body: String, async_mode: bool },
    /// Post a form with the texts `fields` and the files `files`.
    Form { url: String, token: String, fields: Vec<(String, String)>, files: Vec<FormFile> },
}

/// Says what to send for a JSON request, where `contents` are the reference files.
pub fn submit_json_generation(
    provider: &ProviderConfig,
    prompt: &str,
    size: &str,
    contents: &Vec<Vec<u8>>,
    async_mode: bool,
) -> (r: SubmitRequest)
    requires
        all_encodable(contents@),
    ensures
        is_json_request(r, provider@, prompt@, size@, base64_texts(contents@), async_mode),
{
    let fields = generation_fields(provider, prompt, size, read_refs_base64(contents), async_mode);
    proof {
        request_fields_are_distinct(provider@, prompt@, size@, base64_texts(contents@), async_mode);
    }
    SubmitRequest::Json {
        url: url_below(provider.base_url.as_str(), "/images/generations"),
        token: trim(provider.api_key.as_str()).to_string(),
        body: compact_json(&object_value(&fields)),
        async_mode,
    }
}

/// Whether `r` is the JSON request for an image, where `refs` are the reference images.
pub open spec fn is_json_request(
    r: SubmitRequest,
    provider: ProviderView,
    prompt: Seq<char>,
    size: Seq<char>,
    refs: Seq<Seq<char>>,
    async_mode: bool,
) -> bool {
    &&& r matches SubmitRequest::Json { url, token, body, async_mode: mode }
    &&& url@ == service_url(provider, "/images/generations"@)
    &&& token@ == trimmed(provider.api_key)
    &&& is_object_text(body@, request_fields(provider, prompt, size, refs, async_mode))
    &&& mode == async_mode
}

/// What a list of named texts holds.
pub open spec fn named_texts(v: Seq<(String, String)>) -> Seq<(Seq<char>, Seq<char>)> {
    v.map_values(|f: (String, String)| (f.0@, f.1@))
}

/// The texts of the form for an image.
pub open spec fn form_fields(
    provider: ProviderView,
    prompt: Seq<char>,
    size: Seq<char>,
) -> Seq<(Seq<char>, Seq<char>)> {
    seq![
        ("model"@, trimmed(provider.model)),
        ("prompt"@, prompt),
        ("size"@, size),
        ("n"@, "1"@),
        ("response_format"@, "b64_json"@),
    ]
}

/// The name that a file gets in a form, where `found` is its name in the file system.
pub open spec fn name_in_form(found: Option<Seq<char>>) -> Seq<char> {
    match found {
        Some(name) => name,
        None => "image.png"@,
    }
}

/// The name that a file gets in a form, where `found` is its name in the file system.
pub fn form_file_name(found: Option<String>) -> (r: String)
    ensures
        r@ == name_in_form(text_if_any(found)),
{
    match found {
        Some(name) => name,
        None => "image.png".to_string(),
    }
}

/// Whether `name` can be the name in a form of the file at `path`: for a path that platforms read alike
/// it is the one that they find; for any other it is one that some platform can find; and in any case
/// it is the default or stands in the path.
pub open spec fn can_name_file(path: Seq<char>, name: Seq<char>) -> bool {
    &&& reads_alike(path) ==> name == name_in_form(last_name(path, false))
    &&& !may_be_verbatim(path) ==> exists|found: Option<Seq<char>>|
        #[trigger] can_be_name(path, found) && name == name_in_form(found)
    &&& name == "image.png"@ || (name.len() > 0 && occurs_in(name, path))
}

/// Whether `files` are the files with the paths `paths` and the contents `contents`, in order.
pub open spec fn are_files(files: Seq<FormFile>, paths: Seq<Seq<char>>, contents: Seq<Vec<u8>>) -> bool {
    &&& files.len() == paths.len() == contents.len()
    &&& forall|i: int|
        0 <= i < files.len() ==> {
            &&& (#[trigger] files[i]).bytes@ == contents[i]@
            &&& files[i].name@ == "image[]"@
            &&& can_name_file(paths[i], files[i].file_name@)
        }
}

/// Whether `r` is the form for an image, with the files of the paths `paths` and the contents
/// `contents`.
pub open spec fn is_form_request(
    r: SubmitRequest,
    provider: ProviderView,
    prompt: Seq<char>,
    size: Seq<char>,
    paths: Seq<Seq<char>>,
    contents: Seq<Vec<u8>>,
) -> bool {
    &&& r matches SubmitRequest::Form { url, token, fields, files }
    &&& url@ == service_url(provider, "/images/edits"@)
    &&& token@ == trimmed(provider.api_key)
    &&& named_texts(fields@) == form_fields(provider, prompt, size)
    &&& are_files(files@, paths, contents)
}

/// Says what to send as a form, where `contents` are the files with the paths `reference_paths`.
pub fn submit_openai_edits(
    provider: &ProviderConfig,
    prompt: &str,
    size: &str,
    reference_paths: &Vec<String>,
    contents: Vec<Vec<u8>>,
) -> (r: SubmitRequest)
    requires
        reference_paths@.len() == contents@.len(),
    ensures
        is_form_request(r, provider@, prompt@, size@, texts(reference_paths@), contents@),
{
    let mut fields: Vec<(String, String)> = Vec::new();
    fields.push(("model".to_string(), trim(provider.model.as_str()).to_string()));
    fields.push(("prompt".to_string(), prompt.to_string()));
    fields.push(("size".to_string(), size.to_string()));
    fields.push(("n".to_string(), "1".to_string()));
    fields.push(("response_format".to_string(), "b64_json".to_string()));
    assert(named_texts(fields@) =~= form_fields(provider@, prompt@, size@));
    let mut files: Vec<FormFile> = Vec::new();
    for bytes in it: contents
        invariant
            it.seq() == contents@,
            reference_paths@.len() == contents@.len(),
            are_files(
                files@,
                texts(reference_paths@).take(it.index() as int),
                contents@.take(it.index() as int),
            ),
    {
        let path = reference_paths[files.len()].as_str();
        let found = path_file_name(path);
        proof {
            if reads_alike(path@) {
                plain_paths_have_one_name(path@, text_if_any(found));
            }
        }
        let file_name = form_file_name(found);
        files.push(FormFile { name: "image[]".to_string(), file_name, bytes });
    }
    assert(texts(reference_paths@).take(contents@.len() as int) =~= texts(reference_paths@));
    assert(contents@.take(contents@.len() as int) =~= contents@);
    SubmitRequest::Form {
        url: url_below(provider.base_url.as_str(), "/images/edits"),
        token: trim(provider.api_key.as_str()).to_string(),
        fields,
        files,
    }
}

/// Whether a request with the paths `paths` goes to `provider` as a form.
pub open spec fn goes_as_form(provider: ProviderView, paths: Seq<Seq<char>>) -> bool {
    provider.adapter == "openai_edits"@ && paths.len() > 0
}

/// Whether there is one file for each of the paths `paths`, and what has to be written as base64
/// fits into memory.
pub open spec fn is_submittable(provider: ProviderView, paths: Seq<Seq<char>>, contents: Seq<Vec<u8>>) -> bool {
    &&& paths.len() == contents.len()
    &&& goes_as_form(provider, paths) || all_encodable(contents)
}

/// Tells whether a request with the files `contents`, which have the paths `reference_paths`, can be
/// sent to `provider`.
pub fn can_submit(provider: &ProviderConfig, reference_paths: &Vec<String>, contents: &Vec<Vec<u8>>) -> (r: bool)
    ensures
        r == is_submittable(provider@, texts(reference_paths@), contents@),
{
    let as_form: bool = same_text(provider.adapter.as_str(), "openai_edits") && reference_paths.len() > 0;
    reference_paths.len() == contents.len() && (as_form || can_encode(contents))
}

/// Says what to send to `provider`, where `contents` are the files with the paths
/// `reference_paths`.
pub fn submit_generation(
    provider: &ProviderConfig,
    prompt: &str,
    size: &str,
    reference_paths: &Vec<String>,
    contents: Vec<Vec<u8>>,
) -> (r: SubmitRequest)
    requires
        is_submittable(provider@, texts(reference_paths@), contents@),
    ensures
        if goes_as_form(provider@, texts(reference_paths@)) {
            is_form_request(r, provider@, prompt@, size@, texts(reference_paths@), contents@)
        } else {
            is_json_request(
                r,
                provider@,
                prompt@,
                size@,
                base64_texts(contents@),
                provider@.adapter != "sync_generations"@,
            )
        },
{
    if same_text(provider.adapter.as_str(), "openai_edits") && reference_paths.len() > 0 {
        submit_openai_edits(provider, prompt, size, reference_paths, contents)
    } else {
        let sync: bool = same_text(provider.adapter.as_str(), "sync_generations");
        submit_json_generation(provider, prompt, size, &contents, !sync)
    }
}

/// How a request was sent.
#[derive(Debug, Clone, Copy, PartialEq, Eq, Structural)]
pub enum SubmitKind {
    /// As JSON; the service works on it later.
    Async,
    /// As JSON; the service answers with the image.
    Sync,
    /// As a form.
    Form,
}

impl SubmitRequest {
    /// How `self` is sent.
    pub open spec fn sent_as(self) -> SubmitKind {
        match self {
            SubmitRequest::Json { async_mode, .. } => if async_mode {
                SubmitKind::Async
            } else {
                SubmitKind::Sync
            },
            SubmitRequest::Form { .. } => SubmitKind::Form,
        }
    }

    /// Tells how `self` is sent.
    pub fn kind(&self) -> (r: SubmitKind)
        ensures
            r == self.sent_as(),
    {
        match self {
            SubmitRequest::Json { async_mode, .. } => if *async_mode {
                SubmitKind::Async
            } else {
                SubmitKind::Sync
            },
            SubmitRequest::Form { .. } => SubmitKind::Form,
        }
    }
}

/// What the answer to a request holds.
#[derive(Debug, PartialEq)]
pub struct SubmitReply {
    pub task_id: Option<String>,
    pub image: Option<ImageSource>,
}

/// What is reported of an answer without a task id, where `compact` is the answer.
pub open spec fn no_task_id(compact: Seq<char>) -> Seq<char> {
    "异步提交成功但响应中没有 task id："@ + truncated(compact, 300)
}

/// Reports that the answer `compact` holds no task id.
pub fn no_task_id_message(compact: &str) -> (r: String)
    ensures
        r@ == no_task_id(compact@),
{
    joined("异步提交成功但响应中没有 task id：", truncate(compact, 300).as_str())
}

/// Whether `r` is what the answer with the value `v` comes to, where `compact` is the answer.
pub open spec fn answers(kind: SubmitKind, v: JsonView, compact: Seq<char>, r: Result<SubmitReply, String>) -> bool {
    match kind {
        SubmitKind::Async => match task_id_in(v) {
            Some(id) => {
                &&& r matches Ok(reply)
                &&& text_if_any(reply.task_id) == Some(id)
                &&& reply.image is None
            },
            None => r matches Err(e) && e@ == no_task_id(compact),
        },
        _ => match image_in(v, compact) {
            Ok(source) => {
                &&& r matches Ok(reply)
                &&& text_if_any(reply.task_id) == (if kind == SubmitKind::Form {
                    task_id_in(v)
                } else {
                    None
                })
                &&& reply.image matches Some(image)
                &&& image@ == source
            },
            Err(fault) => r matches Err(e) && e@ == fault,
        },
    }
}

/// What the answer `payload` comes to.
pub fn read_submit_payload(kind: SubmitKind, payload: &Payload) -> (r: Result<SubmitReply, String>)
    ensures
        answers(kind, payload.value@, payload.compact@, r),
{
    let task_id = extract_task_id(&payload.value);
    match kind {
        SubmitKind::Async => {
            if task_id.is_some() {
                Ok(SubmitReply { task_id, image: None })
            } else {
                Err(no_task_id_message(payload.compact.as_str()))
            }
        },
        SubmitKind::Sync => match extract_image_bytes(payload) {
            Ok(image) => Ok(SubmitReply { task_id: None, image: Some(image) }),
            Err(e) => Err(e),
        },
        SubmitKind::Form => match extract_image_bytes(payload) {
            Ok(image) => Ok(SubmitReply { task_id, image: Some(image) }),
            Err(e) => Err(e),
        },
    }
}

/// What the answer `text` from `url` comes to.
pub fn submit_answer(kind: SubmitKind, url: &str, text: &str) -> (r: Result<SubmitReply, String>)
    ensures
        match json_read(text@) {
            Ok(v) => answers(kind, v, json_text(v), r),
            Err(fault) => r matches Err(e) && e@ == not_json(text@, url@, fault),
        },
{
    match parse_json(text, url) {
        Ok(payload) => read_submit_payload(kind, &payload),
        Err(e) => Err(e),
    }
}

/// What came of handing a request to a service.
#[derive(Debug, PartialEq)]
pub struct SubmitResult {
    pub task_id: Option<String>,
    pub bytes: Option<Vec<u8>>,
}

/// What to do once a request was handed to a service.
#[derive(Debug, PartialEq)]
pub enum SubmitStep {
    /// Write the image, and go on with [`crate::history::record_result`].
    Write(ResultFile),
    /// Nothing changed, and nothing is left to do, for this reason.
    Lost(String),
    /// The item was marked as failed, with this outcome. Save the state.
    Failed(Result<HistoryItem, String>),
    /// The task was noted, with this outcome. Save the state; if there is an item, ask after it.
    Accepted(Result<HistoryItem, String>),
}

/// Whether `step` follows for the item `id` from `outcome`.
pub open spec fn follows(
    before: StoreView,
    id: Seq<char>,
    outcome: Result<SubmitResult, String>,
    after: StoreView,
    step: SubmitStep,
) -> bool {
    let h = before.data.history;
    match outcome {
        Err(e) => step matches SubmitStep::Failed(r) && fails(before, id, e@, after, r),
        Ok(submit) => match (submit.bytes, submit.task_id) {
            (Some(bytes), task_id) => {
                &&& after == before
                &&& if has_item(h, id) {
                    &&& first_item(h, id, item_index(h, id))
                    &&& step matches SubmitStep::Write(file)
                    &&& file.is_for(before, with_task_id(item_of(h, id), text_if_any(task_id)), bytes@)
                } else {
                    step matches SubmitStep::Lost(e) && e@ == unknown_item()
                }
            },
            (None, Some(task_id)) => {
                &&& step matches SubmitStep::Accepted(r)
                &&& replaces(before, id, accepted_item(item_of(h, id), task_id@), after, r)
            },
            (None, None) => {
                &&& step matches SubmitStep::Failed(r)
                &&& fails(before, id, "异步提交成功但响应中没有 task id"@, after, r)
            },
        },
    }
}

/// Says what to do for the item `history_id` once handing it to a service came to `outcome`.
pub fn after_submit(store: &mut AppStore, history_id: &str, outcome: Result<SubmitResult, String>) -> (r: SubmitStep)
    ensures
        follows(old(store)@, history_id@, outcome, final(store)@, r),
{
    match outcome {
        Err(e) => SubmitStep::Failed(fail_history(store, history_id, e)),
        Ok(submit) => match submit.bytes {
            Some(bytes) => match complete_history_with_bytes(store, history_id, submit.task_id, bytes) {
                Ok(file) => SubmitStep::Write(file),
                Err(e) => SubmitStep::Lost(e),
            },
            None => match submit.task_id {
                Some(task_id) => SubmitStep::Accepted(accept_task(store, history_id, task_id)),
                None => SubmitStep::Failed(
                    fail_history(store, history_id, "异步提交成功但响应中没有 task id".to_string()),
                ),
            },
        },
    }
}

}
