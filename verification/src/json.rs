//! What the image services answer, and what the application reads from it.

use crate::encoding::{base64_decoded, decode_base64};
use crate::model::text_if_any;
use crate::text::{ascii_lowered, joined, lowered, same_text, to_lower, truncate, truncated};
use vstd::prelude::*;
use vstd::string::*;
use vstd::utf8::*;

verus! {

/// A JSON value. A number is kept in its notation.
#[derive(Debug, PartialEq)]
pub enum Json {
    Null,
    Bool(bool),
    Number(String),
    Text(String),
    Array(Vec<Json>),
    Object(Vec<(String, Json)>),
}

/// What a [`Json`] value holds.
pub enum JsonView {
    Null,
    Bool(bool),
    Number(Seq<char>),
    Text(Seq<char>),
    Array(Seq<JsonView>),
    Object(Seq<(Seq<char>, JsonView)>),
}

impl View for Json {
    type V = JsonView;

    open spec fn view(&self) -> JsonView
        decreases self,
    {
        match self {
            Json::Null => JsonView::Null,
            Json::Bool(b) => JsonView::Bool(*b),
            Json::Number(s) => JsonView::Number(s@),
            Json::Text(s) => JsonView::Text(s@),
            Json::Array(v) => JsonView::Array(
                Seq::new(
                    v@.len(),
                    |i: int| if 0 <= i < v@.len() { v@[i].view() } else { JsonView::Null },
                ),
            ),
            Json::Object(v) => JsonView::Object(
                Seq::new(
                    v@.len(),
                    |i: int|
                        if 0 <= i < v@.len() {
                            (v@[i].0@, v@[i].1.view())
                        } else {
                            (Seq::empty(), JsonView::Null)
                        },
                ),
            ),
        }
    }
}

/// A value as `serde_json` holds it.
#[verifier::external_type_specification]
#[verifier::external_body]
pub struct ExValue(serde_json::Value);

/// What a value of `serde_json` holds.
pub uninterp spec fn json_held(v: serde_json::Value) -> JsonView;

/// The value that `serde_json::from_str` reads from a text, or what it says is wrong with the text.
pub uninterp spec fn json_read(text: Seq<char>) -> Result<JsonView, Seq<char>>;

/// `serde_json::from_str` reads a JSON value. The result depends on the text alone; which texts
/// are accepted, as which value, and what is said of the others is left open.
#[verifier::external_body]
pub(crate) fn read_value(text: &str) -> (r: Result<serde_json::Value, String>)
    ensures
        match r {
            Ok(v) => json_read(text@) == Ok::<JsonView, Seq<char>>(json_held(v)),
            Err(e) => json_read(text@) == Err::<JsonView, Seq<char>>(e@),
        },
{
    serde_json::from_str(text).map_err(|e: serde_json::Error| e.to_string())
}

/// Takes a value of `serde_json` over, variant by variant, a number in the notation that
/// `serde_json` gives it.
#[verifier::external_body]
pub(crate) fn json_of(v: serde_json::Value) -> (r: Json)
    ensures
        r@ == json_held(v),
{
    match v {
        serde_json::Value::Null => Json::Null,
        serde_json::Value::Bool(b) => Json::Bool(b),
        serde_json::Value::Number(n) => Json::Number(n.to_string()),
        serde_json::Value::String(s) => Json::Text(s),
        serde_json::Value::Array(a) => Json::Array(a.into_iter().map(json_of).collect()),
        serde_json::Value::Object(m) => Json::Object(m.into_iter().map(|(k, v)| (k, json_of(v))).collect()),
    }
}

/// The text that `serde_json` writes for a value, without line breaks and spaces.
pub uninterp spec fn json_text(v: JsonView) -> Seq<char>;

/// `serde_json::Value::to_string` writes a value without line breaks and spaces. What it writes
/// depends on what the value holds alone and is not said.
#[verifier::external_body]
pub(crate) fn compact_json(v: &serde_json::Value) -> (r: String)
    ensures
        r@ == json_text(json_held(*v)),
{
    v.to_string()
}

/// The first of `fields` called `key`.
pub open spec fn field(fields: Seq<(Seq<char>, JsonView)>, key: Seq<char>) -> Option<JsonView>
    decreases fields.len(),
{
    if fields.len() == 0 {
        None
    } else if fields[0].0 == key {
        Some(fields[0].1)
    } else {
        field(fields.drop_first(), key)
    }
}

impl JsonView {
    /// The member `key` of an object. No other value has members.
    pub open spec fn member(self, key: Seq<char>) -> Option<JsonView> {
        match self {
            JsonView::Object(fields) => field(fields, key),
            _ => None,
        }
    }

    /// The text of a text.
    pub open spec fn as_text(self) -> Option<Seq<char>> {
        match self {
            JsonView::Text(s) => Some(s),
            _ => None,
        }
    }

    /// The first element of an array that has one.
    pub open spec fn first(self) -> Option<JsonView> {
        match self {
            JsonView::Array(a) if a.len() > 0 => Some(a[0]),
            _ => None,
        }
    }
}

/// What an optional value holds.
pub open spec fn json_if_any(v: Option<&Json>) -> Option<JsonView> {
    match v {
        Some(j) => Some(j@),
        None => None,
    }
}

impl Json {
    /// The member `key` of an object. No other value has members.
    pub fn get(&self, key: &str) -> (r: Option<&Json>)
        ensures
            json_if_any(r) == self@.member(key@),
    {
        match self {
            Json::Object(fields) => {
                let ghost all = Seq::new(fields@.len(), |j: int| (fields@[j].0@, fields@[j].1@));
                let mut i: usize = 0;
                proof {
                    if let JsonView::Object(held) = self@ {
                        assert(held =~= all);
                    }
                }
                assert(all.skip(0) =~= all);
                while i < fields.len()
                    invariant
                        i <= fields@.len() == all.len(),
                        self@ == JsonView::Object(all),
                        forall|j: int|
                            0 <= j < all.len() ==> #[trigger] all[j] == (fields@[j].0@, fields@[j].1@),
                        field(all, key@) == field(all.skip(i as int), key@),
                    decreases fields@.len() - i,
                {
                    assert(all.skip(i as int)[0] == all[i as int]);
                    assert(all.skip(i as int).drop_first() =~= all.skip(i + 1));
                    if same_text(fields[i].0.as_str(), key) {
                        return Some(&fields[i].1);
                    }
                    i = i + 1;
                }
                None
            },
            _ => None,
        }
    }

    /// The text of a text.
    pub fn as_str(&self) -> (r: Option<&str>)
        ensures
            match r {
                Some(s) => self@.as_text() == Some(s@),
                None => self@.as_text() is None,
            },
    {
        match self {
            Json::Text(s) => Some(s.as_str()),
            _ => None,
        }
    }

    /// The first element of an array that has one.
    pub fn first(&self) -> (r: Option<&Json>)
        ensures
            json_if_any(r) == self@.first(),
    {
        match self {
            Json::Array(a) => {
                if a.len() > 0 {
                    Some(&a[0])
                } else {
                    None
                }
            },
            _ => None,
        }
    }
}

/// An answer: its value, and the value's text without line breaks and spaces.
#[derive(Debug, PartialEq)]
pub struct Payload {
    pub value: Json,
    pub compact: String,
}

/// What is reported of a text from `url` that cannot be read, where `fault` says why.
pub open spec fn not_json(text: Seq<char>, url: Seq<char>, fault: Seq<char>) -> Seq<char> {
    url + " 返回非 JSON："@ + fault + "；"@ + truncated(text, 300)
}

/// Reports that `text`, which came from `url`, cannot be read, for the reason `fault`.
pub fn not_json_message(text: &str, url: &str, fault: &str) -> (r: String)
    ensures
        r@ == not_json(text@, url@, fault@),
{
    let mut r = joined(url, " 返回非 JSON：");
    r.append(fault);
    r.append("；");
    r.append(truncate(text, 300).as_str());
    r
}

/// Reads the answer `text`, which came from `url`.
pub fn parse_json(text: &str, url: &str) -> (r: Result<Payload, String>)
    ensures
        match r {
            Ok(p) => json_read(text@) == Ok::<JsonView, Seq<char>>(p.value@) && p.compact@ == json_text(p.value@),
            Err(e) => json_read(text@) matches Err(fault) && e@ == not_json(text@, url@, fault),
        },
{
    match read_value(text) {
        Ok(v) => {
            let compact = compact_json(&v);
            Ok(Payload { value: json_of(v), compact })
        },
        Err(fault) => Err(not_json_message(text, url, fault.as_str())),
    }
}

/// The member `key` of `v`, if it is a text and not empty.
pub open spec fn full_text(v: JsonView, key: Seq<char>) -> Option<Seq<char>> {
    match v.member(key) {
        Some(JsonView::Text(s)) if s.len() > 0 => Some(s),
        _ => None,
    }
}

/// The task id that `v` itself carries, under the first of its three names that has one.
pub open spec fn own_task_id(v: JsonView) -> Option<Seq<char>> {
    if full_text(v, "task_id"@) is Some {
        full_text(v, "task_id"@)
    } else if full_text(v, "taskId"@) is Some {
        full_text(v, "taskId"@)
    } else {
        full_text(v, "id"@)
    }
}

/// The task id in an answer: that of the answer itself, else that of its data, else that of the
/// first element of its data.
pub open spec fn task_id_in(v: JsonView) -> Option<Seq<char>> {
    if own_task_id(v) is Some {
        own_task_id(v)
    } else {
        match v.member("data"@) {
            Some(d) => if own_task_id(d) is Some {
                own_task_id(d)
            } else {
                match d.first() {
                    Some(e) => own_task_id(e),
                    None => None,
                }
            },
            None => None,
        }
    }
}

/// The member `key` of `v`, if it is a text and not empty.
fn full_text_of(v: &Json, key: &str) -> (r: Option<String>)
    ensures
        text_if_any(r) == full_text(v@, key@),
{
    match v.get(key) {
        Some(x) => match x.as_str() {
            Some(s) => if s.is_empty() {
                None
            } else {
                Some(s.to_string())
            },
            None => None,
        },
        None => None,
    }
}

/// The task id that `v` itself carries.
fn own_task_id_of(v: &Json) -> (r: Option<String>)
    ensures
        text_if_any(r) == own_task_id(v@),
{
    let task_id = full_text_of(v, "task_id");
    if task_id.is_some() {
        return task_id;
    }
    let camel = full_text_of(v, "taskId");
    if camel.is_some() {
        return camel;
    }
    full_text_of(v, "id")
}

/// Finds the task id in an answer.
pub fn extract_task_id(v: &Json) -> (r: Option<String>)
    ensures
        text_if_any(r) == task_id_in(v@),
{
    let own = own_task_id_of(v);
    if own.is_some() {
        return own;
    }
    match v.get("data") {
        Some(d) => {
            let within = own_task_id_of(d);
            if within.is_some() {
                return within;
            }
            match d.first() {
                Some(e) => own_task_id_of(e),
                None => None,
            }
        },
        None => None,
    }
}

/// The member `key` of the data of `v`.
pub open spec fn data_member(v: JsonView, key: Seq<char>) -> Option<JsonView> {
    match v.member("data"@) {
        Some(d) => d.member(key),
        None => None,
    }
}

/// The value that tells the status in an answer, from the first of four places that holds one.
pub open spec fn status_value(v: JsonView) -> Option<JsonView> {
    if v.member("status"@) is Some {
        v.member("status"@)
    } else if v.member("task_status"@) is Some {
        v.member("task_status"@)
    } else if data_member(v, "status"@) is Some {
        data_member(v, "status"@)
    } else {
        data_member(v, "task_status"@)
    }
}

/// The status in an answer as it stands there, if it is a text.
pub open spec fn status_text(v: JsonView) -> Option<Seq<char>> {
    match status_value(v) {
        Some(JsonView::Text(s)) => Some(s),
        _ => None,
    }
}

/// Finds the status in an answer, as it stands there.
pub fn find_status(v: &Json) -> (r: Option<&str>)
    ensures
        match r {
            Some(s) => status_text(v@) == Some(s@),
            None => status_text(v@) is None,
        },
{
    let status = match v.get("status") {
        Some(s) => Some(s),
        None => match v.get("task_status") {
            Some(s) => Some(s),
            None => match v.get("data") {
                Some(d) => match d.get("status") {
                    Some(s) => Some(s),
                    None => d.get("task_status"),
                },
                None => None,
            },
        },
    };
    match status {
        Some(s) => s.as_str(),
        None => None,
    }
}

/// The status in an answer, in lower case.
pub open spec fn status_in(v: JsonView) -> Option<Seq<char>> {
    match status_text(v) {
        Some(s) => Some(lowered(s)),
        None => None,
    }
}

/// Whether the status in an answer is lowered as ASCII, if it is an ASCII text.
pub open spec fn lowers_ascii_status(v: JsonView) -> bool {
    status_text(v) matches Some(s) ==> is_ascii_chars(s) ==> status_in(v) == Some(ascii_lowered(s))
}

/// Finds the status in an answer, in lower case.
pub fn extract_status(v: &Json) -> (r: Option<String>)
    ensures
        text_if_any(r) == status_in(v@),
        lowers_ascii_status(v@),
{
    match find_status(v) {
        Some(s) => Some(to_lower(s)),
        None => None,
    }
}

/// How a task stands, by the status in an answer.
#[derive(Debug, Clone, Copy, PartialEq, Eq, Structural)]
pub enum TaskState {
    /// The service gave up.
    Failed,
    /// The image is there.
    Completed,
    /// Anything else.
    Running,
}

/// How a task stands whose status, in lower case, is `status`.
pub open spec fn state_of(status: Option<Seq<char>>) -> TaskState {
    match status {
        Some(s) => if s == "failed"@ || s == "error"@ || s == "canceled"@ || s == "cancelled"@ {
            TaskState::Failed
        } else if s == "completed"@ || s == "succeeded"@ || s == "succeed"@ || s == "success"@ || s
            == "finished"@ || s == "done"@ {
            TaskState::Completed
        } else {
            TaskState::Running
        },
        None => TaskState::Running,
    }
}

/// Tells how a task stands whose status, in lower case, is `status`.
pub fn task_state(status: &Option<String>) -> (r: TaskState)
    ensures
        r == state_of(text_if_any(*status)),
{
    match status {
        Some(t) => {
            let s = t.as_str();
            if same_text(s, "failed") || same_text(s, "error") || same_text(s, "canceled") || same_text(
                s,
                "cancelled",
            ) {
                TaskState::Failed
            } else if same_text(s, "completed") || same_text(s, "succeeded") || same_text(s, "succeed")
                || same_text(s, "success") || same_text(s, "finished") || same_text(s, "done") {
                TaskState::Completed
            } else {
                TaskState::Running
            }
        },
        None => TaskState::Running,
    }
}

/// What an answer says of a failure: the text under `error`, or under `message` if there is no
/// `error`.
pub open spec fn failure_text(v: JsonView) -> Seq<char> {
    let told = if v.member("error"@) is Some {
        v.member("error"@)
    } else {
        v.member("message"@)
    };
    match told {
        Some(JsonView::Text(s)) => s,
        _ => "生成失败"@,
    }
}

/// Finds what an answer says of a failure.
pub fn failure_message(v: &Json) -> (r: String)
    ensures
        r@ == failure_text(v@),
{
    let told = match v.get("error") {
        Some(e) => Some(e),
        None => v.get("message"),
    };
    match told {
        Some(m) => match m.as_str() {
            Some(s) => s.to_string(),
            None => "生成失败".to_string(),
        },
        None => "生成失败".to_string(),
    }
}

/// Where an answer carries its image.
#[derive(Debug, PartialEq)]
pub enum ImageField {
    /// In the answer, in base64.
    Base64(String),
    /// At an address.
    Url(String),
    /// Nowhere.
    Missing,
}

/// What an [`ImageField`] holds.
pub enum ImageFieldView {
    Base64(Seq<char>),
    Url(Seq<char>),
    Missing,
}

impl View for ImageField {
    type V = ImageFieldView;

    open spec fn view(&self) -> ImageFieldView {
        match self {
            ImageField::Base64(s) => ImageFieldView::Base64(s@),
            ImageField::Url(s) => ImageFieldView::Url(s@),
            ImageField::Missing => ImageFieldView::Missing,
        }
    }
}

/// The part of an answer that describes the image: the first element of its data, else its data,
/// else the answer itself.
pub open spec fn image_part(v: JsonView) -> JsonView {
    match v.member("data"@) {
        Some(d) => match d.first() {
            Some(e) => e,
            None => d,
        },
        None => v,
    }
}

/// Where an answer carries its image.
pub open spec fn image_field(v: JsonView) -> ImageFieldView {
    let part = image_part(v);
    let address = if part.member("url"@) is Some {
        part.member("url"@)
    } else {
        v.member("url"@)
    };
    match (part.member("b64_json"@), address) {
        (Some(JsonView::Text(s)), _) => ImageFieldView::Base64(s),
        (_, Some(JsonView::Text(s))) => ImageFieldView::Url(s),
        _ => ImageFieldView::Missing,
    }
}

/// Finds where an answer carries its image.
pub fn find_image(v: &Json) -> (r: ImageField)
    ensures
        r@ == image_field(v@),
{
    let part = match v.get("data") {
        Some(d) => match d.first() {
            Some(e) => e,
            None => d,
        },
        None => v,
    };
    if let Some(b) = part.get("b64_json") {
        if let Some(s) = b.as_str() {
            return ImageField::Base64(s.to_string());
        }
    }
    let address = match part.get("url") {
        Some(u) => Some(u),
        None => v.get("url"),
    };
    match address {
        Some(u) => match u.as_str() {
            Some(s) => ImageField::Url(s.to_string()),
            None => ImageField::Missing,
        },
        None => ImageField::Missing,
    }
}

/// An image, or where to get it.
#[derive(Debug, PartialEq)]
pub enum ImageSource {
    /// The bytes of the image.
    Inline(Vec<u8>),
    /// The address to download the image from.
    Remote(String),
}

/// What an [`ImageSource`] holds.
pub enum ImageSourceView {
    Inline(Seq<u8>),
    Remote(Seq<char>),
}

impl View for ImageSource {
    type V = ImageSourceView;

    open spec fn view(&self) -> ImageSourceView {
        match self {
            ImageSource::Inline(b) => ImageSourceView::Inline(b@),
            ImageSource::Remote(u) => ImageSourceView::Remote(u@),
        }
    }
}

/// What is reported of an answer without an image, where `compact` is the answer.
pub open spec fn no_image(compact: Seq<char>) -> Seq<char> {
    "响应中未找到图片数据："@ + truncated(compact, 300)
}

/// What is reported of base64 that cannot be read, where `fault` says why.
pub open spec fn bad_base64(fault: Seq<char>) -> Seq<char> {
    "base64 解码失败："@ + fault
}

/// Reports that the answer `compact` holds no image.
pub fn no_image_message(compact: &str) -> (r: String)
    ensures
        r@ == no_image(compact@),
{
    joined("响应中未找到图片数据：", truncate(compact, 300).as_str())
}

/// The image that `decoded` gives, or the report that there is none.
pub fn inline_image(decoded: Result<Vec<u8>, String>) -> (r: Result<ImageSource, String>)
    ensures
        match (decoded, r) {
            (Ok(bytes), Ok(image)) => image == ImageSource::Inline(bytes),
            (Err(fault), Err(e)) => e@ == bad_base64(fault@),
            _ => false,
        },
{
    match decoded {
        Ok(bytes) => Ok(ImageSource::Inline(bytes)),
        Err(fault) => Err(joined("base64 解码失败：", fault.as_str())),
    }
}

/// The image in an answer with the value `v`, or what is reported if there is none, where `compact`
/// is the answer.
pub open spec fn image_in(v: JsonView, compact: Seq<char>) -> Result<ImageSourceView, Seq<char>> {
    match image_field(v) {
        ImageFieldView::Base64(s) => match base64_decoded(s) {
            Ok(bytes) => Ok(ImageSourceView::Inline(bytes)),
            Err(fault) => Err(bad_base64(fault)),
        },
        ImageFieldView::Url(u) => Ok(ImageSourceView::Remote(u)),
        ImageFieldView::Missing => Err(no_image(compact)),
    }
}

/// Finds the image in an answer.
pub fn extract_image_bytes(payload: &Payload) -> (r: Result<ImageSource, String>)
    ensures
        match r {
            Ok(image) => image_in(payload.value@, payload.compact@) == Ok::<ImageSourceView, Seq<char>>(image@),
            Err(e) => image_in(payload.value@, payload.compact@) == Err::<ImageSourceView, Seq<char>>(e@),
        },
{
    match find_image(&payload.value) {
        ImageField::Base64(s) => inline_image(decode_base64(s.as_str())),
        ImageField::Url(u) => Ok(ImageSource::Remote(u)),
        ImageField::Missing => Err(no_image_message(payload.compact.as_str())),
    }
}

}
