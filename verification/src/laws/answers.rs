//! The answers of a service: what is read from them, in terms of their members.

use crate::encoding::{base64_fault, base64_text};
use crate::json::{
    extract_image_bytes, extract_status, extract_task_id, failure_message, field, find_image, image_in, json_read,
    json_text, parse_json, task_id_in, task_state, ImageField, ImageSource, ImageSourceView, Json, JsonView, Payload,
    TaskState,
};
use crate::laws::encoding::base64_is_injective;
use crate::laws::text::{cut, truncating_is_cutting};
use crate::model::text_if_any;
use crate::submit::{submit_answer, SubmitKind, SubmitReply};
use crate::text::lowered;
use vstd::prelude::*;
use vstd::utf8::is_ascii_chars;

verus! {

/// The member of an object under a name is the first one of that name. Where there is none of that
/// name, and in what is not an object, there is no member.
pub proof fn members_go_by_name(fields: Seq<(Seq<char>, JsonView)>, key: Seq<char>)
    ensures
        forall|i: int|
            0 <= i < fields.len() && (#[trigger] fields[i]).0 == key && (forall|j: int|
                0 <= j < i ==> (#[trigger] fields[j]).0 != key) ==> JsonView::Object(fields).member(key) == Some(
                fields[i].1,
            ),
        (forall|i: int| 0 <= i < fields.len() ==> (#[trigger] fields[i]).0 != key) ==> JsonView::Object(
            fields,
        ).member(key) is None,
        forall|v: JsonView| !(v is Object) ==> (#[trigger] v.member(key)) is None,
    decreases fields.len(),
{
    if fields.len() > 0 && fields[0].0 != key {
        let rest = fields.drop_first();
        members_go_by_name(rest, key);
        assert forall|i: int|
            0 <= i < fields.len() && (#[trigger] fields[i]).0 == key && (forall|j: int|
                0 <= j < i ==> (#[trigger] fields[j]).0 != key) implies JsonView::Object(fields).member(key) == Some(
            fields[i].1,
        ) by {
            assert(rest[i - 1] == fields[i]);
            assert forall|j: int| 0 <= j < i - 1 implies (#[trigger] rest[j]).0 != key by {
                assert(rest[j] == fields[j + 1]);
            }
            assert(JsonView::Object(rest).member(key) == Some(fields[i].1));
            assert(field(fields, key) == field(rest, key));
        }
        if forall|i: int| 0 <= i < fields.len() ==> (#[trigger] fields[i]).0 != key {
            assert forall|j: int| 0 <= j < rest.len() implies (#[trigger] rest[j]).0 != key by {
                assert(rest[j] == fields[j + 1]);
            }
            assert(JsonView::Object(rest).member(key) is None);
            assert(field(fields, key) == field(rest, key));
        }
    }
}

/// The first element of an array is that at its beginning; an empty array has none, and neither has
/// what is not an array.
pub proof fn arrays_begin_with_their_first_element(a: Seq<JsonView>, v: JsonView)
    ensures
        a.len() > 0 ==> JsonView::Array(a).first() == Some(a[0]),
        a.len() == 0 ==> JsonView::Array(a).first() is None,
        !(v is Array) ==> v.first() is None,
{
}

/// What a JSON value holds is what its parts hold.
pub proof fn values_hold_what_their_parts_hold(v: &Json)
    ensures
        v is Null ==> v@ == JsonView::Null,
        v matches Json::Bool(b) ==> v@ == JsonView::Bool(*b),
        v matches Json::Number(s) ==> v@ == JsonView::Number(s@),
        v matches Json::Text(s) ==> v@ == JsonView::Text(s@),
        v matches Json::Array(a) ==> (v@ matches JsonView::Array(held) && held.len() == a@.len() && (forall|i: int|
            0 <= i < a@.len() ==> #[trigger] held[i] == a@[i]@)),
        v matches Json::Object(o) ==> (v@ matches JsonView::Object(held) && held.len() == o@.len() && (forall|i: int|
            0 <= i < o@.len() ==> #[trigger] held[i] == (o@[i].0@, o@[i].1@))),
{
    reveal_with_fuel(<Json as View>::view, 2);
    if let Json::Object(o) = v {
        let all = Seq::new(o@.len(), |i: int| (o@[i].0@, o@[i].1@));
        if let JsonView::Object(held) = v@ {
            assert(held =~= all);
        }
    }
}

/// Whether `v` has the text `s` under `key`, and `s` is not empty.
pub open spec fn carries(v: JsonView, key: Seq<char>, s: Seq<char>) -> bool {
    v.member(key) == Some(JsonView::Text(s)) && s.len() > 0
}

/// Whether `v` has no text under `key`, or an empty one.
pub open spec fn lacks(v: JsonView, key: Seq<char>) -> bool {
    forall|s: Seq<char>| !#[trigger] carries(v, key, s)
}

/// Whether `v` names the task `id`: under `task_id`; or, lacking that, under `taskId`; or, lacking
/// both, under `id`.
pub open spec fn names_task(v: JsonView, id: Seq<char>) -> bool {
    ||| carries(v, "task_id"@, id)
    ||| lacks(v, "task_id"@) && carries(v, "taskId"@, id)
    ||| lacks(v, "task_id"@) && lacks(v, "taskId"@) && carries(v, "id"@, id)
}

/// Whether `v` names no task under any of the three names.
pub open spec fn names_no_task(v: JsonView) -> bool {
    lacks(v, "task_id"@) && lacks(v, "taskId"@) && lacks(v, "id"@)
}

proof fn texts_are_carried_or_lacked(v: JsonView, key: Seq<char>)
    ensures
        lacks(v, key) || (v.member(key) matches Some(JsonView::Text(s)) && carries(v, key, s)),
{
    if !lacks(v, key) {
        let s = choose|s: Seq<char>| #[trigger] carries(v, key, s);
        assert(carries(v, key, s));
    }
}

proof fn own_names_come_in_order(v: JsonView)
    ensures
        forall|id: Seq<char>| #[trigger] names_task(v, id) ==> crate::json::own_task_id(v) == Some(id),
        names_no_task(v) ==> crate::json::own_task_id(v) is None,
        crate::json::own_task_id(v) is None ==> names_no_task(v),
{
    texts_are_carried_or_lacked(v, "task_id"@);
    texts_are_carried_or_lacked(v, "taskId"@);
    texts_are_carried_or_lacked(v, "id"@);
    assert forall|id: Seq<char>| #[trigger] names_task(v, id) implies crate::json::own_task_id(v) == Some(id) by {
        if !carries(v, "task_id"@, id) {
            if crate::json::full_text(v, "task_id"@) is Some {
                assert(carries(v, "task_id"@, crate::json::full_text(v, "task_id"@)->0));
            }
            if !carries(v, "taskId"@, id) {
                if crate::json::full_text(v, "taskId"@) is Some {
                    assert(carries(v, "taskId"@, crate::json::full_text(v, "taskId"@)->0));
                }
            }
        }
    }
    if names_no_task(v) {
        let f = |k: Seq<char>| crate::json::full_text(v, k);
        if f("task_id"@) is Some {
            assert(carries(v, "task_id"@, f("task_id"@)->0));
        }
        if f("taskId"@) is Some {
            assert(carries(v, "taskId"@, f("taskId"@)->0));
        }
        if f("id"@) is Some {
            assert(carries(v, "id"@, f("id"@)->0));
        }
    }
}

/// The task id of an answer is the one that the answer itself names; or, if it names none, the one
/// that its data name; or, if those name none, the one that the first element of its data names. If
/// none of the three names any, there is no task id.
pub proof fn task_ids_go_by_place_and_name(v: &Json, r: Option<String>)
    requires
        call_ensures(extract_task_id, (v,), r),
    ensures
        text_if_any(r) == task_id_in(v@),
        forall|id: Seq<char>| #[trigger] names_task(v@, id) ==> (r matches Some(s) && s@ == id),
        forall|d: JsonView, id: Seq<char>|
            names_no_task(v@) && v@.member("data"@) == Some(d) && #[trigger] names_task(d, id) ==> (r matches Some(s)
                && s@ == id),
        forall|d: JsonView, e: JsonView, id: Seq<char>|
            names_no_task(v@) && v@.member("data"@) == Some(d) && names_no_task(d) && #[trigger] d.first() == Some(e)
                && #[trigger] names_task(e, id) ==> (r matches Some(s) && s@ == id),
        names_no_task(v@) && v@.member("data"@) is None ==> r is None,
        forall|d: JsonView|
            names_no_task(v@) && v@.member("data"@) == Some(d) && #[trigger] names_no_task(d) && (d.first() matches Some(
                e,
            ) ==> names_no_task(e)) ==> r is None,
{
    own_names_come_in_order(v@);
    if let Some(d) = v@.member("data"@) {
        own_names_come_in_order(d);
        if let Some(e) = d.first() {
            own_names_come_in_order(e);
        }
    }
}

/// An asynchronous request is accepted under the task id in the answer, wherever it stands, and with
/// no image; it fails, and says so with the answer, if there is none.
pub proof fn accepted_answers_give_their_task_id(url: &str, text: &str, v: JsonView, r: Result<SubmitReply, String>)
    requires
        call_ensures(submit_answer, (SubmitKind::Async, url, text), r),
        json_read(text@) == Ok::<JsonView, Seq<char>>(v),
    ensures
        forall|id: Seq<char>|
            #[trigger] names_task(v, id) ==> (r matches Ok(reply) && reply.image is None && (reply.task_id matches Some(s)
                && s@ == id)),
        forall|d: JsonView, id: Seq<char>|
            names_no_task(v) && v.member("data"@) == Some(d) && #[trigger] names_task(d, id) ==> (r matches Ok(reply)
                && reply.image is None && (reply.task_id matches Some(s) && s@ == id)),
        forall|d: JsonView, e: JsonView, id: Seq<char>|
            names_no_task(v) && v.member("data"@) == Some(d) && names_no_task(d) && #[trigger] d.first() == Some(e)
                && #[trigger] names_task(e, id) ==> (r matches Ok(reply) && reply.image is None && (
            reply.task_id matches Some(s) && s@ == id)),
        r is Ok <==> task_id_in(v) is Some,
        r matches Err(e) ==> e@ == "异步提交成功但响应中没有 task id："@ + cut(json_text(v), 300),
{
    own_names_come_in_order(v);
    if let Some(d) = v.member("data"@) {
        own_names_come_in_order(d);
        if let Some(e) = d.first() {
            own_names_come_in_order(e);
        }
    }
    truncating_is_cutting(json_text(v), 300);
}

/// Whether `x` is what an answer says of the status: what stands under `status`; or, without that,
/// under `task_status`; or, without either, the same in its data.
pub open spec fn tells_status(v: JsonView, x: JsonView) -> bool {
    let d = v.member("data"@);
    ||| v.member("status"@) == Some(x)
    ||| v.member("status"@) is None && v.member("task_status"@) == Some(x)
    ||| v.member("status"@) is None && v.member("task_status"@) is None && d is Some && (d->0).member("status"@)
        == Some(x)
    ||| v.member("status"@) is None && v.member("task_status"@) is None && d is Some && (d->0).member("status"@) is None
        && (d->0).member("task_status"@) == Some(x)
}

/// The status of an answer is the text that tells it, in lower case. What is not a text tells
/// nothing, and hides what stands in a later place.
pub proof fn statuses_go_by_place(v: &Json, r: Option<String>)
    requires
        call_ensures(extract_status, (v,), r),
    ensures
        forall|s: Seq<char>| #[trigger] tells_status(v@, JsonView::Text(s)) ==> (r matches Some(t) && t@ == lowered(s)),
        forall|s: Seq<char>|
            #[trigger] tells_status(v@, JsonView::Text(s)) && is_ascii_chars(s) ==> (r matches Some(t) && t@.len()
                == s.len() && (forall|i: int|
                0 <= i < s.len() ==> #[trigger] t@[i] == (if 'A' <= s[i] <= 'Z' {
                    ((s[i] as u8) + 32) as char
                } else {
                    s[i]
                }))),
        forall|x: JsonView| #[trigger] tells_status(v@, x) && !(x is Text) ==> r is None,
        (forall|x: JsonView| !#[trigger] tells_status(v@, x)) ==> r is None,
{
    assert forall|s: Seq<char>| #[trigger] tells_status(v@, JsonView::Text(s)) implies crate::json::status_text(v@)
        == Some(s) by {}
    if let Some(x) = crate::json::status_value(v@) {
        assert(tells_status(v@, x));
    }
}

/// A task has failed on four words, is done on six, and runs on any other and on none.
pub proof fn states_go_by_word(status: &Option<String>, r: TaskState)
    requires
        call_ensures(task_state, (status,), r),
    ensures
        r == TaskState::Failed <==> (status matches Some(s) && (s@ == "failed"@ || s@ == "error"@ || s@ == "canceled"@
            || s@ == "cancelled"@)),
        r == TaskState::Completed <==> (status matches Some(s) && (s@ == "completed"@ || s@ == "succeeded"@ || s@
            == "succeed"@ || s@ == "success"@ || s@ == "finished"@ || s@ == "done"@)),
        status is None ==> r == TaskState::Running,
{
    words_differ();
}

/// The words for what has failed are none of those for what is done.
pub proof fn words_differ()
    ensures
        "failed"@ != "succeed"@ && "failed"@ != "success"@ && "failed"@ != "finished"@ && "failed"@ != "done"@ && "failed"@
            != "completed"@ && "failed"@ != "succeeded"@,
        "error"@ != "succeed"@ && "error"@ != "success"@ && "error"@ != "finished"@ && "error"@ != "done"@ && "error"@
            != "completed"@ && "error"@ != "succeeded"@,
        "canceled"@ != "succeed"@ && "canceled"@ != "success"@ && "canceled"@ != "finished"@ && "canceled"@ != "done"@
            && "canceled"@ != "completed"@ && "canceled"@ != "succeeded"@,
        "cancelled"@ != "succeed"@ && "cancelled"@ != "success"@ && "cancelled"@ != "finished"@ && "cancelled"@
            != "done"@ && "cancelled"@ != "completed"@ && "cancelled"@ != "succeeded"@,
{
    reveal_strlit("failed");
    reveal_strlit("error");
    reveal_strlit("canceled");
    reveal_strlit("cancelled");
    reveal_strlit("completed");
    reveal_strlit("succeeded");
    reveal_strlit("succeed");
    reveal_strlit("success");
    reveal_strlit("finished");
    reveal_strlit("done");
    assert("failed"@[0] == 'f' && "finished"@[0] == 'f' && "failed"@.len() == 6 && "finished"@.len() == 8);
    assert("error"@[0] == 'e' && "canceled"@[0] == 'c' && "cancelled"@[0] == 'c' && "done"@[0] == 'd');
    assert("completed"@[1] == 'o' && "canceled"@[1] == 'a' && "cancelled"@[1] == 'a' && "completed"@[0] == 'c');
    assert("succeeded"@[0] == 's' && "succeed"@[0] == 's' && "success"@[0] == 's');
}

/// What an answer says of a failure is the text under `error`; or, without an `error`, the text under
/// `message`; else a default.
pub proof fn failures_are_told(v: &Json, r: String)
    requires
        call_ensures(failure_message, (v,), r),
    ensures
        forall|s: Seq<char>| #[trigger] says(v@, "error"@, s) ==> r@ == s,
        forall|s: Seq<char>| v@.member("error"@) is None && #[trigger] says(v@, "message"@, s) ==> r@ == s,
        v@.member("error"@) matches Some(x) && !(x is Text) ==> r@ == "生成失败"@,
        v@.member("error"@) is None && !(v@.member("message"@) matches Some(JsonView::Text(_))) ==> r@ == "生成失败"@,
{
}

/// Whether `part` is what an answer says of the image: the first element of its data, if those are an
/// array that has one; else its data, if there are any; else the answer itself.
pub open spec fn describes_image(v: JsonView, part: JsonView) -> bool {
    match v.member("data"@) {
        Some(d) => if d.first() is Some {
            d.first() == Some(part)
        } else {
            d == part
        },
        None => v == part,
    }
}

/// Whether `v` has the text `s` under `key`.
pub open spec fn says(v: JsonView, key: Seq<char>, s: Seq<char>) -> bool {
    v.member(key) == Some(JsonView::Text(s))
}

/// Whether `v` has no text under `key`.
pub open spec fn says_nothing(v: JsonView, key: Seq<char>) -> bool {
    forall|s: Seq<char>| !#[trigger] says(v, key, s)
}

proof fn texts_are_said_or_not(v: JsonView, key: Seq<char>)
    ensures
        says_nothing(v, key) <==> !(v.member(key) matches Some(JsonView::Text(_))),
{
    if let Some(JsonView::Text(s)) = v.member(key) {
        assert(says(v, key, s));
    }
}

/// The image of an answer whose data are an array is at the address that the first element gives, if
/// that gives none in base64, whatever else the answer holds.
pub proof fn images_are_at_the_address_of_the_first_element(v: JsonView, compact: Seq<char>, d: JsonView, e: JsonView, u: Seq<char>)
    requires
        v.member("data"@) == Some(d),
        d.first() == Some(e),
        e.member("url"@) == Some(JsonView::Text(u)),
        !(e.member("b64_json"@) matches Some(JsonView::Text(_))),
    ensures
        image_in(v, compact) == Ok::<ImageSourceView, Seq<char>>(ImageSourceView::Remote(u)),
{
}

/// The image of an answer whose data are an object is at the address that they give, if they give
/// none in base64, whatever else the answer holds.
pub proof fn images_are_at_the_address_of_the_data(v: JsonView, compact: Seq<char>, d: JsonView, u: Seq<char>)
    requires
        v.member("data"@) == Some(d),
        d is Object,
        d.member("url"@) == Some(JsonView::Text(u)),
        !(d.member("b64_json"@) matches Some(JsonView::Text(_))),
    ensures
        image_in(v, compact) == Ok::<ImageSourceView, Seq<char>>(ImageSourceView::Remote(u)),
{
}

/// The image of an answer is what it gives in base64, if it does; else it is at the address that
/// stands by the image; else, if none stands there, at that of the answer. What is not a text is no
/// image and no address, and an address that is none hides that of the answer.
pub proof fn images_go_by_place(payload: &Payload, part: JsonView, r: Result<ImageSource, String>)
    requires
        call_ensures(extract_image_bytes, (payload,), r),
        describes_image(payload.value@, part),
    ensures
        forall|bytes: Seq<u8>|
            says(part, "b64_json"@, #[trigger] base64_text(bytes)) ==> (r matches Ok(ImageSource::Inline(b)) && b@ == bytes),
        forall|s: Seq<char>|
            #[trigger] says(part, "b64_json"@, s) && (forall|bytes: Seq<u8>| #[trigger] base64_text(bytes) != s)
                ==> (r matches Err(e) && e@ == "base64 解码失败："@ + base64_fault(s)),
        forall|u: Seq<char>|
            says_nothing(part, "b64_json"@) && #[trigger] says(part, "url"@, u) ==> (r matches Ok(ImageSource::Remote(a))
                && a@ == u),
        forall|u: Seq<char>|
            says_nothing(part, "b64_json"@) && part.member("url"@) is None && #[trigger] says(payload.value@, "url"@, u)
                ==> (r matches Ok(ImageSource::Remote(a)) && a@ == u),
        says_nothing(part, "b64_json"@) && says_nothing(part, "url"@) && (part.member("url"@) is Some || says_nothing(
            payload.value@,
            "url"@,
        )) ==> (r matches Err(e) && e@ == "响应中未找到图片数据："@ + cut(payload.compact@, 300)),
{
    let v = payload.value@;
    texts_are_said_or_not(part, "b64_json"@);
    texts_are_said_or_not(part, "url"@);
    texts_are_said_or_not(v, "url"@);
    truncating_is_cutting(payload.compact@, 300);
    assert(crate::json::image_part(v) == part);
    assert forall|bytes: Seq<u8>| says(part, "b64_json"@, #[trigger] base64_text(bytes)) implies (r matches Ok(
        ImageSource::Inline(b),
    ) && b@ == bytes) by {
        let s = base64_text(bytes);
        let read = choose|b: Seq<u8>| base64_text(b) == s;
        base64_is_injective(read, bytes);
    }
}

/// Where an image is found is told apart from what it is: in base64, at an address, or nowhere.
pub proof fn images_are_found(v: &Json, part: JsonView, r: ImageField)
    requires
        call_ensures(find_image, (v,), r),
        describes_image(v@, part),
    ensures
        forall|s: Seq<char>| #[trigger] says(part, "b64_json"@, s) ==> (r matches ImageField::Base64(t) && t@ == s),
        forall|u: Seq<char>|
            says_nothing(part, "b64_json"@) && #[trigger] says(part, "url"@, u) ==> (r matches ImageField::Url(t) && t@ == u),
        forall|u: Seq<char>|
            says_nothing(part, "b64_json"@) && part.member("url"@) is None && #[trigger] says(v@, "url"@, u)
                ==> (r matches ImageField::Url(t) && t@ == u),
        says_nothing(part, "b64_json"@) && says_nothing(part, "url"@) && (part.member("url"@) is Some || says_nothing(
            v@,
            "url"@,
        )) ==> r is Missing,
{
    texts_are_said_or_not(part, "b64_json"@);
    texts_are_said_or_not(part, "url"@);
    texts_are_said_or_not(v@, "url"@);
    assert(crate::json::image_part(v@) == part);
}

/// A request that waits for its image gets what the answer gives: the bytes, or the address that
/// stands by the image or in the answer. A form also gets the task id; any other request does not.
pub proof fn sent_answers_give_their_image(
    kind: SubmitKind,
    url: &str,
    text: &str,
    v: JsonView,
    part: JsonView,
    r: Result<SubmitReply, String>,
)
    requires
        call_ensures(submit_answer, (kind, url, text), r),
        kind != SubmitKind::Async,
        json_read(text@) == Ok::<JsonView, Seq<char>>(v),
        describes_image(v, part),
    ensures
        forall|bytes: Seq<u8>|
            says(part, "b64_json"@, #[trigger] base64_text(bytes)) ==> (r matches Ok(reply) && (reply.image matches Some(
                ImageSource::Inline(b),
            ) && b@ == bytes)),
        forall|s: Seq<char>|
            #[trigger] says(part, "b64_json"@, s) && (forall|bytes: Seq<u8>| #[trigger] base64_text(bytes) != s)
                ==> (r matches Err(e) && e@ == "base64 解码失败："@ + base64_fault(s)),
        forall|u: Seq<char>|
            says_nothing(part, "b64_json"@) && #[trigger] says(part, "url"@, u) ==> (r matches Ok(reply) && (
            reply.image matches Some(ImageSource::Remote(a)) && a@ == u)),
        forall|u: Seq<char>|
            says_nothing(part, "b64_json"@) && part.member("url"@) is None && #[trigger] says(v, "url"@, u)
                ==> (r matches Ok(reply) && (reply.image matches Some(ImageSource::Remote(a)) && a@ == u)),
        says_nothing(part, "b64_json"@) && says_nothing(part, "url"@) && (part.member("url"@) is Some || says_nothing(
            v,
            "url"@,
        )) ==> (r matches Err(e) && e@ == "响应中未找到图片数据："@ + cut(json_text(v), 300)),
        r matches Ok(reply) ==> text_if_any(reply.task_id) == (if kind == SubmitKind::Form {
            task_id_in(v)
        } else {
            None
        }),
{
    texts_are_said_or_not(part, "b64_json"@);
    texts_are_said_or_not(part, "url"@);
    texts_are_said_or_not(v, "url"@);
    truncating_is_cutting(json_text(v), 300);
    assert(crate::json::image_part(v) == part);
    assert forall|bytes: Seq<u8>| says(part, "b64_json"@, #[trigger] base64_text(bytes)) implies (r matches Ok(reply)
        && (reply.image matches Some(ImageSource::Inline(b)) && b@ == bytes)) by {
        let s = base64_text(bytes);
        let read = choose|b: Seq<u8>| base64_text(b) == s;
        base64_is_injective(read, bytes);
    }
}

/// An answer that cannot be read is reported with its address, the reason, and its beginning.
pub proof fn unreadable_answers_are_reported(
    kind: SubmitKind,
    url: &str,
    text: &str,
    fault: Seq<char>,
    parsed: Result<Payload, String>,
    r: Result<SubmitReply, String>,
)
    requires
        call_ensures(parse_json, (text, url), parsed),
        call_ensures(submit_answer, (kind, url, text), r),
    ensures
        json_read(text@) == Err::<JsonView, Seq<char>>(fault) ==> {
            &&& parsed matches Err(e) && e@ == url@ + " 返回非 JSON："@ + fault + "；"@ + cut(text@, 300)
            &&& r matches Err(e) && e@ == url@ + " 返回非 JSON："@ + fault + "；"@ + cut(text@, 300)
        },
        json_read(text@) is Ok ==> (parsed matches Ok(p) && json_read(text@) == Ok::<JsonView, Seq<char>>(p.value@)
            && p.compact@ == json_text(p.value@)),
{
    truncating_is_cutting(text@, 300);
}

}
