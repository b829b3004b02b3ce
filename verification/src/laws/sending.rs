//! What is sent to a service, and where: in terms of what was asked for.

use crate::encoding::{base64_text, read_refs_base64};
use crate::http::{generation_reply, query_reply, url_below, HttpReply};
use crate::json::{json_text, JsonView};
use crate::laws::questions::{objects_have_their_fields, request_fields_are_distinct};
use crate::laws::text::{cut, strip_end_part, truncating_is_cutting};
use crate::model::{texts, ProviderConfig, ProviderView};
use crate::submit::{
    can_name_file, can_submit, fields_json, is_object_of, request_fields, submit_generation, submit_json_generation,
    submit_openai_edits, FieldView, SubmitKind, SubmitRequest,
};
use crate::text::{decimal, strip_end, trimmed, CharSet};
use vstd::prelude::*;

verus! {

/// Whether `url` is the address `path` below `base_url`: what is left of `base_url` without the white
/// space around it and the slashes at its end, and `path` behind that.
pub open spec fn is_below(url: Seq<char>, base_url: Seq<char>, path: Seq<char>) -> bool {
    let base = trimmed(base_url);
    exists|k: int|
        0 <= k <= base.len() && url == #[trigger] base.take(k) + path && (forall|i: int|
            k <= i < base.len() ==> #[trigger] base[i] == '/') && (k > 0 ==> base[k - 1] != '/')
}

pub(crate) proof fn bare_addresses_are_below(base_url: Seq<char>, path: Seq<char>)
    ensures
        is_below(crate::http::bare_url(base_url) + path, base_url, path),
{
    let base = trimmed(base_url);
    let bare = strip_end(base, CharSet::Only('/'));
    strip_end_part(base, CharSet::Only('/'));
    let k = bare.len() as int;
    assert(base.take(k) == bare);
    assert forall|i: int| k <= i < base.len() implies #[trigger] base[i] == '/' by {
        assert(CharSet::Only('/').has(base[i]));
    }
}

/// Addresses lie below the base address.
pub proof fn addresses_are_below_the_base(base_url: &str, path: &str, r: String)
    requires
        call_ensures(url_below, (base_url, path), r),
    ensures
        is_below(r@, base_url@, path@),
{
    bare_addresses_are_below(base_url@, path@);
}

/// A reply is good exactly if its code is one of the two hundreds. What is reported of any other tells
/// what failed, the status, and the beginning of the body.
pub proof fn replies_are_judged_by_their_code(
    reply: HttpReply,
    sent: Result<String, String>,
    asked: Result<String, String>,
)
    requires
        call_ensures(generation_reply, (reply,), sent),
        call_ensures(query_reply, (reply,), asked),
    ensures
        200 <= reply.code < 300 ==> (sent matches Ok(body) && body@ == reply.body@) && (asked matches Ok(body) && body@
            == reply.body@),
        !(200 <= reply.code < 300) ==> {
            &&& sent matches Err(e) && e@ == "图片生成失败"@ + " HTTP "@ + reply.status@ + "："@ + cut(reply.body@, 500)
            &&& asked matches Err(e) && e@ == "查询任务失败"@ + " HTTP "@ + reply.status@ + "："@ + cut(reply.body@, 500)
        },
{
    truncating_is_cutting(reply.body@, 500);
}

/// An object that was made of fields has no others.
proof fn objects_have_no_other_fields(v: JsonView, fields: Seq<(Seq<char>, FieldView)>, key: Seq<char>)
    requires
        is_object_of(v, fields),
        forall|i: int| 0 <= i < fields.len() ==> (#[trigger] fields[i]).0 != key,
    ensures
        v.member(key) is None,
{
    let held = v->Object_0;
    let all = fields_json(fields);
    all.to_multiset_ensures();
    held.to_multiset_ensures();
    assert forall|i: int| 0 <= i < held.len() implies (#[trigger] held[i]).0 != key by {
        assert(held.contains(held[i]));
        assert(all.to_multiset().count(held[i]) > 0);
        assert(all.contains(held[i]));
        let j = choose|j: int| 0 <= j < all.len() && all[j] == held[i];
        assert(fields[j].0 == all[j].0);
    }
    crate::laws::answers::members_go_by_name(held, key);
}

/// Whether `v` asks for an image: under `model` for that of the service, without white space around
/// it; under `prompt` and `size` for just what was asked; under `n` for one; under `response_format`
/// for an address; under `async`, if the service is to work on it later, that it is; under `image` the
/// reference image, if there is one, and under `images` all of them in order, if there are several.
/// There is nothing else.
pub open spec fn asks_for_image(
    v: JsonView,
    model: Seq<char>,
    prompt: Seq<char>,
    size: Seq<char>,
    contents: Seq<Vec<u8>>,
    later: bool,
) -> bool {
    &&& v is Object
    &&& v.member("model"@) == Some(JsonView::Text(trimmed(model)))
    &&& v.member("prompt"@) == Some(JsonView::Text(prompt))
    &&& v.member("size"@) == Some(JsonView::Text(size))
    &&& v.member("n"@) == Some(JsonView::Number(seq!['1']))
    &&& v.member("response_format"@) == Some(JsonView::Text("url"@))
    &&& later ==> v.member("async"@) == Some(JsonView::Bool(true))
    &&& !later ==> v.member("async"@) is None
    &&& contents.len() == 1 ==> v.member("image"@) == Some(JsonView::Text(base64_text(contents[0]@)))
    &&& contents.len() != 1 ==> v.member("image"@) is None
    &&& contents.len() > 1 ==> (v.member("images"@) matches Some(JsonView::Array(all)) && all.len() == contents.len() && (
    forall|i: int| 0 <= i < all.len() ==> #[trigger] all[i] == JsonView::Text(base64_text(contents[i]@))))
    &&& contents.len() <= 1 ==> v.member("images"@) is None
    &&& forall|key: Seq<char>|
        (#[trigger] v.member(key)) is Some ==> key == "model"@ || key == "prompt"@ || key == "size"@ || key == "n"@ || key
            == "response_format"@ || key == "async"@ || key == "image"@ || key == "images"@
}

/// The names of the fields of a request differ.
proof fn names_differ()
    ensures
        "image"@ != "images"@ && "image"@ != "async"@ && "images"@ != "async"@,
        "model"@ != "image"@ && "model"@ != "images"@ && "model"@ != "async"@,
        "prompt"@ != "image"@ && "prompt"@ != "images"@ && "prompt"@ != "async"@,
        "n"@ != "image"@ && "n"@ != "images"@ && "n"@ != "async"@,
        "size"@ != "image"@ && "size"@ != "images"@ && "size"@ != "async"@,
        "response_format"@ != "image"@ && "response_format"@ != "images"@ && "response_format"@ != "async"@,
{
    reveal_strlit("model");
    reveal_strlit("prompt");
    reveal_strlit("n");
    reveal_strlit("size");
    reveal_strlit("response_format");
    reveal_strlit("async");
    reveal_strlit("image");
    reveal_strlit("images");
    assert("model"@[0] == 'm' && "async"@[0] == 'a' && "image"@[0] == 'i' && "size"@[0] == 's');
    assert("prompt"@[0] == 'p' && "images"@[0] == 'i' && "n"@[0] == 'n' && "response_format"@[0] == 'r');
    assert("image"@.len() == 5 && "images"@.len() == 6);
}

/// The body of every JSON request asks for the image that was asked for: the prompt and the size as
/// they are, of any length, and all reference images in order.
pub proof fn bodies_ask_for_the_image(
    v: JsonView,
    provider: ProviderView,
    prompt: Seq<char>,
    size: Seq<char>,
    contents: Seq<Vec<u8>>,
    later: bool,
)
    requires
        is_object_of(
            v,
            request_fields(provider, prompt, size, contents.map_values(|c: Vec<u8>| base64_text(c@)), later),
        ),
    ensures
        asks_for_image(v, provider.model, prompt, size, contents, later),
{
    let refs = contents.map_values(|c: Vec<u8>| base64_text(c@));
    let fields = request_fields(provider, prompt, size, refs, later);
    request_fields_are_distinct(provider, prompt, size, refs, later);
    names_differ();
    assert(fields[0].0 == "model"@ && fields[1].0 == "prompt"@ && fields[2].0 == "n"@ && fields[3].0 == "size"@
        && fields[4].0 == "response_format"@);
    objects_have_their_fields(v, fields, 0);
    objects_have_their_fields(v, fields, 1);
    objects_have_their_fields(v, fields, 2);
    objects_have_their_fields(v, fields, 3);
    objects_have_their_fields(v, fields, 4);
    assert(decimal(1) =~= seq!['1']);
    if later {
        assert(fields[5].0 == "async"@);
        objects_have_their_fields(v, fields, 5);
    } else {
        objects_have_no_other_fields(v, fields, "async"@);
    }
    let last = fields.len() - 1;
    if contents.len() == 1 {
        assert(fields[last].0 == "image"@);
        objects_have_their_fields(v, fields, last);
    } else {
        objects_have_no_other_fields(v, fields, "image"@);
    }
    if contents.len() > 1 {
        assert(fields[last].0 == "images"@);
        objects_have_their_fields(v, fields, last);
    } else {
        objects_have_no_other_fields(v, fields, "images"@);
    }
    assert forall|key: Seq<char>| (#[trigger] v.member(key)) is Some implies key == "model"@ || key == "prompt"@ || key
        == "size"@ || key == "n"@ || key == "response_format"@ || key == "async"@ || key == "image"@ || key == "images"@ by {
        if forall|i: int| 0 <= i < fields.len() ==> (#[trigger] fields[i]).0 != key {
            objects_have_no_other_fields(v, fields, key);
        }
    }
}

/// Whether `r` is the JSON request for the image: it goes to `/images/generations` of the service, with
/// its key, and its body asks for the image.
pub open spec fn is_json_request_for(
    r: SubmitRequest,
    provider: ProviderView,
    prompt: Seq<char>,
    size: Seq<char>,
    contents: Seq<Vec<u8>>,
    later: bool,
) -> bool {
    &&& r matches SubmitRequest::Json { url, token, body, async_mode }
    &&& is_below(url@, provider.base_url, "/images/generations"@)
    &&& token@ == trimmed(provider.api_key)
    &&& async_mode == later
    &&& exists|v: JsonView|
        body@ == #[trigger] json_text(v) && asks_for_image(v, provider.model, prompt, size, contents, later)
}

proof fn json_requests_ask_for_the_image(
    r: SubmitRequest,
    provider: ProviderView,
    prompt: Seq<char>,
    size: Seq<char>,
    contents: Seq<Vec<u8>>,
    later: bool,
)
    requires
        crate::submit::is_json_request(
            r,
            provider,
            prompt,
            size,
            crate::encoding::base64_texts(contents),
            later,
        ),
    ensures
        is_json_request_for(r, provider, prompt, size, contents, later),
{
    let refs = contents.map_values(|c: Vec<u8>| base64_text(c@));
    assert(refs == crate::encoding::base64_texts(contents));
    bare_addresses_are_below(provider.base_url, "/images/generations"@);
    if let SubmitRequest::Json { url, token, body, async_mode } = r {
        let v = choose|v: JsonView|
            #[trigger] is_object_of(v, request_fields(provider, prompt, size, refs, later)) && body@ == json_text(v);
        bodies_ask_for_the_image(v, provider, prompt, size, contents, later);
    }
}

/// A JSON request asks the service for the image.
pub proof fn requests_ask_for_the_image(
    provider: &ProviderConfig,
    prompt: &str,
    size: &str,
    contents: &Vec<Vec<u8>>,
    later: bool,
    r: SubmitRequest,
)
    requires
        call_ensures(submit_json_generation, (provider, prompt, size, contents, later), r),
    ensures
        is_json_request_for(r, provider@, prompt@, size@, contents@, later),
{
    json_requests_ask_for_the_image(r, provider@, prompt@, size@, contents@, later);
}

/// Whether `field` is called `name` and holds `value`.
pub open spec fn is_field(field: (String, String), name: Seq<char>, value: Seq<char>) -> bool {
    field.0@ == name && field.1@ == value
}

/// Whether `r` is the form for the image: it goes to `/images/edits` of the service, with its key; its
/// five texts ask for the image, in base64; and each reference image is a file as it is, in order.
pub open spec fn is_form_for(
    r: SubmitRequest,
    provider: ProviderView,
    prompt: Seq<char>,
    size: Seq<char>,
    paths: Seq<Seq<char>>,
    contents: Seq<Vec<u8>>,
) -> bool {
    &&& r matches SubmitRequest::Form { url, token, fields, files }
    &&& is_below(url@, provider.base_url, "/images/edits"@)
    &&& token@ == trimmed(provider.api_key)
    &&& fields@.len() == 5
    &&& is_field(fields@[0], "model"@, trimmed(provider.model))
    &&& is_field(fields@[1], "prompt"@, prompt)
    &&& is_field(fields@[2], "size"@, size)
    &&& is_field(fields@[3], "n"@, "1"@)
    &&& is_field(fields@[4], "response_format"@, "b64_json"@)
    &&& files@.len() == contents.len() == paths.len()
    &&& forall|i: int|
        0 <= i < files@.len() ==> (#[trigger] files@[i]).name@ == "image[]"@ && files@[i].bytes@ == contents[i]@
            && can_name_file(paths[i], files@[i].file_name@)
}

proof fn forms_ask_for_the_image(
    r: SubmitRequest,
    provider: ProviderView,
    prompt: Seq<char>,
    size: Seq<char>,
    paths: Seq<Seq<char>>,
    contents: Seq<Vec<u8>>,
)
    requires
        crate::submit::is_form_request(r, provider, prompt, size, paths, contents),
    ensures
        is_form_for(r, provider, prompt, size, paths, contents),
{
    bare_addresses_are_below(provider.base_url, "/images/edits"@);
    if let SubmitRequest::Form { url, token, fields, files } = r {
        let all = crate::submit::named_texts(fields@);
        assert(all.len() == fields@.len());
        assert(all[0] == (fields@[0].0@, fields@[0].1@));
        assert(all[1] == (fields@[1].0@, fields@[1].1@));
        assert(all[2] == (fields@[2].0@, fields@[2].1@));
        assert(all[3] == (fields@[3].0@, fields@[3].1@));
        assert(all[4] == (fields@[4].0@, fields@[4].1@));
    }
}

/// A form asks the service for the image, with the reference images as files.
pub proof fn edits_ask_for_the_image(
    provider: &ProviderConfig,
    prompt: &str,
    size: &str,
    paths: &Vec<String>,
    contents: Vec<Vec<u8>>,
    r: SubmitRequest,
)
    requires
        call_ensures(submit_openai_edits, (provider, prompt, size, paths, contents), r),
    ensures
        is_form_for(r, provider@, prompt@, size@, texts(paths@), contents@),
{
    forms_ask_for_the_image(r, provider@, prompt@, size@, texts(paths@), contents@);
}

/// The adapter picks the request: `openai_edits` a form, if there are reference images; else
/// `sync_generations` a JSON request that waits for the image, and any other one that does not.
pub proof fn adapters_pick_the_request(
    provider: &ProviderConfig,
    prompt: &str,
    size: &str,
    paths: &Vec<String>,
    contents: Vec<Vec<u8>>,
    r: SubmitRequest,
    kind: SubmitKind,
)
    requires
        call_ensures(submit_generation, (provider, prompt, size, paths, contents), r),
        call_ensures(SubmitRequest::kind, (&r,), kind),
    ensures
        provider.adapter@ == "openai_edits"@ && paths@.len() > 0 ==> is_form_for(
            r,
            provider@,
            prompt@,
            size@,
            texts(paths@),
            contents@,
        ) && kind == SubmitKind::Form,
        provider.adapter@ == "sync_generations"@ ==> is_json_request_for(
            r,
            provider@,
            prompt@,
            size@,
            contents@,
            false,
        ) && kind == SubmitKind::Sync,
        provider.adapter@ != "sync_generations"@ && (provider.adapter@ != "openai_edits"@ || paths@.len() == 0)
            ==> is_json_request_for(r, provider@, prompt@, size@, contents@, true) && kind == SubmitKind::Async,
{
    reveal_strlit("openai_edits");
    reveal_strlit("sync_generations");
    assert("openai_edits"@.len() != "sync_generations"@.len());
    if provider.adapter@ == "openai_edits"@ && paths@.len() > 0 {
        forms_ask_for_the_image(r, provider@, prompt@, size@, texts(paths@), contents@);
    } else {
        json_requests_ask_for_the_image(
            r,
            provider@,
            prompt@,
            size@,
            contents@,
            provider.adapter@ != "sync_generations"@,
        );
    }
}

/// A request can be sent exactly if there is a file for each path and, unless it goes as a form, the
/// base64 text of each fits into memory.
pub proof fn requests_need_their_files(
    provider: &ProviderConfig,
    paths: &Vec<String>,
    contents: &Vec<Vec<u8>>,
    r: bool,
)
    requires
        call_ensures(can_submit, (provider, paths, contents), r),
    ensures
        r <==> paths@.len() == contents@.len() && ((provider.adapter@ == "openai_edits"@ && paths@.len() > 0) || (
        forall|i: int| 0 <= i < contents@.len() ==> (#[trigger] contents@[i]@.len() + 2) / 3 * 4 <= isize::MAX)),
{
    if forall|i: int| 0 <= i < contents@.len() ==> (#[trigger] contents@[i]@.len() + 2) / 3 * 4 <= isize::MAX {
        assert(crate::encoding::all_encodable(contents@));
    }
    if crate::encoding::all_encodable(contents@) {
        assert forall|i: int| 0 <= i < contents@.len() implies (#[trigger] contents@[i]@.len() + 2) / 3 * 4
            <= isize::MAX by {
            assert(crate::encoding::encodable(contents@[i]@.len()));
        }
    }
}

/// Reference images are written as base64 one by one, in order.
pub proof fn references_keep_their_order(contents: &Vec<Vec<u8>>, r: Vec<String>)
    requires
        call_ensures(read_refs_base64, (contents,), r),
    ensures
        r@.len() == contents@.len(),
        forall|i: int| 0 <= i < r@.len() ==> (#[trigger] r@[i])@ == base64_text(contents@[i]@),
{
    assert forall|i: int| 0 <= i < r@.len() implies (#[trigger] r@[i])@ == base64_text(contents@[i]@) by {
        assert(texts(r@)[i] == r@[i]@);
        assert(crate::encoding::base64_texts(contents@)[i] == base64_text(contents@[i]@));
    }
}

}
