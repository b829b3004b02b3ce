//! What is made of the replies of a service, and the addresses that it is asked at.

use crate::model::ProviderView;
use crate::text::{joined, strip_end, strip_end_of, trim, trimmed, truncate, truncated, CharSet};
use vstd::prelude::*;
use vstd::string::*;

verus! {

/// A reply: its status code, the status in words, and its body.
#[derive(Debug, PartialEq)]
pub struct HttpReply {
    pub code: u16,
    pub status: String,
    pub body: String,
}

/// Whether the status code `code` tells of success.
pub open spec fn is_success(code: u16) -> bool {
    200 <= code < 300
}

/// What is reported of a reply that tells of no success, under the heading `what`.
pub open spec fn http_failure(what: Seq<char>, status: Seq<char>, body: Seq<char>) -> Seq<char> {
    what + " HTTP "@ + status + "："@ + truncated(body, 500)
}

/// The body of `reply`, if it tells of success, else a report under the heading `what`.
fn check_reply(reply: HttpReply, what: &str) -> (r: Result<String, String>)
    ensures
        match r {
            Ok(body) => is_success(reply.code) && body@ == reply.body@,
            Err(e) => !is_success(reply.code) && e@ == http_failure(what@, reply.status@, reply.body@),
        },
{
    if 200 <= reply.code && reply.code < 300 {
        return Ok(reply.body);
    }
    let mut e = joined(what, " HTTP ");
    e.append(reply.status.as_str());
    e.append("：");
    e.append(truncate(reply.body.as_str(), 500).as_str());
    Err(e)
}

/// The body of the reply to a request for an image, if it tells of success.
pub fn generation_reply(reply: HttpReply) -> (r: Result<String, String>)
    ensures
        match r {
            Ok(body) => is_success(reply.code) && body@ == reply.body@,
            Err(e) => !is_success(reply.code) && e@ == http_failure(
                "图片生成失败"@,
                reply.status@,
                reply.body@,
            ),
        },
{
    check_reply(reply, "图片生成失败")
}

/// The body of the reply to a question after a task, if it tells of success.
pub fn query_reply(reply: HttpReply) -> (r: Result<String, String>)
    ensures
        match r {
            Ok(body) => is_success(reply.code) && body@ == reply.body@,
            Err(e) => !is_success(reply.code) && e@ == http_failure(
                "查询任务失败"@,
                reply.status@,
                reply.body@,
            ),
        },
{
    check_reply(reply, "查询任务失败")
}

/// The base address `base_url` without white space around it and without slashes at its end.
pub open spec fn bare_url(base_url: Seq<char>) -> Seq<char> {
    strip_end(trimmed(base_url), CharSet::Only('/'))
}

/// The address `path` at the service `provider`.
pub open spec fn service_url(provider: ProviderView, path: Seq<char>) -> Seq<char> {
    bare_url(provider.base_url) + path
}

/// The address `path` below the base address `base_url`.
pub fn url_below(base_url: &str, path: &str) -> (r: String)
    ensures
        r@ == bare_url(base_url@) + path@,
{
    joined(strip_end_of(trim(base_url), CharSet::Only('/')), path)
}

}
