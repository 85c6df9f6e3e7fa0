//! What a request for the sampled heap profile of the process is answered.

use vstd::prelude::*;

use super::pipeline::maybe_text;
use crate::text::join2;

verus! {

/// Where the server listens unless the environment says otherwise.
pub const DEFAULT_ADDRESS: &'static str = "127.0.0.1:6060";

/// The variable that says where the server listens.
pub const ADDRESS_ENV: &'static str = "VORTEX_HEAP_PROFILE_ADDR";

/// Where the server listens.
pub fn server_address(configured: Option<String>) -> (out: String)
    ensures
        out@ == (match maybe_text(configured) {
            Some(address) => address,
            None => DEFAULT_ADDRESS@,
        }),
{
    match configured {
        Some(address) => address,
        None => String::from_str(DEFAULT_ADDRESS),
    }
}

/// The paths that serve the profile.
pub open spec fn is_profile_path(path: Seq<char>) -> bool {
    path == "/debug/pprof/allocs"@ || path == "/debug/pprof/heap"@
}

/// The paths that serve the profile.
pub fn profile_paths() -> (out: Vec<&'static str>)
    ensures
        out@.len() == 2,
        forall|i: int| 0 <= i < 2 ==> is_profile_path((#[trigger] out@[i])@),
        forall|path: Seq<char>| #[trigger]
            is_profile_path(path) ==> path == out@[0]@ || path == out@[1]@,
{
    vec!["/debug/pprof/allocs", "/debug/pprof/heap"]
}

/// What came of asking the allocator for its profile.
pub enum Profile {
    /// The allocator keeps none.
    Unavailable,
    /// Sampling is switched off.
    Inactive,
    /// The profile.
    Dumped(Vec<u8>),
    /// Why it could not be had.
    Failed(String),
}

/// What an answer carries.
pub enum Body {
    Text(String),
    Bytes(Vec<u8>),
}

/// An answer.
pub struct Reply {
    pub status: u16,
    pub content_type: &'static str,
    pub body: Body,
}

/// An answer's status, content type and text.
pub open spec fn says(reply: Reply, status: u16, text: Seq<char>) -> bool {
    &&& reply.status == status
    &&& reply.content_type@ == "text/plain; charset=utf-8"@
    &&& reply.body matches Body::Text(found) && found@ == text
}

/// An answer in words.
fn text_reply(status: u16, text: String) -> (out: Reply)
    ensures
        says(out, status, text@),
{
    Reply { status, content_type: "text/plain; charset=utf-8", body: Body::Text(text) }
}

/// Answer a request for the profile.
pub fn heap_profile(profile: Profile) -> (out: Reply)
    ensures
        match profile {
            Profile::Unavailable => says(out, 503, "jemalloc profiling is unavailable"@),
            Profile::Inactive => says(out, 503, "jemalloc profiling is inactive"@),
            Profile::Dumped(pprof) => {
                &&& out.status == 200
                &&& out.content_type@ == "application/octet-stream"@
                &&& out.body matches Body::Bytes(found) && found@ == pprof@
            },
            Profile::Failed(error) => says(
                out,
                500,
                "failed to dump jemalloc heap profile: "@ + error@,
            ),
        },
{
    match profile {
        Profile::Unavailable => text_reply(
            503,
            String::from_str("jemalloc profiling is unavailable"),
        ),
        Profile::Inactive => text_reply(503, String::from_str("jemalloc profiling is inactive")),
        Profile::Dumped(pprof) => Reply {
            status: 200,
            content_type: "application/octet-stream",
            body: Body::Bytes(pprof),
        },
        Profile::Failed(error) => text_reply(
            500,
            join2("failed to dump jemalloc heap profile: ", error.as_str()),
        ),
    }
}

/// Answer a request whose answer could not be built.
pub fn unbuilt_reply(error: &str) -> (out: Reply)
    ensures
        says(out, 500, "failed to build heap profile response: "@ + error@),
{
    text_reply(500, join2("failed to build heap profile response: ", error))
}

} // verus!
