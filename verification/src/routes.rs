//! Paths and URLs of the REST API: which requests share a rate-limit bucket,
//! which responses mean that message search is still indexing, and the URL
//! of an API path.

use vstd::prelude::*;
use crate::auth::Authentication;
use crate::text::{append_decimal, append_str, chars_of, copy_str, decimal, has_prefix, has_suffix, vec_ends_with, vec_starts_with};

verus! {

/// The base of every REST URL.
pub open spec fn api_base() -> Seq<char> {
    "https://discord.com/api/"@
}

/// The suffix of the message search endpoints.
pub open spec fn search_suffix() -> Seq<char> {
    "/messages/search"@
}

/// The first part of a profile route.
pub open spec fn users_prefix() -> Seq<char> {
    "users/"@
}

/// The last part of a profile route.
pub open spec fn profile_suffix() -> Seq<char> {
    "/profile"@
}

/// The one bucket that every profile request shares.
pub open spec fn shared_profile_route() -> Seq<char> {
    "users/:user_id/profile"@
}

/// Whether `route` has the three segments `users`, a user id, `profile`.
pub open spec fn is_profile_route(route: Seq<char>) -> bool {
    &&& route.len() >= users_prefix().len() + profile_suffix().len()
    &&& has_prefix(route, users_prefix())
    &&& has_suffix(route, profile_suffix())
    &&& forall|k: int|
        users_prefix().len() <= k < route.len() - profile_suffix().len() ==> #[trigger] route[k]
            != '/'
}

/// The rate-limit bucket of a route: every `users/<id>/profile` shares one,
/// any other route is its own.
pub open spec fn route_bucket(route: Seq<char>) -> Seq<char> {
    if is_profile_route(route) {
        shared_profile_route()
    } else {
        route
    }
}

/// Whether a response asks a bot to retry a message search later.
pub open spec fn is_search_indexing(auth: Authentication, status: u16, path: Seq<char>) -> bool {
    auth == Authentication::Bot && status == 202 && has_suffix(path, search_suffix())
}

/// The URL of `path` under API version `version`.
pub open spec fn api_url(version: u8, path: Seq<char>) -> Seq<char> {
    api_base() + "v"@ + decimal(version as nat) + "/"@ + path
}

/// Whether a response with `status` to `path` means that the messages are
/// still being indexed, which a bot client waits out and retries.
pub fn should_retry_search_indexing(authentication: Authentication, status: u16, path: &str) -> (b:
    bool)
    ensures
        b == is_search_indexing(authentication, status, path@),
{
    if authentication != Authentication::Bot || status != 202 {
        return false;
    }
    let v = chars_of(path);
    let s = chars_of("/messages/search");
    vec_ends_with(&v, &s)
}

/// The rate-limit bucket of `route`: all profile requests share
/// `users/:user_id/profile`; every other route keeps its own.
pub fn rate_limit_route(route: &str) -> (r: &str)
    ensures
        r@ == route_bucket(route@),
{
    let v = chars_of(route);
    let pre = chars_of("users/");
    let suf = chars_of("/profile");
    if v.len() < pre.len() || v.len() - pre.len() < suf.len() {
        return route;
    }
    if !vec_starts_with(&v, 0, &pre) {
        assert(v@.subrange(0, v@.len() as int) =~= v@);
        return route;
    }
    assert(v@.subrange(0, v@.len() as int) =~= v@);
    if !vec_ends_with(&v, &suf) {
        return route;
    }
    let end = v.len() - suf.len();
    let mut k = pre.len();
    while k < end
        invariant
            pre@.len() <= k <= end,
            end == v@.len() - suf@.len(),
            pre@ == users_prefix(),
            suf@ == profile_suffix(),
            v@ == route@,
            forall|j: int| pre@.len() <= j < k ==> #[trigger] v@[j] != '/',
        decreases end - k,
    {
        if v[k] == '/' {
            assert(!is_profile_route(route@));
            return route;
        }
        k = k + 1;
    }
    "users/:user_id/profile"
}

/// The URL of `path` under API version `version`.
pub fn build_api_url(version: u8, path: &str) -> (s: String)
    ensures
        s@ == api_url(version, path@),
{
    let mut s = copy_str("https://discord.com/api/");
    append_str(&mut s, "v");
    append_decimal(&mut s, version as u64);
    append_str(&mut s, "/");
    append_str(&mut s, path);
    s
}

/// `users/<id>/profile`, for any id without a `/`, falls into the bucket
/// `users/:user_id/profile`; a route that does not begin with `users/` is a
/// bucket of its own.
pub proof fn law_profile_bucket(id: Seq<char>, route: Seq<char>)
    requires
        forall|k: int| 0 <= k < id.len() ==> id[k] != '/',
    ensures
        route_bucket("users/"@ + id + "/profile"@) == "users/:user_id/profile"@,
        !has_prefix(route, "users/"@) ==> route_bucket(route) == route,
{
    reveal_strlit("users/");
    reveal_strlit("/profile");
    let r = "users/"@ + id + "/profile"@;
    assert(r.subrange(0, 6) =~= "users/"@);
    assert(r.subrange(r.len() - 8, r.len() as int) =~= "/profile"@);
    assert forall|k: int| 6 <= k < r.len() - 8 implies #[trigger] r[k] != '/' by {
        assert(r[k] == id[k - 6]);
    }
}

} // verus!
