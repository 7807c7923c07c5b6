use vstd::prelude::*;
use vstd::string::StringExecFns;
use crate::network::address::text_of;
use crate::network::server::{Server, request_url};
use crate::text::{decimal, push_decimal};

verus! {

/// The URL asked to search `server` for `query`: route `search`, query `query=<query>`.
pub fn search_url(server: &Server, query: &str) -> (r: Option<String>)
    ensures
        text_of(r) == request_url(server@.url, "search"@, "query="@ + query@),
{
    let mut q = String::from_str("query=");
    q.append(query);
    server.url_with_params("search", q.as_str())
}

/// The URL asked for the post with `id`: route `posts`, query `id=<id>`.
pub fn post_url(server: &Server, id: u16) -> (r: Option<String>)
    ensures
        text_of(r) == request_url(server@.url, "posts"@, "id="@ + decimal(id as nat)),
{
    let mut q = String::from_str("id=");
    push_decimal(&mut q, id as u64);
    server.url_with_params("posts", q.as_str())
}

/// The URL asked to sign in: route `user/login`, empty query.
pub fn login_url(server: &Server) -> (r: Option<String>)
    ensures
        text_of(r) == request_url(server@.url, "user/login"@, ""@),
{
    server.url_with_params("user/login", "")
}

/// The URL asked to check a verification code: route `user/verify`, query `code=<code>`.
pub fn verify_url(server: &Server, code: &str) -> (r: Option<String>)
    ensures
        text_of(r) == request_url(server@.url, "user/verify"@, "code="@ + code@),
{
    let mut q = String::from_str("code=");
    q.append(code);
    server.url_with_params("user/verify", q.as_str())
}

/// The URL asked for the server's statistics: route `stats`, empty query.
pub fn stats_url(server: &Server) -> (r: Option<String>)
    ensures
        text_of(r) == request_url(server@.url, "stats"@, ""@),
{
    server.url_with_params("stats", "")
}

/// The URL that tells a Terse server from another site: route
/// `exists-and-is-a-terse-server`, empty query.
pub fn exists_url(server: &Server) -> (r: Option<String>)
    ensures
        text_of(r) == request_url(server@.url, "exists-and-is-a-terse-server"@, ""@),
{
    server.url_with_params("exists-and-is-a-terse-server", "")
}

/// The URL a post is published to: route `posts`, empty query.
pub fn publish_url(server: &Server) -> (r: Option<String>)
    ensures
        text_of(r) == request_url(server@.url, "posts"@, ""@),
{
    server.url_with_params("posts", "")
}

} // verus!
