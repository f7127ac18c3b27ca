//! Addresses and settings shared by every request to the library server.

use vstd::prelude::*;

verus! {

/// The base address of the library server; endpoints are appended to it.
pub const URL: &'static str = "http://88.175.41.67:8080/";

/// The header that carries the session token.
pub const HEADER_TOKEN: &'static str = "Authorization";

/// The header that carries the administrator key when an account is
/// created.
pub const HEADER_ADMIN_KEY: &'static str = "XAdminKey";

/// The number of items on one page of search results.
pub const ITEMS_PER_PAGE: i64 = 10;

/// The endpoint that opens a session.
pub const ENDPOINT_LOGIN: &'static str = "user/login";

/// The endpoint that creates an account.
pub const ENDPOINT_CREATE_USER: &'static str = "user/create";

} // verus!
