//! The OpenAPI endpoints of the poem server.
pub mod endpoints;
pub mod session;

use crate::net::api_server_url;
use vstd::prelude::*;

verus! {

/// The title under which the API is described.
pub const API_TITLE: &'static str = "Hello World";

/// The version under which the API is described.
pub const API_VERSION: &'static str = "1.0";

/// The server URL that the API's description names for a server at `server_url`.
pub fn api_service_url(server_url: &str) -> (url: String)
    ensures
        url@ == server_url@ + "/api"@,
{
    api_server_url(server_url)
}

} // verus!
