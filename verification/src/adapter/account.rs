//! Account and holdings endpoints.
use vstd::prelude::*;

use super::{no_query, push_opt, request, str_text, ApiRequest, HttpMethod};
use crate::text::owned;

verus! {

/// The accounts of the user (`GET /api/v1/accounts`); not scoped to an account.
pub fn get_accounts() -> (r: ApiRequest)
    ensures
        r.is(HttpMethod::Get, "/api/v1/accounts"@, Seq::empty(), false),
        r.body is Empty,
{
    request(HttpMethod::Get, owned("/api/v1/accounts"), no_query(), false)
}

/// Holdings of the account (`GET /api/v1/holdings`), optionally of one `symbol`;
/// scoped to the account.
pub fn get_holdings(symbol: Option<&str>) -> (r: ApiRequest)
    ensures
        r.is(
            HttpMethod::Get,
            "/api/v1/holdings"@,
            Seq::empty() + super::optional_entry("symbol"@, super::opt_str(symbol)),
            true,
        ),
        r.body is Empty,
{
    let mut query = no_query();
    push_opt(&mut query, "symbol", str_text(symbol));
    request(HttpMethod::Get, owned("/api/v1/holdings"), query, true)
}

} // verus!
