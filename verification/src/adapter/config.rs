//! Where the client sends its requests and for which account.
use vstd::prelude::*;

use crate::error::SdkError;
use crate::text::{concat2, i64_to_text, owned};

verus! {

/// Base URL of the API.
pub open spec fn default_base_url() -> Seq<char> {
    "https://openapi.tossinvest.com"@
}

/// Message of the error for an account-scoped request without an account.
pub open spec fn missing_account_message() -> Seq<char> {
    "account_seq not set; call with_account()"@
}

/// Base URL and default account of a client.
#[derive(Debug, Clone)]
pub struct ClientConfig {
    base_url: String,
    default_account_seq: Option<i64>,
}

impl ClientConfig {
    /// The base URL that requests go to.
    pub closed spec fn base_url(&self) -> Seq<char> {
        self.base_url@
    }

    /// The account (`accountSeq`) that account-scoped requests are sent for.
    pub closed spec fn account(&self) -> Option<i64> {
        self.default_account_seq
    }

    /// The URL of `path` under the base URL.
    pub open spec fn url_of(&self, path: Seq<char>) -> Seq<char> {
        self.base_url() + path
    }

    /// The base URL of the API and no account.
    pub fn new() -> (r: Self)
        ensures
            r.base_url() == default_base_url(),
            r.account() is None,
    {
        ClientConfig { base_url: owned("https://openapi.tossinvest.com"), default_account_seq: None }
    }

    /// Replaces the base URL, to reach a mock server or a private endpoint.
    pub fn with_base_url(self, base_url: &str) -> (r: Self)
        ensures
            r.base_url() == base_url@,
            r.account() == self.account(),
    {
        ClientConfig { base_url: owned(base_url), ..self }
    }

    /// Sets the account (`accountSeq`, as `GET /accounts` lists it) of account-scoped requests.
    pub fn with_account(self, account_seq: i64) -> (r: Self)
        ensures
            r.base_url() == self.base_url(),
            r.account() == Some(account_seq),
    {
        ClientConfig { default_account_seq: Some(account_seq), ..self }
    }

    /// The `AccountSeq` that a request carries: none where it is not scoped to an
    /// account; the account where one is set; an error where none is set.
    pub fn account_seq(&self, needs_account: bool) -> (r: Result<Option<i64>, SdkError>)
        ensures
            !needs_account ==> r matches Ok(None),
            needs_account && self.account() is Some ==> r == Ok::<Option<i64>, SdkError>(self.account()),
            needs_account && self.account() is None ==> (r matches Err(e) && e.unknown_view() == Some(
                missing_account_message(),
            )),
    {
        if needs_account {
            match self.default_account_seq {
                Some(seq) => Ok(Some(seq)),
                None => Err(SdkError::Unknown(owned("account_seq not set; call with_account()"))),
            }
        } else {
            Ok(None)
        }
    }

    /// The value of the `AccountSeq` header of a request: the account in decimal,
    /// none where the request is not scoped to an account, an error where no
    /// account is set.
    pub fn account_header(&self, needs_account: bool) -> (r: Result<Option<String>, SdkError>)
        ensures
            !needs_account ==> r matches Ok(None),
            needs_account && self.account() is Some ==> (r matches Ok(Some(h)) && h@ == crate::text::signed_decimal(
                self.account().unwrap() as int,
            )),
            needs_account && self.account() is None ==> (r matches Err(e) && e.unknown_view() == Some(
                missing_account_message(),
            )),
    {
        match self.account_seq(needs_account) {
            Ok(Some(seq)) => Ok(Some(i64_to_text(seq))),
            Ok(None) => Ok(None),
            Err(e) => Err(e),
        }
    }

    /// The URL of `path` under the base URL.
    pub fn url(&self, path: &str) -> (r: String)
        ensures
            r@ == self.url_of(path@),
    {
        concat2(self.base_url.as_str(), path)
    }
}

/// Every request of a client, the token request among them, goes below the same
/// base URL: the URL of any path starts with the base URL and ends with the path.
pub proof fn lemma_urls_share_base(config: ClientConfig, path: Seq<char>)
    ensures
        config.url_of(path).len() == config.base_url().len() + path.len(),
        config.url_of(path).subrange(0, config.base_url().len() as int) == config.base_url(),
        config.url_of(path).subrange(config.base_url().len() as int, config.url_of(path).len() as int) == path,
{
    assert(config.url_of(path).subrange(0, config.base_url().len() as int) =~= config.base_url());
    assert(config.url_of(path).subrange(config.base_url().len() as int, config.url_of(path).len() as int) =~= path);
}

} // verus!
