//! The shared client handle: a transport instance and a base URL.

use vstd::prelude::*;

verus! {

#[verifier::external_type_specification]
#[verifier::external_body]
pub struct ExClient(reqwest::Client);

/// Relies on reqwest::Client::new: a transport handle with default
/// configuration. It panics only when the TLS backend or the system
/// resolver cannot be initialised.
#[verifier::external_body]
fn new_transport() -> reqwest::Client {
    reqwest::Client::new()
}

/// Relies on reqwest::Client's derived clone: it clones the one inner
/// shared reference, so the result is an equal handle to the same
/// transport.
pub assume_specification[ <reqwest::Client as Clone>::clone ](
    client: &reqwest::Client,
) -> (r: reqwest::Client)
    ensures
        r == *client,
;

/// The base URL of the public picsum.photos service, the default for
/// clients built without an override.
pub fn default_base_url() -> (r: &'static str)
    ensures
        r@ == "https://picsum.photos"@,
{
    "https://picsum.photos"
}

/// An immutable handle for issuing requests: a transport and the base
/// URL that request URLs are built against. Cheap to duplicate, safe to
/// share between any number of concurrent callers, and never mutated
/// after construction.
#[derive(Debug, Clone)]
pub struct PicsumClient {
    pub transport: reqwest::Client,
    pub base_url: String,
}

impl PicsumClient {
    /// A builder for a client with a custom transport or base URL.
    pub fn builder() -> (r: PicsumClientBuilder)
        ensures
            r.client is None,
            r.base_url@ == "https://picsum.photos"@,
    {
        PicsumClientBuilder::new()
    }
}

impl Default for PicsumClient {
    /// A fresh default transport, pointed at the public service.
    fn default() -> (r: Self)
        ensures
            r.base_url@ == "https://picsum.photos"@,
    {
        PicsumClient { transport: new_transport(), base_url: default_base_url().to_owned() }
    }
}

/// Collects the pieces of a [`PicsumClient`], supplying a default
/// transport and the default base URL for whatever is left unset.
#[derive(Debug, Clone)]
pub struct PicsumClientBuilder {
    pub client: Option<reqwest::Client>,
    pub base_url: String,
}

impl PicsumClientBuilder {
    /// A builder with no transport chosen yet and the default base URL.
    pub fn new() -> (r: Self)
        ensures
            r.client is None,
            r.base_url@ == "https://picsum.photos"@,
    {
        PicsumClientBuilder { client: None, base_url: default_base_url().to_owned() }
    }

    /// The same builder with the transport to use.
    pub fn client(self, client: reqwest::Client) -> (r: Self)
        ensures
            r.client == Some(client),
            r.base_url == self.base_url,
    {
        PicsumClientBuilder { client: Some(client), base_url: self.base_url }
    }

    /// The same builder with the base URL to build request URLs against.
    pub fn base_url(self, base_url: String) -> (r: Self)
        ensures
            r.base_url == base_url,
            r.client == self.client,
    {
        PicsumClientBuilder { client: self.client, base_url }
    }

    /// The configured client; a fresh default transport when none was
    /// set.
    pub fn build(&self) -> (r: PicsumClient)
        ensures
            r.base_url@ == self.base_url@,
            self.client matches Some(c) ==> r.transport == c,
    {
        let transport = match &self.client {
            Some(c) => c.clone(),
            None => new_transport(),
        };
        PicsumClient { transport, base_url: self.base_url.clone() }
    }
}

impl Default for PicsumClientBuilder {
    /// A default transport, taken as it is, and the default base URL.
    fn default() -> (r: Self)
        ensures
            r.client is Some,
            r.base_url@ == "https://picsum.photos"@,
    {
        PicsumClientBuilder {
            client: Some(new_transport()),
            base_url: default_base_url().to_owned(),
        }
    }
}

} // verus!
