//! The resolved client configuration: base URL, per-protocol issuance
//! endpoints and API keys, and the optional pinned root trust anchor. A
//! protocol is usable only if both its endpoint and its API key are present.

use crate::errors::{ConfigurationError, Protocol};
use vstd::prelude::*;
use vstd::string::*;

verus! {

/// The resolved configuration handed to the daemons. Built once at startup
/// from externally loaded values; endpoint URLs are derived from the base URL
/// and the per-protocol client identifiers.
#[derive(Debug, Clone)]
pub struct NiocaConfig {
    pub url: String,
    pub url_ssh: Option<String>,
    pub url_x509: Option<String>,
    pub root_pem: Option<String>,
    pub api_key_ssh: Option<String>,
    pub api_key_x509: Option<String>,
}

/// Everything one protocol's daemon needs to reach the authority.
#[derive(Debug, Clone)]
pub struct ProtocolEndpoint {
    pub url: String,
    pub api_key: String,
}

/// A base URL with a single trailing slash removed.
pub open spec fn strip_trailing_slash(url: Seq<char>) -> Seq<char> {
    if url.len() > 0 && url.last() == '/' {
        url.drop_last()
    } else {
        url
    }
}

/// The X509 issuance endpoint for a client identifier.
pub open spec fn x509_endpoint(base: Seq<char>, client_id: Seq<char>) -> Seq<char> {
    base + "/api/clients/x509/"@ + client_id + "/cert"@
}

/// The SSH issuance endpoint for a client identifier.
pub open spec fn ssh_endpoint(base: Seq<char>, client_id: Seq<char>) -> Seq<char> {
    base + "/api/clients/ssh/"@ + client_id + "/cert"@
}

/// The bearer token sent in the Authorization header for an API key.
pub fn auth_token(api_key: &str) -> (r: String)
    ensures
        r@ == "Bearer "@ + api_key@,
{
    let mut s = String::from_str("Bearer ");
    s.append(api_key);
    s
}

/// Remove a single trailing slash from a base URL.
fn normalize_base_url(url: String) -> (r: String)
    ensures
        r@ == strip_trailing_slash(url@),
{
    let len = url.as_str().unicode_len();
    if len > 0 && url.as_str().get_char(len - 1) == '/' {
        let stripped = url.as_str().substring_char(0, len - 1);
        proof {
            assert(stripped@ =~= url@.drop_last());
        }
        stripped.to_owned()
    } else {
        url
    }
}

impl NiocaConfig {
    /// Assemble the configuration from externally resolved values. Each
    /// protocol's endpoint URL exists exactly when its client identifier was
    /// given, and points at that client's issuance path under the base URL.
    pub fn from_values(
        url: String,
        client_id_x509: Option<String>,
        api_key_x509: Option<String>,
        client_id_ssh: Option<String>,
        api_key_ssh: Option<String>,
        root_pem: Option<String>,
    ) -> (c: NiocaConfig)
        ensures
            c.url@ == strip_trailing_slash(url@),
            c.url_x509 is Some <==> client_id_x509 is Some,
            client_id_x509 is Some ==> c.url_x509->0@ == x509_endpoint(
                strip_trailing_slash(url@),
                client_id_x509->0@,
            ),
            c.url_ssh is Some <==> client_id_ssh is Some,
            client_id_ssh is Some ==> c.url_ssh->0@ == ssh_endpoint(
                strip_trailing_slash(url@),
                client_id_ssh->0@,
            ),
            c.api_key_x509 == api_key_x509,
            c.api_key_ssh == api_key_ssh,
            c.root_pem == root_pem,
    {
        let base = normalize_base_url(url);
        let url_x509 = match client_id_x509 {
            Some(id) => {
                let mut u = base.clone();
                u.append("/api/clients/x509/");
                u.append(id.as_str());
                u.append("/cert");
                Some(u)
            },
            None => None,
        };
        let url_ssh = match client_id_ssh {
            Some(id) => {
                let mut u = base.clone();
                u.append("/api/clients/ssh/");
                u.append(id.as_str());
                u.append("/cert");
                Some(u)
            },
            None => None,
        };
        NiocaConfig { url: base, url_ssh, url_x509, root_pem, api_key_ssh, api_key_x509 }
    }

    /// The X509 endpoint and API key, or the startup-fatal configuration
    /// error naming what is missing. The API key is checked first.
    pub fn x509_params(&self) -> (r: Result<ProtocolEndpoint, ConfigurationError>)
        ensures
            r is Ok <==> (self.api_key_x509 is Some && self.url_x509 is Some),
            r is Ok ==> r->Ok_0.url == self.url_x509->0 && r->Ok_0.api_key
                == self.api_key_x509->0,
            self.api_key_x509 is None ==> r == Result::<ProtocolEndpoint, ConfigurationError>::Err(
                ConfigurationError::MissingApiKey(Protocol::X509),
            ),
            self.api_key_x509 is Some && self.url_x509 is None ==> r == Result::<
                ProtocolEndpoint,
                ConfigurationError,
            >::Err(ConfigurationError::MissingUrl(Protocol::X509)),
    {
        match &self.api_key_x509 {
            Some(key) => match &self.url_x509 {
                Some(url) => Ok(ProtocolEndpoint { url: url.clone(), api_key: key.clone() }),
                None => Err(ConfigurationError::MissingUrl(Protocol::X509)),
            },
            None => Err(ConfigurationError::MissingApiKey(Protocol::X509)),
        }
    }

    /// The SSH endpoint and API key, or the startup-fatal configuration
    /// error naming what is missing. The API key is checked first.
    pub fn ssh_params(&self) -> (r: Result<ProtocolEndpoint, ConfigurationError>)
        ensures
            r is Ok <==> (self.api_key_ssh is Some && self.url_ssh is Some),
            r is Ok ==> r->Ok_0.url == self.url_ssh->0 && r->Ok_0.api_key == self.api_key_ssh->0,
            self.api_key_ssh is None ==> r == Result::<ProtocolEndpoint, ConfigurationError>::Err(
                ConfigurationError::MissingApiKey(Protocol::Ssh),
            ),
            self.api_key_ssh is Some && self.url_ssh is None ==> r == Result::<
                ProtocolEndpoint,
                ConfigurationError,
            >::Err(ConfigurationError::MissingUrl(Protocol::Ssh)),
    {
        match &self.api_key_ssh {
            Some(key) => match &self.url_ssh {
                Some(url) => Ok(ProtocolEndpoint { url: url.clone(), api_key: key.clone() }),
                None => Err(ConfigurationError::MissingUrl(Protocol::Ssh)),
            },
            None => Err(ConfigurationError::MissingApiKey(Protocol::Ssh)),
        }
    }
}

} // verus!
