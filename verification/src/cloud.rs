//! The settings bundle for connecting to a local cloud-service emulator
//! during testing: static test credentials, a fixed region, and an endpoint
//! that an environment variable may override.
//!
//! The cloud SDK layer around the library reads the environment, asks
//! [`localstack_settings`] for the bundle, and hands each field to the SDK's
//! configuration builder.

use vstd::prelude::*;
use vstd::string::StringExecFns;

verus! {

/// The settings for a local cloud-service emulator connection.
pub struct LocalstackSettings {
    /// The region the client reports.
    pub region: String,
    /// The static test access key id.
    pub access_key_id: String,
    /// The static test secret access key.
    pub secret_access_key: String,
    /// The session token; the static test credentials carry none.
    pub session_token: Option<String>,
    /// The name of the credentials provider.
    pub provider_name: String,
    /// The endpoint URL the client connects to.
    pub endpoint_url: String,
}

/// The endpoint URL: the overriding value when one is supplied (from the
/// environment), and the local default otherwise.
pub open spec fn endpoint_spec(endpoint_override: Option<Seq<char>>) -> Seq<char> {
    match endpoint_override {
        Some(url) => url,
        None => "http://localhost:4566"@,
    }
}

/// Builds the settings for connecting to a LocalStack instance.
///
/// The region is `us-east-1` and the credentials are the static test pair
/// `test`/`test` without a session token, under the provider name `Static`.
/// The endpoint URL is `endpoint_override` when one is supplied, and
/// `http://localhost:4566` otherwise.
pub fn localstack_settings(endpoint_override: Option<String>) -> (s: LocalstackSettings)
    ensures
        s.region@ == "us-east-1"@,
        s.access_key_id@ == "test"@,
        s.secret_access_key@ == "test"@,
        s.session_token is None,
        s.provider_name@ == "Static"@,
        s.endpoint_url@ == endpoint_spec(
            match endpoint_override {
                Some(url) => Some(url@),
                None => None,
            },
        ),
{
    let endpoint_url = match endpoint_override {
        Some(url) => url,
        None => String::from_str("http://localhost:4566"),
    };
    LocalstackSettings {
        region: String::from_str("us-east-1"),
        access_key_id: String::from_str("test"),
        secret_access_key: String::from_str("test"),
        session_token: None,
        provider_name: String::from_str("Static"),
        endpoint_url,
    }
}

} // verus!
