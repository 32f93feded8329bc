//! Configuration: the RPC endpoint derived from the required credential.
//!
//! The credential is read from the environment by the process entry point
//! and handed in as a plain value; its absence is a fatal startup error,
//! reported before any network activity.

use vstd::prelude::*;
use vstd::string::StringExecFns;

verus! {

/// Why no endpoint could be configured.
#[derive(Clone, Copy, Debug, PartialEq, Eq, Structural)]
pub enum ConfigError {
    /// The credential environment variable is unset.
    MissingCredential,
}

/// The text of the endpoint for a given credential.
pub open spec fn spec_endpoint_url(key: Seq<char>) -> Seq<char> {
    ("https://mainnet.infura.io/v3/")@ + key
}

/// Builds the RPC endpoint URL from the credential looked up by the
/// caller, or reports the missing credential.
pub fn endpoint_url(credential: Option<String>) -> (r: Result<String, ConfigError>)
    ensures
        r is Ok <==> credential is Some,
        credential matches Some(key) ==> r matches Ok(url) && url@ == spec_endpoint_url(key@),
        credential is None ==> r == Err::<String, ConfigError>(ConfigError::MissingCredential),
{
    match credential {
        Some(key) => {
            let mut url = String::from_str("https://mainnet.infura.io/v3/");
            url.append(key.as_str());
            proof {
                assert(url@ =~= spec_endpoint_url(key@));
            }
            Ok(url)
        },
        None => Err(ConfigError::MissingCredential),
    }
}

} // verus!
