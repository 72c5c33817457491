//! Consent to DNS operations: what the answers of the consent service mean.
//! Asking the service is the caller's part.

use vstd::prelude::*;
use vstd::string::StringExecFns;

verus! {

/// What an identity has consented to, as the consent service records it.
#[derive(Debug)]
pub struct ConsentRecord {
    pub identity: String,
    pub telemetry: String,
    pub indexing: String,
    pub webmentions: String,
    pub dns_operations: String,
    pub timestamp: String,
    pub source: String,
}

/// Why consent could not be established.
#[derive(Debug, Clone, Copy, PartialEq, Eq, Structural)]
pub enum ConsentError {
    /// The consent service answered with a status that means neither yes
    /// nor no.
    Api { status: u16 },
    /// The identity has not consented to DNS operations.
    NotConsented,
}

/// Whether an HTTP status is one of success.
pub open spec fn spec_is_success(status: u16) -> bool {
    200 <= status < 300
}

/// What the answer to a consent check means: on success what the body says,
/// no if it says nothing; no record means no; any other status is an
/// error.
pub open spec fn spec_consent(status: u16, allowed: Option<bool>) -> Result<bool, ConsentError> {
    if spec_is_success(status) {
        Ok(
            match allowed {
                Some(a) => a,
                None => false,
            },
        )
    } else if status == 404 {
        Ok(false)
    } else {
        Err(ConsentError::Api { status })
    }
}

/// Reads the answer to a consent check.
pub fn consent_from_response(status: u16, allowed: Option<bool>) -> (result: Result<
    bool,
    ConsentError,
>)
    ensures
        result == spec_consent(status, allowed),
{
    if 200 <= status && status < 300 {
        match allowed {
            Some(a) => Ok(a),
            None => Ok(false),
        }
    } else if status == 404 {
        Ok(false)
    } else {
        Err(ConsentError::Api { status })
    }
}

/// Reads the answer to a request for a consent record: the record on
/// success, nothing where there is none, an error on any other status.
pub fn record_from_response(status: u16, record: Option<ConsentRecord>) -> (result: Result<
    Option<ConsentRecord>,
    ConsentError,
>)
    ensures
        spec_is_success(status) ==> result == Ok::<Option<ConsentRecord>, ConsentError>(record),
        !spec_is_success(status) && status == 404 ==> result == Ok::<
            Option<ConsentRecord>,
            ConsentError,
        >(None),
        !spec_is_success(status) && status != 404 ==> result == Err::<
            Option<ConsentRecord>,
            ConsentError,
        >(ConsentError::Api { status }),
{
    if 200 <= status && status < 300 {
        Ok(record)
    } else if status == 404 {
        Ok(None)
    } else {
        Err(ConsentError::Api { status })
    }
}

/// Turns a consent that is not there into a refusal.
pub fn require_dns_consent(allowed: bool) -> (result: Result<(), ConsentError>)
    ensures
        allowed ==> result == Ok::<(), ConsentError>(()),
        !allowed ==> result == Err::<(), ConsentError>(ConsentError::NotConsented),
{
    if allowed {
        Ok(())
    } else {
        Err(ConsentError::NotConsented)
    }
}

/// The address of the consent check for an identity, which must have been
/// percent-encoded already.
pub fn consent_check_url(base_url: &str, encoded_identity: &str) -> (url: String)
    ensures
        url@ == base_url@ + "/consent/"@ + encoded_identity@ + "/check"@,
{
    let mut url: String = String::new();
    url.append(base_url);
    url.append("/consent/");
    url.append(encoded_identity);
    url.append("/check");
    assert(url@ =~= base_url@ + "/consent/"@ + encoded_identity@ + "/check"@);
    url
}

/// The address of the consent record of an identity, which must have been
/// percent-encoded already.
pub fn consent_url(base_url: &str, encoded_identity: &str) -> (url: String)
    ensures
        url@ == base_url@ + "/consent/"@ + encoded_identity@,
{
    let mut url: String = String::new();
    url.append(base_url);
    url.append("/consent/");
    url.append(encoded_identity);
    assert(url@ =~= base_url@ + "/consent/"@ + encoded_identity@);
    url
}

/// The address of the consent service's health check.
pub fn health_url(base_url: &str) -> (url: String)
    ensures
        url@ == base_url@ + "/health"@,
{
    let mut url: String = String::new();
    url.append(base_url);
    url.append("/health");
    assert(url@ =~= base_url@ + "/health"@);
    url
}

} // verus!
