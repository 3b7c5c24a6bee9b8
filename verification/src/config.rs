//! Process configuration: which settings the reconciler needs, and how the
//! search credential is obtained. Reading the environment happens outside
//! the library; the library decides whether what was read suffices.

use vstd::prelude::*;

use crate::errors::Error;

verus! {

/// The recognized settings, each as the environment delivered it: present
/// or absent.
pub struct ConfigValues {
    pub jf_api_key: Option<String>,
    pub rd_api_key: Option<String>,
    pub seerr_api_key: Option<String>,
    pub trakt_api_key: Option<String>,
    pub trakt_client_id: Option<String>,
    pub trakt_client_secret: Option<String>,
}

/// A configuration with every required setting present. The search token
/// and the client secret stay optional: one of the two paths to a
/// credential needs one of them (see [`plan_trakt_credentials`]).
pub struct AppConfig {
    pub jf_api_key: String,
    pub rd_api_key: String,
    pub seerr_api_key: String,
    pub trakt_api_key: Option<String>,
    pub trakt_client_id: String,
    pub trakt_client_secret: Option<String>,
}

/// Validates what was read: every required setting must be present, and
/// the absence of any is fatal at startup.
pub fn validate_config(raw: ConfigValues) -> (r: Result<AppConfig, Error>)
    ensures
        r is Ok <==> (raw.jf_api_key is Some && raw.rd_api_key is Some && raw.seerr_api_key is Some
            && raw.trakt_client_id is Some),
        r matches Ok(c) ==> {
            &&& Some(c.jf_api_key) == raw.jf_api_key
            &&& Some(c.rd_api_key) == raw.rd_api_key
            &&& Some(c.seerr_api_key) == raw.seerr_api_key
            &&& c.trakt_api_key == raw.trakt_api_key
            &&& Some(c.trakt_client_id) == raw.trakt_client_id
            &&& c.trakt_client_secret == raw.trakt_client_secret
        },
        r matches Err(e) ==> e is ConfigurationError,
{
    let ConfigValues {
        jf_api_key,
        rd_api_key,
        seerr_api_key,
        trakt_api_key,
        trakt_client_id,
        trakt_client_secret,
    } = raw;
    match (jf_api_key, rd_api_key, seerr_api_key, trakt_client_id) {
        (Some(jf), Some(rd), Some(seerr), Some(client_id)) => Ok(AppConfig {
            jf_api_key: jf,
            rd_api_key: rd,
            seerr_api_key: seerr,
            trakt_api_key,
            trakt_client_id: client_id,
            trakt_client_secret,
        }),
        _ => Err(Error::ConfigurationError(String::from_str(
            "a required setting is absent",
        ))),
    }
}

/// How the search credential is obtained: a configured token is used as it
/// is; without one, the device-authorization flow runs on the client pair.
pub enum CredentialPlan {
    UseToken(String),
    RunDeviceFlow { client_id: String, client_secret: String },
}

/// Decides the credential path. A configured token wins; otherwise the
/// client secret is required for the device flow, and its absence is a
/// configuration error.
pub fn plan_trakt_credentials(
    api_key: Option<String>,
    client_id: String,
    client_secret: Option<String>,
) -> (r: Result<CredentialPlan, Error>)
    ensures
        api_key matches Some(t) ==> r == Ok::<_, Error>(CredentialPlan::UseToken(t)),
        api_key is None && client_secret is Some ==> r == Ok::<_, Error>(
            CredentialPlan::RunDeviceFlow { client_id, client_secret: client_secret->Some_0 },
        ),
        (api_key is None && client_secret is None) ==> (r matches Err(e) && e
            is ConfigurationError),
{
    match api_key {
        Some(t) => Ok(CredentialPlan::UseToken(t)),
        None => match client_secret {
            Some(s) => Ok(CredentialPlan::RunDeviceFlow { client_id, client_secret: s }),
            None => Err(Error::ConfigurationError(String::from_str(
                "neither a search token nor a client secret is configured",
            ))),
        },
    }
}

} // verus!
