//! Temporary object-storage credentials handed to administrators.
use crate::errors::{is_message, AppError};
use vstd::prelude::*;

verus! {

/// A request for storage credentials (it carries nothing).
#[derive(Debug)]
pub struct StsConfigReq {}

/// Temporary credentials as the token service returns them.
#[derive(Debug)]
pub struct StsCredentials {
    pub access_key_id: String,
    pub access_key_secret: String,
    pub security_token: String,
    pub expiration: String,
}

/// The credentials handed to the caller.
#[derive(Debug)]
pub struct StsCredentialsResp {
    pub access_key_id: String,
    pub access_key_secret: String,
    pub security_token: String,
    pub expiration: String,
}

/// A request to assume the storage role.
#[derive(Debug)]
pub struct StsRoleRequest {
    pub role_arn: String,
    pub session_name: String,
    pub policy: Option<String>,
    pub duration_secs: u64,
}

/// The role request for `role_arn`, valid for `duration_secs`, in the
/// session `salvo`, without an extra policy.
pub fn sts_role_request(role_arn: &str, duration_secs: u64) -> (r: StsRoleRequest)
    ensures
        r.role_arn@ == role_arn@,
        r.session_name@ == "salvo"@,
        r.policy is None,
        r.duration_secs == duration_secs,
{
    StsRoleRequest {
        role_arn: role_arn.to_owned(),
        session_name: "salvo".to_owned(),
        policy: None,
        duration_secs,
    }
}

/// The answer to a credentials request whose reply held `credentials`:
/// a reply without credentials is an error.
pub fn sts_response(credentials: Option<StsCredentials>) -> (r: Result<StsCredentialsResp, AppError>)
    ensures
        match credentials {
            None => r matches Err(e) && is_message(e, "credentials is none"@),
            Some(c) => r matches Ok(s) && s.access_key_id == c.access_key_id && s.access_key_secret
                == c.access_key_secret && s.security_token == c.security_token && s.expiration
                == c.expiration,
        },
{
    match credentials {
        None => Err(AppError::message("credentials is none")),
        Some(c) => Ok(
            StsCredentialsResp {
                access_key_id: c.access_key_id,
                access_key_secret: c.access_key_secret,
                security_token: c.security_token,
                expiration: c.expiration,
            },
        ),
    }
}

} // verus!
