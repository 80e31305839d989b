//! The auth gateway: exchanges credentials for a session token through
//! an external identity provider.
//!
//! The provider is reached over the network, so each operation is split
//! in two decisions: what to send — nothing leaves before the payload
//! passes validation — and how to classify what came back.

use vstd::prelude::*;

use crate::error::{ErrorKind, ServiceError};
use crate::error::{INVALID_PAYLOAD, MISSING_CREDENTIALS, TOO_MANY_REQUESTS, UNKNOWN};

verus! {

/// Credentials a sign-in or sign-up request carries.
#[derive(Clone, Debug)]
pub struct Credentials {
    pub email: String,
    pub password: String,
}

/// What the identity provider answered: its HTTP status and the fields
/// this gateway reads from the response document, each empty when the
/// document lacks it.
#[derive(Clone, Debug)]
pub struct ProviderResponse {
    pub status: u16,
    pub access_token: String,
    pub user_id: String,
    pub error_description: String,
}

/// A granted session: the token and the account it belongs to.
#[derive(Clone, Debug)]
pub struct Session {
    pub auth_token: String,
    pub user_id: String,
}

/// The uppercase equivalent of a character sequence, as
/// `str::to_uppercase` computes it.
pub uninterp spec fn upper_of(s: Seq<char>) -> Seq<char>;

/// Relies on `str::to_uppercase`: the result is a function of the
/// characters alone, and an empty string stays empty.
#[verifier::external_body]
fn uppercase(s: &str) -> (r: String)
    ensures
        r@ == upper_of(s@),
        s@.len() == 0 ==> r@.len() == 0,
{
    s.to_uppercase()
}

/// The auth gateway. It holds no state: the provider endpoint and
/// transport belong to the caller.
pub struct AuthService {}

impl Default for AuthService {
    /// A gateway, the same as every other.
    fn default() -> (s: AuthService)
        ensures
            s == (AuthService {  }),
    {
        AuthService {  }
    }
}

impl AuthService {
    /// A gateway.
    pub fn new() -> (s: AuthService)
        ensures
            s == (AuthService {  }),
    {
        AuthService {  }
    }

    /// Validates a sign-in payload. Only a payload that is present and
    /// carries both credential fields comes back to be sent upstream;
    /// nothing is sent for a rejected one.
    pub fn sign_in_request(&self, payload: Option<Credentials>) -> (r: Result<
        Credentials,
        ServiceError,
    >)
        ensures
            match payload {
                None => match r {
                    Ok(c) => false,
                    Err(e) => {
                        &&& e.kind == ErrorKind::InvalidArgument
                        &&& e.message@ == INVALID_PAYLOAD@
                    },
                },
                Some(p) => {
                    if p.email@.len() == 0 || p.password@.len() == 0 {
                        match r {
                            Ok(c) => false,
                            Err(e) => {
                                &&& e.kind == ErrorKind::InvalidArgument
                                &&& e.message@ == MISSING_CREDENTIALS@
                            },
                        }
                    } else {
                        match r {
                            Ok(c) => c.email@ == p.email@ && c.password@ == p.password@,
                            Err(e) => false,
                        }
                    }
                },
            },
    {
        match payload {
            None => Err(ServiceError::new(ErrorKind::InvalidArgument, INVALID_PAYLOAD)),
            Some(p) => {
                if p.email.as_str().is_empty() || p.password.as_str().is_empty() {
                    Err(ServiceError::new(ErrorKind::InvalidArgument, MISSING_CREDENTIALS))
                } else {
                    Ok(p)
                }
            },
        }
    }

    /// Classifies the provider's answer to a sign-in. Success yields
    /// the session; a 400-class answer is an invalid argument carrying
    /// the provider's message upper-cased; anything else is
    /// unclassified.
    pub fn sign_in_response(&self, resp: ProviderResponse) -> (r: Result<Session, ServiceError>)
        ensures
            resp.status == 200 ==> match r {
                Ok(s) => s.auth_token@ == resp.access_token@ && s.user_id@ == resp.user_id@,
                Err(e) => false,
            },
            resp.status == 400 ==> match r {
                Ok(s) => false,
                Err(e) => e.kind == ErrorKind::InvalidArgument && e.message@ == upper_of(
                    resp.error_description@,
                ),
            },
            resp.status != 200 && resp.status != 400 ==> match r {
                Ok(s) => false,
                Err(e) => e.kind == ErrorKind::Unknown && e.message@ == UNKNOWN@,
            },
    {
        if resp.status == 200 {
            Ok(Session { auth_token: resp.access_token, user_id: resp.user_id })
        } else if resp.status == 400 {
            let msg = uppercase(resp.error_description.as_str());
            Err(ServiceError { kind: ErrorKind::InvalidArgument, message: msg, upstream: None })
        } else {
            Err(ServiceError::new(ErrorKind::Unknown, UNKNOWN))
        }
    }

    /// Validates a sign-up payload: only its presence is required, as
    /// the provider itself judges the fields.
    pub fn sign_up_request(&self, payload: Option<Credentials>) -> (r: Result<
        Credentials,
        ServiceError,
    >)
        ensures
            match payload {
                None => match r {
                    Ok(c) => false,
                    Err(e) => {
                        &&& e.kind == ErrorKind::InvalidArgument
                        &&& e.message@ == INVALID_PAYLOAD@
                    },
                },
                Some(p) => match r {
                    Ok(c) => c.email@ == p.email@ && c.password@ == p.password@,
                    Err(e) => false,
                },
            },
    {
        match payload {
            None => Err(ServiceError::new(ErrorKind::InvalidArgument, INVALID_PAYLOAD)),
            Some(p) => Ok(p),
        }
    }

    /// Classifies the provider's answer to a sign-up. The provider
    /// reports invalid sign-up data with 422 and an exhausted quota
    /// with 429; both land in `ResourceExhausted`, an ambiguity
    /// inherited from that wire contract, told apart only by the
    /// message.
    pub fn sign_up_response(&self, status: u16) -> (r: Result<(), ServiceError>)
        ensures
            status == 200 ==> r is Ok,
            status == 422 ==> match r {
                Ok(u) => false,
                Err(e) => e.kind == ErrorKind::ResourceExhausted && e.message@ == INVALID_PAYLOAD@,
            },
            status == 429 ==> match r {
                Ok(u) => false,
                Err(e) => e.kind == ErrorKind::ResourceExhausted && e.message@
                    == TOO_MANY_REQUESTS@,
            },
            status != 200 && status != 422 && status != 429 ==> match r {
                Ok(u) => false,
                Err(e) => e.kind == ErrorKind::Unknown && e.message@ == UNKNOWN@,
            },
    {
        if status == 200 {
            Ok(())
        } else if status == 422 {
            Err(ServiceError::new(ErrorKind::ResourceExhausted, INVALID_PAYLOAD))
        } else if status == 429 {
            Err(ServiceError::new(ErrorKind::ResourceExhausted, TOO_MANY_REQUESTS))
        } else {
            Err(ServiceError::new(ErrorKind::Unknown, UNKNOWN))
        }
    }
}

} // verus!
