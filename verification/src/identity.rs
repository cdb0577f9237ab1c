//! Who sends a request: the platform's identity service knows the workload behind a
//! bearer token.

use vstd::prelude::*;
use vstd::string::*;

use crate::headers::{bearer, bearer_of, header_value, trimmed_header};
use crate::replies::{api_error, ApiError, ErrorModel, OK, SERVICE_UNAVAILABLE, UNAUTHORIZED};
use crate::text;

verus! {

/// What the identity service says of a token.
#[derive(Debug, PartialEq, Eq)]
pub struct Introspection {
    pub active: bool,
    pub subject: String,
    pub tenant: String,
    pub exp: i64,
}

/// What the identity service says of a token, with its texts as character sequences.
pub struct IdentityModel {
    pub active: bool,
    pub subject: Seq<char>,
    pub tenant: Seq<char>,
    pub exp: i64,
}

impl View for Introspection {
    type V = IdentityModel;

    open spec fn view(&self) -> IdentityModel {
        IdentityModel {
            active: self.active,
            subject: self.subject@,
            tenant: self.tenant@,
            exp: self.exp,
        }
    }
}

/// A question to the identity service: where to send it, the token it is about, and
/// the correlation identifier to pass on, if the request has one.
#[derive(Debug, PartialEq, Eq)]
pub struct IntrospectionCall {
    pub url: String,
    pub token: String,
    pub correlation: Option<String>,
}

/// A question to the identity service, with its texts as character sequences.
pub struct CallModel {
    pub url: Seq<char>,
    pub token: Seq<char>,
    pub correlation: Option<Seq<char>>,
}

impl View for IntrospectionCall {
    type V = CallModel;

    open spec fn view(&self) -> CallModel {
        CallModel {
            url: self.url@,
            token: self.token@,
            correlation: match self.correlation {
                Some(correlation) => Some(correlation@),
                None => None,
            },
        }
    }
}

/// Where the identity service answers questions about tokens.
pub open spec fn introspection_url(identity_url: Seq<char>) -> Seq<char> {
    text::without_trailing(identity_url, '/') + "/api/v1/auth/introspect"@
}

/// The answer to a request without a token.
pub open spec fn missing_token() -> ErrorModel {
    ErrorModel {
        status: UNAUTHORIZED,
        code: "MISSING_WORKLOAD_TOKEN"@,
        message: "Bearer workload token required"@,
    }
}

/// The answer where the identity service cannot be asked.
pub open spec fn identity_unavailable(message: Seq<char>) -> ErrorModel {
    ErrorModel { status: SERVICE_UNAVAILABLE, code: "IDENTITY_UNAVAILABLE"@, message }
}

/// The answer to a request whose token is not good.
pub open spec fn invalid_token() -> ErrorModel {
    ErrorModel {
        status: UNAUTHORIZED,
        code: "INVALID_WORKLOAD_TOKEN"@,
        message: "Inactive or incomplete workload identity"@,
    }
}

/// The question to ask about the sender of a request, or the answer to a request
/// that carries no token.
pub open spec fn call_outcome(
    headers: axum::http::HeaderMap,
    identity_url: Seq<char>,
) -> Result<CallModel, ErrorModel> {
    match bearer_of(headers) {
        None => Err(missing_token()),
        Some(token) => Ok(
            CallModel {
                url: introspection_url(identity_url),
                token,
                correlation: if trimmed_header(headers, "x-correlation-id"@).len() == 0 {
                    None
                } else {
                    Some(trimmed_header(headers, "x-correlation-id"@))
                },
            },
        ),
    }
}

/// Whether an identity is good at this time, in seconds since the start of 1970: it
/// is active, names a subject and a tenant, and has not expired. An expiry that is
/// not positive stands for none.
pub open spec fn is_good(identity: IdentityModel, now: i64) -> bool {
    &&& identity.active
    &&& text::trimmed(identity.subject).len() > 0
    &&& text::trimmed(identity.tenant).len() > 0
    &&& identity.exp > 0 ==> identity.exp > now
}

/// The question to ask about the sender of a request.
pub fn introspection_call(headers: &axum::http::HeaderMap, identity_url: &str) -> (r: Result<
    IntrospectionCall,
    ApiError,
>)
    ensures
        match call_outcome(*headers, identity_url@) {
            Ok(call) => r is Ok && r->Ok_0@ == call,
            Err(e) => r is Err && r->Err_0@ == e,
        },
{
    let token = match bearer(headers) {
        Some(token) => token,
        None => {
            return Err(
                api_error(
                    UNAUTHORIZED,
                    "MISSING_WORKLOAD_TOKEN",
                    "Bearer workload token required",
                ),
            );
        },
    };
    let correlation = header_value(headers, "x-correlation-id");
    let mut url = text::trim_end_matches(identity_url, '/').to_owned();
    url.append("/api/v1/auth/introspect");
    let correlation = if correlation.as_str().is_empty() {
        None
    } else {
        Some(correlation)
    };
    Ok(IntrospectionCall { url, token, correlation })
}

/// The answer where the identity service could not be reached.
pub fn identity_unreachable() -> (r: ApiError)
    ensures
        r@ == identity_unavailable("Platform identity service unavailable"@),
{
    api_error(
        SERVICE_UNAVAILABLE,
        "IDENTITY_UNAVAILABLE",
        "Platform identity service unavailable",
    )
}

/// Whether the identity service took the question: every status but success counts
/// as a refusal to answer it.
pub fn accept_identity_status(status: u16) -> (r: Result<(), ApiError>)
    ensures
        status == OK ==> r == Ok::<(), ApiError>(()),
        status != OK ==> {
            &&& r is Err
            &&& r->Err_0@ == identity_unavailable(
                "Platform identity service rejected introspection"@,
            )
        },
{
    if status != OK {
        return Err(
            api_error(
                SERVICE_UNAVAILABLE,
                "IDENTITY_UNAVAILABLE",
                "Platform identity service rejected introspection",
            ),
        );
    }
    Ok(())
}

/// What the identity service's answer comes to: the identity, or the answer to a
/// request whose sender is not known. There is no answer where it could not be
/// decoded.
pub open spec fn identity_outcome(answer: Option<IdentityModel>, now: i64) -> Result<
    IdentityModel,
    ErrorModel,
> {
    match answer {
        None => Err(identity_unavailable("Malformed Platform identity response"@)),
        Some(identity) => if is_good(identity, now) {
            Ok(identity)
        } else {
            Err(invalid_token())
        },
    }
}

/// The model of an optional identity.
pub open spec fn optional_identity(answer: Option<Introspection>) -> Option<IdentityModel> {
    match answer {
        Some(identity) => Some(identity@),
        None => None,
    }
}

/// What the identity service's answer comes to at this time, in seconds since the
/// start of 1970.
pub fn accept_identity(answer: Option<Introspection>, now: i64) -> (r: Result<
    Introspection,
    ApiError,
>)
    ensures
        match identity_outcome(optional_identity(answer), now) {
            Ok(identity) => r is Ok && r->Ok_0@ == identity,
            Err(e) => r is Err && r->Err_0@ == e,
        },
{
    let intro = match answer {
        Some(intro) => intro,
        None => {
            return Err(
                api_error(
                    SERVICE_UNAVAILABLE,
                    "IDENTITY_UNAVAILABLE",
                    "Malformed Platform identity response",
                ),
            );
        },
    };
    if !intro.active || intro.subject.as_str().trim().is_empty()
        || intro.tenant.as_str().trim().is_empty() || (intro.exp > 0 && intro.exp <= now) {
        return Err(
            api_error(
                UNAUTHORIZED,
                "INVALID_WORKLOAD_TOKEN",
                "Inactive or incomplete workload identity",
            ),
        );
    }
    Ok(intro)
}

} // verus!
