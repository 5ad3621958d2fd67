use vstd::prelude::*;

verus! {

/// A structured error returned by the API for a non-2xx response.
#[derive(Debug)]
pub struct ApiError {
    /// The HTTP status code of the response.
    pub status_code: u16,
    /// A short human-readable summary of the problem.
    pub message: String,
    /// Further detail, when the server supplied it (or the raw body, when
    /// the body was not a well-formed error envelope).
    pub detail: Option<String>,
}

/// The closed set of failures that a call or a listing can end with.
#[derive(Debug)]
pub enum Error {
    /// A failure below the HTTP layer (connection, TLS, timeout, bad URL).
    Transport { detail: String },
    /// A well-formed non-2xx response.
    Api(ApiError),
    /// A 2xx response whose body did not match the expected schema.
    Deserialize { detail: String },
    /// A payload that decoded but is internally inconsistent.
    UnexpectedResponse { detail: String },
}

/// Whether `status` is a 2xx status code.
pub open spec fn is_success_spec(status: u16) -> bool {
    200 <= status <= 299
}

/// A status that signals a failure worth retrying: a server error or a
/// rate-limit response.
pub open spec fn is_transient_status(status: u16) -> bool {
    status >= 500 || status == 429
}

/// Whether a failed page fetch may be retried.
pub open spec fn is_transient_spec(e: Error) -> bool {
    match e {
        Error::Transport { .. } => true,
        Error::Api(a) => is_transient_status(a.status_code),
        _ => false,
    }
}

impl Error {
    /// Whether this failure is transient (network failure, 5xx or 429), and
    /// so may be retried by a listing.
    pub fn is_transient(&self) -> (r: bool)
        ensures
            r == is_transient_spec(*self),
    {
        match self {
            Error::Transport { .. } => true,
            Error::Api(a) => a.status_code >= 500 || a.status_code == 429,
            _ => false,
        }
    }

    /// The HTTP status code, for an `Api` error.
    pub fn status_code(&self) -> (r: Option<u16>)
        ensures
            r == (match *self {
                Error::Api(a) => Some(a.status_code),
                _ => None::<u16>,
            }),
    {
        match self {
            Error::Api(a) => Some(a.status_code),
            _ => None,
        }
    }
}

/// Whether `status` is a 2xx status code.
pub fn is_success(status: u16) -> (r: bool)
    ensures
        r == is_success_spec(status),
{
    200 <= status && status <= 299
}

/// The result of a 2xx response: the decoded value, or a `Deserialize` error
/// carrying the decoder's message.
pub fn success_result<T>(decoded: Result<T, String>) -> (r: Result<T, Error>)
    ensures
        match decoded {
            Ok(v) => r == Ok::<T, Error>(v),
            Err(m) => r == Err::<T, Error>(Error::Deserialize { detail: m }),
        },
{
    match decoded {
        Ok(v) => Ok(v),
        Err(m) => Err(Error::Deserialize { detail: m }),
    }
}

/// The decoded body of an error response.
pub struct ErrorEnvelope {
    pub title: String,
    pub detail: Option<String>,
}

/// The error for a non-2xx response. When the body decoded as an error
/// envelope its title and detail are kept; otherwise a minimal error carries
/// the status code and the raw body.
pub fn failure_error(status: u16, envelope: Option<ErrorEnvelope>, raw_body: String) -> (r: Error)
    ensures
        match envelope {
            Some(env) => r == Error::Api(
                ApiError { status_code: status, message: env.title, detail: env.detail },
            ),
            None => r matches Error::Api(a) && a.status_code == status && a.message@
                == "unknown error"@ && a.detail == Some(raw_body),
        },
{
    match envelope {
        Some(env) => Error::Api(
            ApiError { status_code: status, message: env.title, detail: env.detail },
        ),
        None => Error::Api(
            ApiError {
                status_code: status,
                message: String::from_str("unknown error"),
                detail: Some(raw_body),
            },
        ),
    }
}

} // verus!
