use vstd::prelude::*;

verus! {

/// The error that reqwest reports for a request that could not be carried out.
#[verifier::external_type_specification]
#[verifier::external_body]
pub struct ExRequestError(reqwest::Error);

/// An error that can happen while making an API call.
#[derive(Debug)]
pub enum ApiError {
    /// The transport could not carry out the request; the inner value says why.
    RequestError(reqwest::Error),
}

/// The result of an API call.
pub type WeboxideResult<T> = Result<T, ApiError>;

impl From<reqwest::Error> for ApiError {
    fn from(e: reqwest::Error) -> (r: ApiError)
        ensures
            r == ApiError::RequestError(e),
    {
        ApiError::RequestError(e)
    }
}

impl vstd::std_specs::convert::FromSpecImpl<reqwest::Error> for ApiError {
    open spec fn obeys_from_spec() -> bool {
        true
    }

    open spec fn from_spec(e: reqwest::Error) -> ApiError {
        ApiError::RequestError(e)
    }
}

/// What a call reports once its request has been handed to the transport:
/// `sent` is the status code of the response, or the transport's error.
/// A response of any status counts as success, so a request that the remote
/// API rejected with a 4xx or 5xx status is reported as sent; a transport
/// failure is reported once, wrapped, and nothing is retried.
pub fn request_outcome(sent: Result<u16, reqwest::Error>) -> (r: WeboxideResult<()>)
    ensures
        match sent {
            Ok(_) => r == Ok::<(), ApiError>(()),
            Err(e) => r == Err::<(), ApiError>(ApiError::RequestError(e)),
        },
{
    match sent {
        Ok(_) => Ok(()),
        Err(e) => Err(ApiError::from(e)),
    }
}

} // verus!
