use vstd::prelude::*;

verus! {

/// The error envelope a provider sends: a human-readable message.
#[derive(Clone, Debug)]
pub struct ApiErrorResponse {
    pub message: String,
}

/// A response document: the success shape, or the error envelope.
#[derive(Clone, Debug)]
pub enum ApiResponse<T> {
    Success(T),
    Failure(ApiErrorResponse),
}

/// The document matched neither the success shape nor the error envelope.
#[derive(Clone, Copy, Debug, PartialEq, Eq, Structural)]
pub struct DecodeError;

/// What a document decodes to, given what each shape made of it: the success
/// shape is preferred whenever it matched, then the error envelope.
pub open spec fn decoded<T>(success: Option<T>, error: Option<ApiErrorResponse>) -> Result<
    ApiResponse<T>,
    DecodeError,
> {
    match success {
        Some(t) => Ok(ApiResponse::Success(t)),
        None => match error {
            Some(e) => Ok(ApiResponse::Failure(e)),
            None => Err(DecodeError),
        },
    }
}

impl<T> ApiResponse<T> {
    /// Decides a document from its two readings: `success` is what the full
    /// success shape made of it, `error` what the error envelope made of it.
    pub fn from_readings(success: Option<T>, error: Option<ApiErrorResponse>) -> (r: Result<
        ApiResponse<T>,
        DecodeError,
    >)
        ensures
            r == decoded(success, error),
    {
        match success {
            Some(t) => Ok(ApiResponse::Success(t)),
            None => match error {
                Some(e) => Ok(ApiResponse::Failure(e)),
                None => Err(DecodeError),
            },
        }
    }

    /// The success value, or the provider's message.
    pub fn into_result(self) -> (r: Result<T, String>)
        ensures
            match self {
                ApiResponse::Success(t) => r == Ok::<T, String>(t),
                ApiResponse::Failure(e) => r matches Err(m) && m@ == e.message@,
            },
    {
        match self {
            ApiResponse::Success(t) => Ok(t),
            ApiResponse::Failure(e) => Err(e.message),
        }
    }
}

/// A document that the success shape accepts is a success, whatever else it
/// holds; one that only the error envelope accepts is an error.
pub proof fn lemma_success_shape_wins<T>(success: Option<T>, error: Option<ApiErrorResponse>)
    ensures
        success matches Some(t) ==> decoded(success, error) == Ok::<ApiResponse<T>, DecodeError>(
            ApiResponse::Success(t),
        ),
        success is None && error is Some ==> decoded(success, error) matches Ok(ApiResponse::Failure(_)),
        success is None && error is None ==> decoded(success, error) == Err::<ApiResponse<T>, DecodeError>(
            DecodeError,
        ),
{
}

} // verus!
