//! The HTTP interface: what a conversion request carries, what it is
//! answered, and how an error becomes a response.
use vstd::prelude::*;
use crate::convert::{ConvertError, Format, translated, same_translation};

verus! {

/// The status of a response to a request that could not be served.
pub const BAD_REQUEST: u16 = 400;

/// A conversion request: the text to convert.
pub struct ConvertRequest {
    /// The data that will be converted.
    pub input: String,
}

/// The answer to a successful conversion.
pub struct ConvertResponse {
    /// The converted data.
    pub nix: String,
}

/// The answer to an unsuccessful conversion.
pub struct ErrorResponse {
    /// The message of the error.
    pub error: String,
}

/// The answer of the root endpoint: what the service is.
pub struct RootResponse {
    pub description: String,
    pub name: String,
    pub version: String,
}

/// A conversion that failed, as the interface reports it.
pub struct ApiError(pub ConvertError);

impl ApiError {
    /// The status and body that answer the failed request: `400 Bad Request`
    /// with the error's message.
    pub fn into_response(self) -> (r: (u16, ErrorResponse))
        ensures
            r.0 == BAD_REQUEST,
            r.1.error@ == self.0.message(),
    {
        let error = self.0.to_string();
        (BAD_REQUEST, ErrorResponse { error })
    }
}

/// The conversion that an answer carries: the Nix text, or the error.
pub open spec fn carried(answer: Result<ConvertResponse, ApiError>) -> Result<String, ConvertError> {
    match answer {
        Ok(a) => Ok(a.nix),
        Err(e) => Err(e.0),
    }
}

/// `answer` is what a conversion request for `input` in `format` is owed:
/// the translation of the input, carried in a response or an error.
pub open spec fn answered(answer: Result<ConvertResponse, ApiError>, format: Format, input: Seq<char>) -> bool {
    translated(carried(answer), format, input)
}

/// A conversion request is answered as `Format::to_nix` converts its input:
/// the same Nix text, or an error of the same format with the same message.
pub proof fn law_answer_is_conversion(
    answer: Result<ConvertResponse, ApiError>,
    conversion: Result<String, ConvertError>,
    format: Format,
    input: Seq<char>,
)
    requires
        answered(answer, format, input),
        translated(conversion, format, input),
    ensures
        same_translation(carried(answer), conversion),
{
}

/// Converts the request's input, written in `format`, to Nix.
pub fn post_format(format: Format, payload: ConvertRequest) -> (res: Result<
    ConvertResponse,
    ApiError,
>)
    ensures
        answered(res, format, payload.input@),
{
    match format.to_nix(payload.input.as_str()) {
        Ok(nix) => Ok(ConvertResponse { nix }),
        Err(e) => Err(ApiError(e)),
    }
}

} // verus!
