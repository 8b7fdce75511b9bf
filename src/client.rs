//! The request sent to the air-quality provider and the reading of its answer.
use crate::report::AirReading;
use vstd::prelude::*;

verus! {

/// The provider's nearest-city endpoint.
pub const API_URL: &'static str = "https://api.airvisual.com/v2/nearest_city";
pub const LAT_PARAM: &'static str = "?lat=";
pub const LON_PARAM: &'static str = "&lon=";
pub const KEY_PARAM: &'static str = "&key=";

/// The provider credential.
pub struct ApiKey {
    pub key: String,
}

impl ApiKey {
    pub fn new(key: String) -> (r: ApiKey)
        ensures
            r.key@ == key@,
    {
        ApiKey { key }
    }
}

/// Why a reading could not be had.
#[derive(Clone, Copy, Debug, PartialEq, Eq, Structural)]
pub enum FetchError {
    /// The request never got an answer (DNS, connection, timeout).
    NetworkFailure,
    /// The provider answered with this non-success status.
    UpstreamError(u16),
    /// The provider answered with success, but the body is not a reading.
    MalformedResponse,
}

/// What came back from one request to the provider. `body` is the reading that
/// the answer's body decodes to, or `None` where it does not decode.
pub enum ProviderAnswer {
    Unreachable,
    Answered { status: u16, body: Option<AirReading> },
}

/// Whether `status` is a success (2xx) status.
pub open spec fn is_success(status: u16) -> bool {
    200 <= status <= 299
}

/// The request address for a point whose coordinates render as `lat` and `lon`.
pub open spec fn request_url_text(lat: Seq<char>, lon: Seq<char>, key: Seq<char>) -> Seq<char> {
    API_URL@ + LAT_PARAM@ + lat + LON_PARAM@ + lon + KEY_PARAM@ + key
}

/// Builds the request address from the rendered coordinates and the credential.
pub fn request_url(api_key: &ApiKey, lat: &str, lon: &str) -> (r: String)
    ensures
        r@ == request_url_text(lat@, lon@, api_key.key@),
{
    let mut s = String::from_str(API_URL);
    s.append(LAT_PARAM);
    s.append(lat);
    s.append(LON_PARAM);
    s.append(lon);
    s.append(KEY_PARAM);
    s.append(api_key.key.as_str());
    s
}

/// Reads the provider's answer: a reading only for a success status with a
/// body that decodes; otherwise the error that says which part failed.
pub fn fetch_result(answer: ProviderAnswer) -> (r: Result<AirReading, FetchError>)
    ensures
        match answer {
            ProviderAnswer::Unreachable => r == Err::<AirReading, FetchError>(
                FetchError::NetworkFailure,
            ),
            ProviderAnswer::Answered { status, body } => if !is_success(status) {
                r == Err::<AirReading, FetchError>(FetchError::UpstreamError(status))
            } else {
                match body {
                    Some(reading) => r is Ok && r->Ok_0.city@ == reading.city@ && r->Ok_0.aqi
                        == reading.aqi,
                    None => r == Err::<AirReading, FetchError>(FetchError::MalformedResponse),
                }
            },
        },
{
    match answer {
        ProviderAnswer::Unreachable => Err(FetchError::NetworkFailure),
        ProviderAnswer::Answered { status, body } => {
            if status < 200 || status > 299 {
                Err(FetchError::UpstreamError(status))
            } else {
                match body {
                    Some(reading) => Ok(reading),
                    None => Err(FetchError::MalformedResponse),
                }
            }
        },
    }
}

} // verus!
