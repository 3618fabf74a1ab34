//! The result records handed to the UI for the remote integrations, and
//! the verified mapping from each request's observed outcome to its record.
//!
//! The network transfer itself happens outside this library; what it
//! observed — transport failure, a status code, a body — comes in as plain
//! values, and the uniform `{success, data, error}` shape is computed here.

use vstd::prelude::*;

use crate::archive::ArchiveError;
use crate::archive::archive_message;
use crate::archive::extract_image_from_zip;
use crate::archive::spec_archive_message;
use crate::archive::spec_extract_image;
use crate::codec::base64_decode;
use crate::codec::base64_decoded;
use crate::codec::base64_encode;
use crate::codec::base64_of;
use crate::text::concat_str;
use crate::text::spec_decimal;
use crate::text::u16_decimal;

verus! {

/// The outcome of a token verification request.
#[derive(Debug)]
pub struct VerifyTokenResult {
    pub valid: bool,
    pub tier: Option<String>,
    pub error: Option<String>,
}

/// The outcome of a balance lookup.
#[derive(Debug)]
pub struct AnlasResult {
    pub success: bool,
    pub fixed: Option<i64>,
    pub purchased: Option<i64>,
    pub error: Option<String>,
}

/// The outcome of an upscale request.
#[derive(Debug)]
pub struct UpscaleResult {
    pub success: bool,
    pub image_data: Option<String>,
    pub error: Option<String>,
}

/// The outcome of a background-removal request.
#[derive(Debug)]
pub struct RemoveBackgroundResult {
    pub success: bool,
    pub image_data: Option<String>,
    pub error: Option<String>,
}

/// The training-step balance as the subscription endpoint reports it.
#[derive(Clone, Copy, Debug, PartialEq, Eq, Structural)]
pub struct TrainingSteps {
    pub fixed_training_steps_left: Option<i64>,
    pub purchased_training_steps: Option<i64>,
}

/// The decoded body of the subscription endpoint.
#[derive(Clone, Copy, Debug, PartialEq, Eq, Structural)]
pub struct SubscriptionData {
    pub tier: Option<i32>,
    pub training_steps_left: Option<TrainingSteps>,
}

/// What a subscription request observed.
pub enum SubscriptionFetch {
    /// The transport failed before any response arrived.
    NetworkError(String),
    /// A response arrived with a non-success status.
    HttpError(u16),
    /// A success response arrived but its body did not decode.
    ParseError(String),
    /// A success response arrived and decoded.
    Parsed(SubscriptionData),
}

/// What an upscale request observed.
pub enum UpscaleFetch {
    /// The transport failed before any response arrived.
    NetworkError(String),
    /// A non-success status, with the response's error text.
    HttpError(u16, String),
    /// A success response whose body could not be read out.
    BodyReadError(String),
    /// The bytes of the archive a success response carried.
    Archive(Vec<u8>),
}

/// What a background-removal request observed.
pub enum RemoveBackgroundFetch {
    /// The transport failed before any response arrived.
    NetworkError(String),
    /// A non-success status, with the response's error text.
    HttpError(u16, String),
    /// A success response whose body could not be read out.
    BodyReadError(String),
    /// The bytes of the image a success response carried.
    Image(Vec<u8>),
}

/// The tier name shown for a numeric subscription tier; anything unknown
/// counts as the lowest tier.
pub open spec fn spec_tier_label(tier: Option<i32>) -> Seq<char> {
    if tier == Some(3i32) {
        "opus"@
    } else if tier == Some(2i32) {
        "scroll"@
    } else if tier == Some(1i32) {
        "tablet"@
    } else {
        "paper"@
    }
}

pub open spec fn spec_fixed_steps(d: SubscriptionData) -> Option<i64> {
    match d.training_steps_left {
        Some(t) => t.fixed_training_steps_left,
        None => None,
    }
}

pub open spec fn spec_purchased_steps(d: SubscriptionData) -> Option<i64> {
    match d.training_steps_left {
        Some(t) => t.purchased_training_steps,
        None => None,
    }
}

/// Whether a status code counts as success, as HTTP defines it.
pub fn status_is_success(status: u16) -> (r: bool)
    ensures
        r == (200 <= status < 300),
{
    200 <= status && status < 300
}

fn tier_label(tier: Option<i32>) -> (r: String)
    ensures
        r@ == spec_tier_label(tier),
{
    match tier {
        Some(3) => "opus".to_owned(),
        Some(2) => "scroll".to_owned(),
        Some(1) => "tablet".to_owned(),
        _ => "paper".to_owned(),
    }
}

/// The record a token verification reports: a decoded success response is
/// valid and carries the tier's name; everything else is invalid with the
/// reason, a 401 meaning the token itself was refused.
pub fn verify_token_result(fetch: SubscriptionFetch) -> (r: VerifyTokenResult)
    ensures
        (match fetch {
            SubscriptionFetch::Parsed(d) => r.valid && r.tier.deep_view() == Some(
                spec_tier_label(d.tier),
            ) && r.error is None,
            SubscriptionFetch::ParseError(e) => !r.valid && r.tier is None
                && r.error.deep_view() == Some("JSON 파싱 오류: "@ + e@),
            SubscriptionFetch::HttpError(s) => !r.valid && r.tier is None
                && r.error.deep_view() == Some(
                if s == 401 {
                    "유효하지 않은 API 토큰"@
                } else {
                    "API 오류: "@ + spec_decimal(s as nat)
                },
            ),
            SubscriptionFetch::NetworkError(e) => !r.valid && r.tier is None
                && r.error.deep_view() == Some("네트워크 오류: "@ + e@),
        }),
{
    match fetch {
        SubscriptionFetch::Parsed(d) => VerifyTokenResult {
            valid: true,
            tier: Some(tier_label(d.tier)),
            error: None,
        },
        SubscriptionFetch::ParseError(e) => VerifyTokenResult {
            valid: false,
            tier: None,
            error: Some(concat_str("JSON 파싱 오류: ", e.as_str())),
        },
        SubscriptionFetch::HttpError(s) => {
            if s == 401 {
                VerifyTokenResult {
                    valid: false,
                    tier: None,
                    error: Some("유효하지 않은 API 토큰".to_owned()),
                }
            } else {
                let code = u16_decimal(s);
                VerifyTokenResult {
                    valid: false,
                    tier: None,
                    error: Some(concat_str("API 오류: ", code.as_str())),
                }
            }
        },
        SubscriptionFetch::NetworkError(e) => VerifyTokenResult {
            valid: false,
            tier: None,
            error: Some(concat_str("네트워크 오류: ", e.as_str())),
        },
    }
}

/// The record a balance lookup reports: a decoded success response carries
/// the fixed and purchased training-step balances as the body had them,
/// absent fields staying absent; everything else fails with the reason.
pub fn get_anlas_balance_result(fetch: SubscriptionFetch) -> (r: AnlasResult)
    ensures
        (match fetch {
            SubscriptionFetch::Parsed(d) => r.success && r.fixed == spec_fixed_steps(d)
                && r.purchased == spec_purchased_steps(d) && r.error is None,
            SubscriptionFetch::ParseError(e) => !r.success && r.fixed is None && r.purchased
                is None && r.error.deep_view() == Some("JSON 파싱 오류: "@ + e@),
            SubscriptionFetch::HttpError(s) => !r.success && r.fixed is None && r.purchased
                is None && r.error.deep_view() == Some("API 오류: "@ + spec_decimal(s as nat)),
            SubscriptionFetch::NetworkError(e) => !r.success && r.fixed is None && r.purchased
                is None && r.error.deep_view() == Some("네트워크 오류: "@ + e@),
        }),
{
    match fetch {
        SubscriptionFetch::Parsed(d) => {
            let fixed = match &d.training_steps_left {
                Some(t) => t.fixed_training_steps_left,
                None => None,
            };
            let purchased = match &d.training_steps_left {
                Some(t) => t.purchased_training_steps,
                None => None,
            };
            AnlasResult { success: true, fixed, purchased, error: None }
        },
        SubscriptionFetch::ParseError(e) => AnlasResult {
            success: false,
            fixed: None,
            purchased: None,
            error: Some(concat_str("JSON 파싱 오류: ", e.as_str())),
        },
        SubscriptionFetch::HttpError(s) => {
            let code = u16_decimal(s);
            AnlasResult {
                success: false,
                fixed: None,
                purchased: None,
                error: Some(concat_str("API 오류: ", code.as_str())),
            }
        },
        SubscriptionFetch::NetworkError(e) => AnlasResult {
            success: false,
            fixed: None,
            purchased: None,
            error: Some(concat_str("네트워크 오류: ", e.as_str())),
        },
    }
}

/// The record an upscale reports: the archive a success response carried
/// has its first entry pulled out and rendered in base64; a failed
/// extraction, an unreadable body, a non-success status and a transport
/// failure each fail with the reason.
pub fn upscale_image_result(fetch: UpscaleFetch) -> (r: UpscaleResult)
    ensures
        (match fetch {
            UpscaleFetch::Archive(b) => match spec_extract_image(b@) {
                Ok(img) => r.success && r.image_data.deep_view() == Some(img) && r.error is None,
                Err(e) => !r.success && r.image_data is None && r.error.deep_view() == Some(
                    "ZIP 처리 오류: "@ + spec_archive_message(e),
                ),
            },
            UpscaleFetch::BodyReadError(e) => !r.success && r.image_data is None
                && r.error.deep_view() == Some("응답 읽기 오류: "@ + e@),
            UpscaleFetch::HttpError(s, body) => !r.success && r.image_data is None
                && r.error.deep_view() == Some(
                "API 오류 "@ + spec_decimal(s as nat) + ": "@ + body@,
            ),
            UpscaleFetch::NetworkError(e) => !r.success && r.image_data is None
                && r.error.deep_view() == Some("네트워크 오류: "@ + e@),
        }),
{
    match fetch {
        UpscaleFetch::Archive(b) => match extract_image_from_zip(&b) {
            Ok(img) => UpscaleResult { success: true, image_data: Some(img), error: None },
            Err(e) => {
                let reason = archive_message(e);
                UpscaleResult {
                    success: false,
                    image_data: None,
                    error: Some(concat_str("ZIP 처리 오류: ", reason.as_str())),
                }
            },
        },
        UpscaleFetch::BodyReadError(e) => UpscaleResult {
            success: false,
            image_data: None,
            error: Some(concat_str("응답 읽기 오류: ", e.as_str())),
        },
        UpscaleFetch::HttpError(s, body) => {
            let code = u16_decimal(s);
            let head = concat_str("API 오류 ", code.as_str());
            let head = concat_str(head.as_str(), ": ");
            UpscaleResult {
                success: false,
                image_data: None,
                error: Some(concat_str(head.as_str(), body.as_str())),
            }
        },
        UpscaleFetch::NetworkError(e) => UpscaleResult {
            success: false,
            image_data: None,
            error: Some(concat_str("네트워크 오류: ", e.as_str())),
        },
    }
}

/// The bytes a background-removal input decodes to, or nothing where the
/// input is not valid base64.
pub fn decode_background_input(image_base64: &str) -> (r: Option<Vec<u8>>)
    ensures
        r matches Some(v) ==> base64_decoded(image_base64@) == Some(v@),
        r is None ==> base64_decoded(image_base64@) is None,
{
    base64_decode(image_base64)
}

/// The record reported when the background-removal input itself was not
/// valid base64 and no request was made.
pub fn remove_background_input_error() -> (r: RemoveBackgroundResult)
    ensures
        !r.success && r.image_data is None && r.error.deep_view() == Some(
            "Base64 디코딩 오류"@,
        ),
{
    RemoveBackgroundResult {
        success: false,
        image_data: None,
        error: Some("Base64 디코딩 오류".to_owned()),
    }
}

/// The record a background removal reports: the image bytes of a success
/// response come back base64-rendered behind a PNG data-URL prefix;
/// an unreadable body, a non-success status and a transport failure each
/// fail with the reason.
pub fn remove_background_result(fetch: RemoveBackgroundFetch) -> (r: RemoveBackgroundResult)
    ensures
        (match fetch {
            RemoveBackgroundFetch::Image(b) => r.success && r.image_data.deep_view() == Some(
                "data:image/png;base64,"@ + base64_of(b@),
            ) && r.error is None,
            RemoveBackgroundFetch::BodyReadError(e) => !r.success && r.image_data is None
                && r.error.deep_view() == Some("응답 읽기 오류: "@ + e@),
            RemoveBackgroundFetch::HttpError(s, body) => !r.success && r.image_data is None
                && r.error.deep_view() == Some(
                "API 오류 "@ + spec_decimal(s as nat) + ": "@ + body@,
            ),
            RemoveBackgroundFetch::NetworkError(e) => !r.success && r.image_data is None
                && r.error.deep_view() == Some("네트워크 오류: "@ + e@),
        }),
{
    match fetch {
        RemoveBackgroundFetch::Image(b) => {
            let encoded = base64_encode(&b);
            RemoveBackgroundResult {
                success: true,
                image_data: Some(concat_str("data:image/png;base64,", encoded.as_str())),
                error: None,
            }
        },
        RemoveBackgroundFetch::BodyReadError(e) => RemoveBackgroundResult {
            success: false,
            image_data: None,
            error: Some(concat_str("응답 읽기 오류: ", e.as_str())),
        },
        RemoveBackgroundFetch::HttpError(s, body) => {
            let code = u16_decimal(s);
            let head = concat_str("API 오류 ", code.as_str());
            let head = concat_str(head.as_str(), ": ");
            RemoveBackgroundResult {
                success: false,
                image_data: None,
                error: Some(concat_str(head.as_str(), body.as_str())),
            }
        },
        RemoveBackgroundFetch::NetworkError(e) => RemoveBackgroundResult {
            success: false,
            image_data: None,
            error: Some(concat_str("네트워크 오류: ", e.as_str())),
        },
    }
}

} // verus!
