use base64::Engine;

use tagger_host::api::AnlasResult;
use tagger_host::api::RemoveBackgroundFetch;
use tagger_host::api::SubscriptionData;
use tagger_host::api::SubscriptionFetch;
use tagger_host::api::TrainingSteps;
use tagger_host::api::UpscaleFetch;
use tagger_host::api::VerifyTokenResult;
use tagger_host::api::decode_background_input;
use tagger_host::api::get_anlas_balance_result;
use tagger_host::api::remove_background_input_error;
use tagger_host::api::remove_background_result;
use tagger_host::api::status_is_success;
use tagger_host::api::upscale_image_result;
use tagger_host::api::verify_token_result;
use tagger_host::archive::extract_image_from_zip;
use tagger_host::archive::ArchiveError;

fn parsed(tier: Option<i32>) -> SubscriptionFetch {
    SubscriptionFetch::Parsed(SubscriptionData { tier, training_steps_left: None })
}

fn tier_of(r: &VerifyTokenResult) -> Option<&str> {
    r.tier.as_deref()
}

#[test]
fn tier_names_follow_the_numeric_tier() {
    let r = verify_token_result(parsed(Some(3)));
    assert!(r.valid);
    assert_eq!(tier_of(&r), Some("opus"));
    assert!(r.error.is_none());
    assert_eq!(tier_of(&verify_token_result(parsed(Some(2)))), Some("scroll"));
    assert_eq!(tier_of(&verify_token_result(parsed(Some(1)))), Some("tablet"));
    assert_eq!(tier_of(&verify_token_result(parsed(Some(0)))), Some("paper"));
    assert_eq!(tier_of(&verify_token_result(parsed(Some(9)))), Some("paper"));
    assert_eq!(tier_of(&verify_token_result(parsed(None))), Some("paper"));
}

#[test]
fn unauthorized_token_is_reported_as_invalid() {
    let r = verify_token_result(SubscriptionFetch::HttpError(401));
    assert!(!r.valid);
    assert!(r.tier.is_none());
    assert_eq!(r.error.as_deref(), Some("유효하지 않은 API 토큰"));
}

#[test]
fn other_statuses_carry_their_code() {
    let r = verify_token_result(SubscriptionFetch::HttpError(500));
    assert!(!r.valid);
    assert_eq!(r.error.as_deref(), Some("API 오류: 500"));
}

#[test]
fn transport_and_parse_failures_are_reported() {
    let r = verify_token_result(SubscriptionFetch::NetworkError("timed out".to_string()));
    assert!(!r.valid);
    assert_eq!(r.error.as_deref(), Some("네트워크 오류: timed out"));
    let r = verify_token_result(SubscriptionFetch::ParseError("bad json".to_string()));
    assert!(!r.valid);
    assert_eq!(r.error.as_deref(), Some("JSON 파싱 오류: bad json"));
}

#[test]
fn balance_comes_out_as_the_body_had_it() {
    let data = SubscriptionData {
        tier: Some(3),
        training_steps_left: Some(TrainingSteps {
            fixed_training_steps_left: Some(7100),
            purchased_training_steps: Some(250),
        }),
    };
    let r: AnlasResult = get_anlas_balance_result(SubscriptionFetch::Parsed(data));
    assert!(r.success);
    assert_eq!(r.fixed, Some(7100));
    assert_eq!(r.purchased, Some(250));
    assert!(r.error.is_none());
}

#[test]
fn absent_balance_fields_stay_absent() {
    let r = get_anlas_balance_result(parsed(Some(1)));
    assert!(r.success);
    assert_eq!(r.fixed, None);
    assert_eq!(r.purchased, None);
    let r = get_anlas_balance_result(SubscriptionFetch::HttpError(404));
    assert!(!r.success);
    assert_eq!(r.error.as_deref(), Some("API 오류: 404"));
}

#[test]
fn success_statuses_are_the_two_hundreds() {
    assert!(status_is_success(200));
    assert!(status_is_success(204));
    assert!(status_is_success(299));
    assert!(!status_is_success(199));
    assert!(!status_is_success(300));
    assert!(!status_is_success(401));
}

fn one_entry_zip(contents: &[u8]) -> Vec<u8> {
    let cursor = std::io::Cursor::new(Vec::new());
    let mut writer = zip::ZipWriter::new(cursor);
    writer
        .start_file("image.png", zip::write::SimpleFileOptions::default())
        .unwrap();
    std::io::Write::write_all(&mut writer, contents).unwrap();
    writer.finish().unwrap().into_inner()
}

fn empty_zip() -> Vec<u8> {
    let cursor = std::io::Cursor::new(Vec::new());
    let writer = zip::ZipWriter::new(cursor);
    writer.finish().unwrap().into_inner()
}

#[test]
fn extraction_renders_the_first_entry_in_base64() {
    let payload = b"fake png bytes".to_vec();
    let archive = one_entry_zip(&payload);
    let out = extract_image_from_zip(&archive).unwrap();
    assert_eq!(out, base64::engine::general_purpose::STANDARD.encode(&payload));
}

#[test]
fn extraction_failures_name_their_reason() {
    assert_eq!(
        extract_image_from_zip(&b"this is no archive".to_vec()),
        Err(ArchiveError::NotAnArchive)
    );
    assert_eq!(extract_image_from_zip(&empty_zip()), Err(ArchiveError::EmptyArchive));
}

#[test]
fn upscale_reports_the_extracted_image() {
    let payload = b"upscaled image".to_vec();
    let archive = one_entry_zip(&payload);
    let r = upscale_image_result(UpscaleFetch::Archive(archive));
    assert!(r.success);
    assert_eq!(
        r.image_data.as_deref(),
        Some(base64::engine::general_purpose::STANDARD.encode(&payload).as_str())
    );
    assert!(r.error.is_none());
}

#[test]
fn upscale_failures_carry_their_reason() {
    let r = upscale_image_result(UpscaleFetch::Archive(b"garbage".to_vec()));
    assert!(!r.success);
    assert_eq!(r.error.as_deref(), Some("ZIP 처리 오류: 잘못된 ZIP 파일"));
    let r = upscale_image_result(UpscaleFetch::Archive(empty_zip()));
    assert_eq!(r.error.as_deref(), Some("ZIP 처리 오류: ZIP 파일이 비어있습니다"));
    let r = upscale_image_result(UpscaleFetch::HttpError(500, "quota exceeded".to_string()));
    assert_eq!(r.error.as_deref(), Some("API 오류 500: quota exceeded"));
    let r = upscale_image_result(UpscaleFetch::BodyReadError("closed".to_string()));
    assert_eq!(r.error.as_deref(), Some("응답 읽기 오류: closed"));
    let r = upscale_image_result(UpscaleFetch::NetworkError("refused".to_string()));
    assert_eq!(r.error.as_deref(), Some("네트워크 오류: refused"));
}

#[test]
fn background_removal_wraps_the_image_in_a_data_url() {
    let image = b"\x89PNG fake".to_vec();
    let r = remove_background_result(RemoveBackgroundFetch::Image(image.clone()));
    assert!(r.success);
    let expected = format!(
        "data:image/png;base64,{}",
        base64::engine::general_purpose::STANDARD.encode(&image)
    );
    assert_eq!(r.image_data.as_deref(), Some(expected.as_str()));
}

#[test]
fn background_removal_failures_carry_their_reason() {
    let r = remove_background_result(RemoveBackgroundFetch::HttpError(503, "busy".to_string()));
    assert!(!r.success);
    assert_eq!(r.error.as_deref(), Some("API 오류 503: busy"));
    let r = remove_background_result(RemoveBackgroundFetch::NetworkError("down".to_string()));
    assert_eq!(r.error.as_deref(), Some("네트워크 오류: down"));
    let r = remove_background_input_error();
    assert!(!r.success);
    assert_eq!(r.error.as_deref(), Some("Base64 디코딩 오류"));
}

#[test]
fn background_input_decodes_exactly_when_it_is_base64() {
    assert_eq!(decode_background_input("aGVsbG8="), Some(b"hello".to_vec()));
    assert_eq!(decode_background_input("!!! not base64 !!!"), None);
}
