use rawdec::decoder::DecodeError;
use rawdec::decoder::DecodedImage;
use rawdec::decoder::ValidationReason;
use rawdec::decoder::extract_image_data;
use rawdec::session::DecodeDriver;
use rawdec::session::EngineAction;
use rawdec::session::EngineEvent;
use rawdec::session::ExtractReply;
use rawdec::session::NO_THUMBNAIL_CODE;

/// Feed a whole engine transcript to a fresh driver, recording every action
/// it requests, and hand back the actions and the outcome.
fn drive(events: Vec<EngineEvent>) -> (Vec<EngineAction>, Result<DecodedImage, DecodeError>) {
    let (mut driver, first) = DecodeDriver::new();
    let mut actions = vec![first];
    for ev in events {
        actions.push(driver.step(ev));
    }
    assert!(driver.is_done());
    (actions, driver.into_outcome())
}

fn count(actions: &[EngineAction], a: EngineAction) -> usize {
    actions.iter().filter(|x| **x == a).count()
}

#[test]
fn decode_thumbnail_success() {
    let buf = vec![7u8; 1616 * 1080 * 3];
    let (actions, outcome) = drive(vec![
        EngineEvent::SessionInit { ok: true },
        EngineEvent::OpenDone { code: 0 },
        EngineEvent::UnpackDone { code: 0 },
        EngineEvent::ProcessDone { code: 0 },
        EngineEvent::ThumbDone {
            reply: ExtractReply::Buffer {
                code: 0,
                width: 1616,
                height: 1080,
                payload: Some(buf),
            },
        },
        EngineEvent::BufferReleased,
        EngineEvent::SessionClosed,
    ]);
    assert_eq!(
        actions,
        vec![
            EngineAction::InitSession,
            EngineAction::OpenFile,
            EngineAction::Unpack,
            EngineAction::ConfigureAndProcess,
            EngineAction::MakeThumb,
            EngineAction::ReleaseBuffer,
            EngineAction::CloseSession,
            EngineAction::Finish,
        ]
    );
    let img = outcome.unwrap();
    assert_eq!(img.width, 1616);
    assert_eq!(img.height, 1080);
    assert_eq!(img.data.len(), 5_235_840);
}

#[test]
fn decode_fallback_full_image() {
    let buf = vec![3u8; 6000 * 4000 * 3];
    let (actions, outcome) = drive(vec![
        EngineEvent::SessionInit { ok: true },
        EngineEvent::OpenDone { code: 0 },
        EngineEvent::UnpackDone { code: 0 },
        EngineEvent::ProcessDone { code: 0 },
        EngineEvent::ThumbDone { reply: ExtractReply::Missing { code: NO_THUMBNAIL_CODE } },
        EngineEvent::FullDone {
            reply: ExtractReply::Buffer {
                code: 0,
                width: 6000,
                height: 4000,
                payload: Some(buf),
            },
        },
        EngineEvent::BufferReleased,
        EngineEvent::SessionClosed,
    ]);
    assert_eq!(count(&actions, EngineAction::MakeFullImage), 1);
    let img = outcome.unwrap();
    assert_eq!(img.width, 6000);
    assert_eq!(img.height, 4000);
    assert_eq!(img.data.len(), 72_000_000);
}

#[test]
fn decode_non_raw_open_failure() {
    let (actions, outcome) = drive(vec![
        EngineEvent::SessionInit { ok: true },
        EngineEvent::OpenDone { code: 2 },
        EngineEvent::SessionClosed,
    ]);
    assert_eq!(outcome.unwrap_err(), DecodeError::OpenFailure { code: 2 });
    // Nothing remains held: the one session opened was closed, and no
    // buffer was ever acquired.
    assert_eq!(count(&actions, EngineAction::InitSession), 1);
    assert_eq!(count(&actions, EngineAction::CloseSession), 1);
    assert_eq!(count(&actions, EngineAction::ReleaseBuffer), 0);
    assert_eq!(*actions.last().unwrap(), EngineAction::Finish);
}

#[test]
fn decode_init_failure() {
    let (actions, outcome) = drive(vec![EngineEvent::SessionInit { ok: false }]);
    assert_eq!(outcome.unwrap_err(), DecodeError::InitializationFailure);
    // No session was granted, so none is to be closed.
    assert_eq!(count(&actions, EngineAction::CloseSession), 0);
}

#[test]
fn decode_unpack_failure() {
    let (actions, outcome) = drive(vec![
        EngineEvent::SessionInit { ok: true },
        EngineEvent::OpenDone { code: 0 },
        EngineEvent::UnpackDone { code: -7 },
        EngineEvent::SessionClosed,
    ]);
    assert_eq!(outcome.unwrap_err(), DecodeError::UnpackFailure { code: -7 });
    assert_eq!(count(&actions, EngineAction::CloseSession), 1);
}

#[test]
fn decode_process_failure() {
    let (_, outcome) = drive(vec![
        EngineEvent::SessionInit { ok: true },
        EngineEvent::OpenDone { code: 0 },
        EngineEvent::UnpackDone { code: 0 },
        EngineEvent::ProcessDone { code: -1 },
        EngineEvent::SessionClosed,
    ]);
    assert_eq!(outcome.unwrap_err(), DecodeError::ProcessFailure { code: -1 });
}

#[test]
fn thumbnail_error_other_than_sentinel_is_fatal() {
    let (actions, outcome) = drive(vec![
        EngineEvent::SessionInit { ok: true },
        EngineEvent::OpenDone { code: 0 },
        EngineEvent::UnpackDone { code: 0 },
        EngineEvent::ProcessDone { code: 0 },
        EngineEvent::ThumbDone { reply: ExtractReply::Missing { code: -1 } },
        EngineEvent::SessionClosed,
    ]);
    assert_eq!(outcome.unwrap_err(), DecodeError::ThumbnailExtractFailure { code: -1 });
    // No fallback was attempted.
    assert_eq!(count(&actions, EngineAction::MakeFullImage), 0);
}

#[test]
fn fallback_then_missing_full_image_fails() {
    let (_, outcome) = drive(vec![
        EngineEvent::SessionInit { ok: true },
        EngineEvent::OpenDone { code: 0 },
        EngineEvent::UnpackDone { code: 0 },
        EngineEvent::ProcessDone { code: 0 },
        EngineEvent::ThumbDone { reply: ExtractReply::Missing { code: NO_THUMBNAIL_CODE } },
        EngineEvent::FullDone { reply: ExtractReply::Missing { code: -6 } },
        EngineEvent::SessionClosed,
    ]);
    assert_eq!(outcome.unwrap_err(), DecodeError::FullExtractFailure { code: -6 });
}

#[test]
fn full_image_buffer_with_error_code_is_released_then_fails() {
    let (actions, outcome) = drive(vec![
        EngineEvent::SessionInit { ok: true },
        EngineEvent::OpenDone { code: 0 },
        EngineEvent::UnpackDone { code: 0 },
        EngineEvent::ProcessDone { code: 0 },
        EngineEvent::ThumbDone { reply: ExtractReply::Missing { code: NO_THUMBNAIL_CODE } },
        EngineEvent::FullDone {
            reply: ExtractReply::Buffer {
                code: 5,
                width: 8,
                height: 8,
                payload: Some(vec![0u8; 192]),
            },
        },
        EngineEvent::BufferReleased,
        EngineEvent::SessionClosed,
    ]);
    assert_eq!(outcome.unwrap_err(), DecodeError::FullExtractFailure { code: 5 });
    // The buffer the engine handed over is still released exactly once.
    assert_eq!(count(&actions, EngineAction::ReleaseBuffer), 1);
    assert_eq!(count(&actions, EngineAction::CloseSession), 1);
}

#[test]
fn size_mismatch_is_rejected_and_buffer_released() {
    let (actions, outcome) = drive(vec![
        EngineEvent::SessionInit { ok: true },
        EngineEvent::OpenDone { code: 0 },
        EngineEvent::UnpackDone { code: 0 },
        EngineEvent::ProcessDone { code: 0 },
        EngineEvent::ThumbDone {
            reply: ExtractReply::Buffer {
                code: 0,
                width: 10,
                height: 10,
                payload: Some(vec![0u8; 299]),
            },
        },
        EngineEvent::BufferReleased,
        EngineEvent::SessionClosed,
    ]);
    assert_eq!(
        outcome.unwrap_err(),
        DecodeError::ValidationFailure {
            reason: ValidationReason::SizeMismatch { reported: 299, expected: 300 },
        }
    );
    assert_eq!(count(&actions, EngineAction::ReleaseBuffer), 1);
}

#[test]
fn null_buffer_data_is_rejected() {
    let (_, outcome) = drive(vec![
        EngineEvent::SessionInit { ok: true },
        EngineEvent::OpenDone { code: 0 },
        EngineEvent::UnpackDone { code: 0 },
        EngineEvent::ProcessDone { code: 0 },
        EngineEvent::ThumbDone {
            reply: ExtractReply::Buffer { code: 0, width: 4, height: 4, payload: None },
        },
        EngineEvent::BufferReleased,
        EngineEvent::SessionClosed,
    ]);
    assert_eq!(
        outcome.unwrap_err(),
        DecodeError::ValidationFailure { reason: ValidationReason::NullData }
    );
}

#[test]
fn oversized_dimensions_are_rejected() {
    let outcome = extract_image_data(u32::MAX, u32::MAX, Some(Vec::new()));
    assert_eq!(
        outcome.unwrap_err(),
        DecodeError::ValidationFailure { reason: ValidationReason::DimensionsTooLarge }
    );
}

#[test]
fn extract_image_data_returns_bytes_unchanged() {
    let bytes: Vec<u8> = (0u8..12u8).collect();
    let img = extract_image_data(2, 2, Some(bytes.clone())).unwrap();
    assert_eq!(img.width, 2);
    assert_eq!(img.height, 2);
    assert_eq!(img.data, bytes);
}

#[test]
fn extract_image_data_reports_both_sizes() {
    let outcome = extract_image_data(2, 3, Some(vec![1u8; 17]));
    assert_eq!(
        outcome.unwrap_err(),
        DecodeError::ValidationFailure {
            reason: ValidationReason::SizeMismatch { reported: 17, expected: 18 },
        }
    );
}
