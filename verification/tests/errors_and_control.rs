use video_noise::decimal::i32_to_string;
use video_noise::errors::{check_link, GstError, UiError};
use video_noise::pipeline_control::{shows_pause_image, toggle_target, PipelineState};
use video_noise::screenshot::{screenshot_file_name, screenshot_file_name_for};

#[test]
fn gst_error_messages() {
    assert_eq!(GstError::Error(String::from("boom")).to_string(), "Error: boom");
    assert_eq!(GstError::BoolError(String::from("bad")).to_string(), "Bool error: bad");
    assert_eq!(GstError::NoCapsFound.to_string(), "No capabilities found.");
    assert_eq!(GstError::ElementNotFound.to_string(), "Element not found.");
    assert_eq!(GstError::InvalidValue.to_string(), "Invalid value.");
}

#[test]
fn ui_error_message_and_link_check() {
    assert_eq!(UiError::AlreadyInitialized.to_string(), "UI already initialized.");
    assert_eq!(check_link(true), Err(UiError::AlreadyInitialized));
    assert_eq!(check_link(false), Ok(()));
}

#[test]
fn toggling_play_and_pause() {
    assert_eq!(toggle_target(PipelineState::Playing), PipelineState::Paused);
    assert_eq!(toggle_target(PipelineState::Paused), PipelineState::Playing);
    assert_eq!(toggle_target(PipelineState::Ready), PipelineState::Playing);
    assert_eq!(toggle_target(PipelineState::Null), PipelineState::Playing);
    assert_eq!(toggle_target(PipelineState::VoidPending), PipelineState::Playing);
    for s in [PipelineState::Playing, PipelineState::Paused] {
        assert_eq!(toggle_target(toggle_target(s)), s);
    }
}

#[test]
fn pause_image_only_after_successful_non_play() {
    assert!(shows_pause_image(PipelineState::Paused, true));
    assert!(shows_pause_image(PipelineState::Null, true));
    assert!(!shows_pause_image(PipelineState::Playing, true));
    assert!(!shows_pause_image(PipelineState::Paused, false));
}

#[test]
fn decimal_text() {
    assert_eq!(i32_to_string(0), "0");
    assert_eq!(i32_to_string(7), "7");
    assert_eq!(i32_to_string(10), "10");
    assert_eq!(i32_to_string(-45), "-45");
    assert_eq!(i32_to_string(i32::MAX), "2147483647");
    assert_eq!(i32_to_string(i32::MIN), "-2147483648");
}

#[test]
fn screenshot_names() {
    assert_eq!(
        screenshot_file_name_for("2024-01-02_03:04:05.678"),
        "2024-01-02_03:04:05.678_screenshot.png"
    );
    let name = screenshot_file_name();
    assert!(name.ends_with("_screenshot.png"));
    let stamp = &name[..name.len() - "_screenshot.png".len()];
    // local date and time to the millisecond, e.g. 2024-01-02_03:04:05.678
    assert!(!stamp.contains('%'));
    let bytes = stamp.as_bytes();
    assert_eq!(bytes.len(), 23);
    for (i, b) in bytes.iter().enumerate() {
        match i {
            4 | 7 => assert_eq!(*b, b'-'),
            10 => assert_eq!(*b, b'_'),
            13 | 16 => assert_eq!(*b, b':'),
            19 => assert_eq!(*b, b'.'),
            _ => assert!(b.is_ascii_digit()),
        }
    }
}
