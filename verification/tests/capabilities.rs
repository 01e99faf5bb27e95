use video_noise::capabilities::{
    collect_raw_caps, CapsStructure, DeviceInfo, Fraction, RawSourceCaps, Resolution,
};
use video_noise::errors::GstError;

fn fr(numer: i32, denom: i32) -> Fraction {
    Fraction { numer, denom }
}

fn raw(width: i32, height: i32, framerates: Vec<Fraction>) -> CapsStructure {
    CapsStructure {
        name: String::from("video/x-raw"),
        width: Some(width),
        height: Some(height),
        framerates: Some(framerates),
    }
}

fn device(path: &str, caps: Vec<CapsStructure>) -> DeviceInfo {
    DeviceInfo { v4l2_path: Some(String::from(path)), caps: Some(caps) }
}

fn two_devices() -> Vec<DeviceInfo> {
    vec![
        device(
            "/dev/video0",
            vec![
                raw(640, 480, vec![fr(30, 1), fr(15, 1)]),
                CapsStructure {
                    name: String::from("image/jpeg"),
                    width: Some(1280),
                    height: Some(720),
                    framerates: Some(vec![fr(30, 1)]),
                },
                raw(1280, 720, vec![fr(10, 1)]),
            ],
        ),
        DeviceInfo { v4l2_path: None, caps: Some(vec![raw(320, 240, vec![fr(5, 1)])]) },
        device("/dev/video2", vec![raw(1920, 1080, vec![])]),
    ]
}

#[test]
fn collects_raw_caps_in_order() {
    let caps = collect_raw_caps(&two_devices());
    let labels: Vec<String> = caps.iter().map(|c| c.to_string_wo_framerate()).collect();
    assert_eq!(
        labels,
        vec![
            "/dev/video0: 640x480".to_string(),
            "/dev/video0: 1280x720".to_string(),
            "/dev/video2: 1920x1080".to_string(),
        ]
    );
}

#[test]
fn skips_structures_with_missing_fields() {
    let devices = vec![device(
        "/dev/video0",
        vec![
            CapsStructure { name: String::from("video/x-raw"), width: None, height: Some(1), framerates: Some(vec![]) },
            CapsStructure { name: String::from("video/x-raw"), width: Some(1), height: None, framerates: Some(vec![]) },
            CapsStructure { name: String::from("video/x-raw"), width: Some(1), height: Some(1), framerates: None },
        ],
    )];
    assert!(collect_raw_caps(&devices).is_empty());
}

#[test]
fn device_without_caps_contributes_nothing() {
    let devices = vec![DeviceInfo { v4l2_path: Some(String::from("/dev/video0")), caps: None }];
    assert!(collect_raw_caps(&devices).is_empty());
}

#[test]
fn new_without_caps_fails() {
    let r = RawSourceCaps::new(vec![]);
    assert_eq!(r.err(), Some(GstError::NoCapsFound));
    let r = RawSourceCaps::new(vec![DeviceInfo { v4l2_path: None, caps: None }]);
    assert_eq!(r.err(), Some(GstError::NoCapsFound));
}

#[test]
fn new_selects_first_cap_and_framerate() {
    let caps = RawSourceCaps::new(two_devices()).unwrap();
    assert_eq!(caps.get_caps().len(), 3);
    assert_eq!(caps.get_current_device_path(), "/dev/video0");
    assert_eq!(caps.get_current_resolution(), Resolution { width: 640, height: 480 });
    assert_eq!(caps.get_current_framerate(), Ok(fr(30, 1)));
    assert_eq!(caps.get_current_framerates_as_strings(), vec!["30/1".to_string(), "15/1".to_string()]);
}

#[test]
fn set_resolution_resets_framerate() {
    let mut caps = RawSourceCaps::new(two_devices()).unwrap();
    assert_eq!(caps.set_framerate(1), Ok(()));
    assert_eq!(caps.get_current_framerate(), Ok(fr(15, 1)));
    assert_eq!(caps.set_resolution(1), Ok(()));
    assert_eq!(caps.get_current_resolution(), Resolution { width: 1280, height: 720 });
    assert_eq!(caps.get_current_framerate(), Ok(fr(10, 1)));
    assert_eq!(caps.get_current_framerates_as_strings(), vec!["10/1".to_string()]);
}

#[test]
fn invalid_resolution_index_is_refused() {
    let mut caps = RawSourceCaps::new(two_devices()).unwrap();
    caps.set_framerate(1).unwrap();
    assert_eq!(caps.set_resolution(3), Err(GstError::InvalidValue));
    assert_eq!(caps.get_current_resolution(), Resolution { width: 640, height: 480 });
    assert_eq!(caps.get_current_framerate(), Ok(fr(15, 1)));
}

#[test]
fn invalid_framerate_index_is_refused() {
    let mut caps = RawSourceCaps::new(two_devices()).unwrap();
    assert_eq!(caps.set_framerate(2), Err(GstError::InvalidValue));
    assert_eq!(caps.get_current_framerate(), Ok(fr(30, 1)));
}

#[test]
fn cap_without_framerates_has_no_current_framerate() {
    let mut caps = RawSourceCaps::new(two_devices()).unwrap();
    caps.set_resolution(2).unwrap();
    assert_eq!(caps.get_current_device_path(), "/dev/video2");
    assert_eq!(caps.get_current_framerate(), Err(GstError::InvalidValue));
    assert!(caps.get_current_framerates_as_strings().is_empty());
    assert_eq!(caps.set_framerate(0), Err(GstError::InvalidValue));
    assert_eq!(caps.current_video_settings().err(), Some(GstError::InvalidValue));
}

#[test]
fn video_settings_follow_selection() {
    let mut caps = RawSourceCaps::new(two_devices()).unwrap();
    caps.set_framerate(1).unwrap();
    let vs = caps.current_video_settings().unwrap();
    assert_eq!(vs.device_path, "/dev/video0");
    assert_eq!(vs.resolution, Resolution { width: 640, height: 480 });
    assert_eq!(vs.framerate, fr(15, 1));
}

#[test]
fn source_labels_list_every_cap() {
    let caps = RawSourceCaps::new(two_devices()).unwrap();
    assert_eq!(
        caps.source_labels(),
        vec![
            "/dev/video0: 640x480".to_string(),
            "/dev/video0: 1280x720".to_string(),
            "/dev/video2: 1920x1080".to_string(),
        ]
    );
}

#[test]
fn texts_of_resolution_fraction_and_cap() {
    assert_eq!(Resolution { width: 1920, height: 1080 }.to_string(), "1920x1080");
    assert_eq!(Resolution { width: -3, height: 0 }.to_string(), "-3x0");
    assert_eq!(fr(30, 1).to_string(), "30");
    assert_eq!(fr(30000, 1001).to_string(), "30000/1001");
    assert_eq!(fr(i32::MIN, 7).to_string(), "-2147483648/7");
    let caps = collect_raw_caps(&two_devices());
    assert_eq!(
        caps[0].to_string(),
        "video/x-raw, Resolution: 640x480, Framerates: List([(GstFraction) 30/1, (GstFraction) 15/1]), Device Path: /dev/video0"
    );
    assert_eq!(
        caps[2].to_string(),
        "video/x-raw, Resolution: 1920x1080, Framerates: List([]), Device Path: /dev/video2"
    );
}
