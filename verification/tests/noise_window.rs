use video_noise::noise_tracking::{slice_out_window, NoiseConfig, NoiseStep, NoiseTracker, RgbPixel};

fn cfg(x: usize, y: usize, w: usize, h: usize, n_frames: usize) -> NoiseConfig {
    NoiseConfig { x, y, w, h, n_frames }
}

#[test]
fn config_validity() {
    assert!(cfg(0, 0, 1, 1, 1).is_valid());
    assert!(!cfg(0, 0, 0, 1, 1).is_valid());
    assert!(!cfg(0, 0, 1, 0, 1).is_valid());
    assert!(!cfg(0, 0, 1, 1, 0).is_valid());
    assert!(!NoiseConfig::default().is_valid());
}

#[test]
fn config_from_ui_values() {
    let c = NoiseConfig::from_ui_values(10, 20, 30, 40, 5);
    assert_eq!(c, cfg(10, 20, 30, 40, 5));
    let c = NoiseConfig::from_ui_values(-1, 0, 1, 1, 1);
    assert_eq!(c.x, usize::MAX);
}

#[test]
fn evaluates_once_every_n_frames() {
    let mut t = NoiseTracker::new();
    let c = cfg(0, 0, 2, 2, 3);
    assert_eq!(t.step(c), NoiseStep::Record { slot: 0, reset: true, evaluate: false });
    assert_eq!(t.step(c), NoiseStep::Record { slot: 1, reset: false, evaluate: false });
    assert_eq!(t.step(c), NoiseStep::Record { slot: 2, reset: false, evaluate: true });
    assert_eq!(t.step(c), NoiseStep::Record { slot: 0, reset: false, evaluate: false });
    assert_eq!(t.step(c), NoiseStep::Record { slot: 1, reset: false, evaluate: false });
    assert_eq!(t.step(c), NoiseStep::Record { slot: 2, reset: false, evaluate: true });
}

#[test]
fn invalid_config_skips_and_keeps_progress() {
    let mut t = NoiseTracker::new();
    let c = cfg(0, 0, 2, 2, 3);
    assert_eq!(t.step(cfg(0, 0, 0, 0, 0)), NoiseStep::Skip);
    t.step(c);
    assert_eq!(t.step(cfg(0, 0, 2, 2, 0)), NoiseStep::Skip);
    assert_eq!(t.step(c), NoiseStep::Record { slot: 1, reset: false, evaluate: false });
}

#[test]
fn changed_config_resets_stack() {
    let mut t = NoiseTracker::new();
    let c = cfg(0, 0, 2, 2, 3);
    t.step(c);
    t.step(c);
    let d = cfg(1, 0, 2, 2, 3);
    assert_eq!(t.step(d), NoiseStep::Record { slot: 0, reset: true, evaluate: false });
    let single = cfg(1, 0, 2, 2, 1);
    assert_eq!(t.step(single), NoiseStep::Record { slot: 0, reset: true, evaluate: true });
    assert_eq!(t.step(single), NoiseStep::Record { slot: 0, reset: false, evaluate: true });
}

fn frame(width: usize, height: usize) -> Vec<u8> {
    let mut v = Vec::new();
    for row in 0..height {
        for col in 0..width {
            v.push(row as u8);
            v.push(col as u8);
            v.push((row * width + col) as u8);
        }
    }
    v
}

#[test]
fn slices_window_row_by_row() {
    let pixels = frame(4, 3);
    let win = slice_out_window(&pixels, 4, 3, &cfg(1, 1, 2, 2, 1)).unwrap();
    assert_eq!(
        win,
        vec![
            RgbPixel { r: 1, g: 1, b: 5 },
            RgbPixel { r: 1, g: 2, b: 6 },
            RgbPixel { r: 2, g: 1, b: 9 },
            RgbPixel { r: 2, g: 2, b: 10 },
        ]
    );
}

#[test]
fn whole_frame_window() {
    let pixels = frame(2, 2);
    let win = slice_out_window(&pixels, 2, 2, &cfg(0, 0, 2, 2, 1)).unwrap();
    assert_eq!(win.len(), 4);
    assert_eq!(win[3], RgbPixel { r: 1, g: 1, b: 3 });
}

#[test]
fn window_too_large_is_refused() {
    let pixels = frame(4, 3);
    assert_eq!(slice_out_window(&pixels, 4, 3, &cfg(3, 0, 2, 1, 1)), Err(()));
    assert_eq!(slice_out_window(&pixels, 4, 3, &cfg(0, 2, 1, 2, 1)), Err(()));
    assert!(slice_out_window(&pixels, 4, 3, &cfg(2, 1, 2, 2, 1)).is_ok());
}
