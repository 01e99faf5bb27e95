//! The noise window: its configuration, how consecutive frames are gathered
//! into a stack of windows, and how a window is cut out of a frame.

use vstd::prelude::*;

verus! {

/// Position and size of the noise window, and the number of frames that one
/// noise evaluation takes.
#[derive(Debug, Clone, Copy, PartialEq, Eq, Structural)]
pub struct NoiseConfig {
    pub x: usize,
    pub y: usize,
    pub w: usize,
    pub h: usize,
    pub n_frames: usize,
}

pub open spec fn config_valid(c: NoiseConfig) -> bool {
    c.w > 0 && c.h > 0 && c.n_frames > 0
}

pub open spec fn default_config() -> NoiseConfig {
    NoiseConfig { x: 0, y: 0, w: 0, h: 0, n_frames: 0 }
}

impl Default for NoiseConfig {
    fn default() -> (c: Self)
        ensures
            c == default_config(),
    {
        NoiseConfig { x: 0, y: 0, w: 0, h: 0, n_frames: 0 }
    }
}

impl NoiseConfig {
    /// A window can be evaluated only if it has an area and takes at least one
    /// frame.
    pub fn is_valid(&self) -> (r: bool)
        ensures
            r == config_valid(*self),
    {
        self.w > 0 && self.h > 0 && self.n_frames > 0
    }

    /// The configuration that the window fields of the user interface give;
    /// each value is converted as `as usize` converts it.
    pub fn from_ui_values(x: i32, y: i32, w: i32, h: i32, n_frames: i32) -> (c: NoiseConfig)
        ensures
            c.x == x as usize,
            c.y == y as usize,
            c.w == w as usize,
            c.h == h as usize,
            c.n_frames == n_frames as usize,
    {
        NoiseConfig {
            x: x as usize,
            y: y as usize,
            w: w as usize,
            h: h as usize,
            n_frames: n_frames as usize,
        }
    }
}

/// What to do with the frame that has just arrived.
#[derive(Debug, Clone, Copy, PartialEq, Eq, Structural)]
pub enum NoiseStep {
    /// The window configuration is not valid: drop the frame.
    Skip,
    /// Clear the window stack first where `reset` is set, write the frame's
    /// window into layer `slot`, then evaluate the stack where `evaluate` is
    /// set.
    Record { slot: usize, reset: bool, evaluate: bool },
}

/// The state of the noise calculation between frames: the configuration the
/// current window stack was made for and the layer the next window goes to.
#[derive(Debug, Clone, Copy)]
pub struct NoiseTracker {
    curr_cfg: NoiseConfig,
    iter_idx: usize,
}

pub struct NoiseTrackerView {
    pub cfg: NoiseConfig,
    pub iter_idx: nat,
}

impl View for NoiseTracker {
    type V = NoiseTrackerView;

    closed spec fn view(&self) -> NoiseTrackerView {
        NoiseTrackerView { cfg: self.curr_cfg, iter_idx: self.iter_idx as nat }
    }
}

impl NoiseTrackerView {
    /// The next layer lies within the stack of a valid configuration, and is 0
    /// before any valid configuration was seen.
    pub open spec fn wf(self) -> bool {
        ||| self.iter_idx == 0
        ||| (config_valid(self.cfg) && self.iter_idx < self.cfg.n_frames)
    }
}

/// One step of the calculation on a frame that arrives with window
/// configuration `cfg`: the next state and the step to perform.
pub open spec fn tracker_step(s: NoiseTrackerView, cfg: NoiseConfig) -> (NoiseTrackerView, NoiseStep) {
    if !config_valid(cfg) {
        (s, NoiseStep::Skip)
    } else {
        let reset = cfg != s.cfg;
        let slot: nat = if reset { 0 } else { s.iter_idx };
        let next: nat = (((slot + 1) as int) % (cfg.n_frames as int)) as nat;
        (
            NoiseTrackerView { cfg, iter_idx: next },
            NoiseStep::Record { slot: slot as usize, reset, evaluate: next == 0 },
        )
    }
}

/// The state after `k` frames that all arrive with configuration `cfg`.
pub open spec fn tracker_run(s: NoiseTrackerView, cfg: NoiseConfig, k: nat) -> NoiseTrackerView
    decreases k,
{
    if k == 0 {
        s
    } else {
        tracker_step(tracker_run(s, cfg, (k - 1) as nat), cfg).0
    }
}

impl NoiseTracker {
    /// The state before the first frame: no configuration, first layer.
    pub fn new() -> (t: NoiseTracker)
        ensures
            t@.cfg == default_config(),
            t@.iter_idx == 0,
            t@.wf(),
    {
        NoiseTracker { curr_cfg: NoiseConfig { x: 0, y: 0, w: 0, h: 0, n_frames: 0 }, iter_idx: 0 }
    }

    /// Decides what to do with a frame that arrives with window configuration
    /// `cfg`, and advances the state.
    pub fn step(&mut self, cfg: NoiseConfig) -> (r: NoiseStep)
        requires
            old(self)@.wf(),
        ensures
            final(self)@.wf(),
            (final(self)@, r) == tracker_step(old(self)@, cfg),
            r matches NoiseStep::Record { slot, .. } ==> slot < cfg.n_frames,
    {
        if !cfg.is_valid() {
            return NoiseStep::Skip;
        }
        let reset = cfg != self.curr_cfg;
        if reset {
            self.curr_cfg = cfg;
            self.iter_idx = 0;
        }
        let slot = self.iter_idx;
        self.iter_idx = (self.iter_idx + 1) % cfg.n_frames;
        NoiseStep::Record { slot, reset, evaluate: self.iter_idx == 0 }
    }
}

/// While the configuration stays the same, the next layer advances by one per
/// frame, cyclically through the stack.
pub proof fn law_layers_cycle(s: NoiseTrackerView, cfg: NoiseConfig, k: nat)
    requires
        s.wf(),
        config_valid(cfg),
        s.cfg == cfg,
    ensures
        tracker_run(s, cfg, k).cfg == cfg,
        tracker_run(s, cfg, k).iter_idx == ((s.iter_idx + k) as int) % (cfg.n_frames as int),
    decreases k,
{
    let n = cfg.n_frames as int;
    if k == 0 {
        vstd::arithmetic::div_mod::lemma_small_mod(s.iter_idx, cfg.n_frames as nat);
    } else {
        law_layers_cycle(s, cfg, (k - 1) as nat);
        let a = (s.iter_idx + k - 1) as int;
        vstd::arithmetic::div_mod::lemma_add_mod_noop(a, 1, n);
        vstd::arithmetic::div_mod::lemma_mod_twice(1, n);
        vstd::arithmetic::div_mod::lemma_add_mod_noop(a % n, 1, n);
        vstd::arithmetic::div_mod::lemma_mod_twice(a, n);
    }
}

/// While the configuration stays the same, the `k`-th frame from now is
/// written into layer `(i + k) mod n` and the stack is evaluated exactly when
/// that layer is the last one, so once every `n` frames.
pub proof fn law_evaluation_period(s: NoiseTrackerView, cfg: NoiseConfig, k: nat)
    requires
        s.wf(),
        config_valid(cfg),
        s.cfg == cfg,
    ensures
        tracker_step(tracker_run(s, cfg, k), cfg).1 == (NoiseStep::Record {
            slot: (((s.iter_idx + k) as int) % (cfg.n_frames as int)) as usize,
            reset: false,
            evaluate: ((s.iter_idx + k) as int) % (cfg.n_frames as int) == cfg.n_frames - 1,
        }),
{
    let n = cfg.n_frames as int;
    law_layers_cycle(s, cfg, k);
    let j = ((s.iter_idx + k) as int) % n;
    assert(0 <= j < n) by {
        vstd::arithmetic::div_mod::lemma_mod_bound((s.iter_idx + k) as int, n);
    }
    if j + 1 < n {
        vstd::arithmetic::div_mod::lemma_small_mod((j + 1) as nat, n as nat);
    } else {
        vstd::arithmetic::div_mod::lemma_mod_self_0(n);
    }
}

/// A frame that arrives with a new valid configuration starts a new stack:
/// the stack is cleared and the window goes to the first layer.
pub proof fn law_new_config_resets(s: NoiseTrackerView, cfg: NoiseConfig)
    requires
        s.wf(),
        config_valid(cfg),
        cfg != s.cfg,
    ensures
        tracker_step(s, cfg).0 == (NoiseTrackerView {
            cfg,
            iter_idx: if cfg.n_frames == 1 { 0 } else { 1 },
        }),
        tracker_step(s, cfg).1 == (NoiseStep::Record {
            slot: 0,
            reset: true,
            evaluate: cfg.n_frames == 1,
        }),
{
    if cfg.n_frames == 1 {
        vstd::arithmetic::div_mod::lemma_mod_self_0(1);
    } else {
        vstd::arithmetic::div_mod::lemma_small_mod(1, cfg.n_frames as nat);
    }
}

/// A frame with an invalid configuration is dropped and leaves the state as
/// it was.
pub proof fn law_invalid_config_skips(s: NoiseTrackerView, cfg: NoiseConfig)
    requires
        !config_valid(cfg),
    ensures
        tracker_step(s, cfg) == (s, NoiseStep::Skip),
{
}

/// A frame is dropped exactly when the window has no width, no height or no
/// frames to gather, wherever the window lies; a dropped frame leaves the
/// state as it was.
pub proof fn law_skip_iff_empty_window(s: NoiseTrackerView, c: NoiseConfig, x: usize, y: usize)
    ensures
        (tracker_step(s, c).1 == NoiseStep::Skip) <==> (c.w == 0 || c.h == 0 || c.n_frames == 0),
        tracker_step(s, c).1 == NoiseStep::Skip ==> tracker_step(s, c).0 == s,
        (tracker_step(s, c).1 == NoiseStep::Skip) == (tracker_step(
            s,
            NoiseConfig { x, y, ..c },
        ).1 == NoiseStep::Skip),
{
}

/// A pixel of an RGB frame.
#[derive(Debug, Clone, Copy, PartialEq, Eq, Structural)]
pub struct RgbPixel {
    pub r: u8,
    pub g: u8,
    pub b: u8,
}

/// Whether the window lies within a frame of the given size.
pub open spec fn window_fits(width: int, height: int, win: NoiseConfig) -> bool {
    win.y + win.h <= height && win.x + win.w <= width
}

/// The offset of the first byte of the pixel at (`row`, `col`) of the window
/// in the bytes of a frame of width `width`, three bytes per pixel, row by row.
pub open spec fn source_offset(width: int, win: NoiseConfig, row: int, col: int) -> int {
    ((win.y + row) * width + win.x + col) * 3
}

/// The pixel at (`row`, `col`) of the window.
pub open spec fn window_pixel(pixels: Seq<u8>, width: int, win: NoiseConfig, row: int, col: int) -> RgbPixel {
    let i = source_offset(width, win, row, col);
    RgbPixel { r: pixels[i], g: pixels[i + 1], b: pixels[i + 2] }
}

proof fn lemma_offset_in_frame(width: int, height: int, a: int, b: int)
    by (nonlinear_arith)
    requires
        0 <= a < height,
        0 <= b < width,
    ensures
        (a * width + b) * 3 + 2 < width * height * 3,
        0 <= a * width + b,
{
}

proof fn lemma_earlier_rows(rr: int, cc: int, row: int, w: int)
    by (nonlinear_arith)
    requires
        0 <= rr < row,
        0 <= cc < w,
    ensures
        0 <= rr * w + cc < row * w,
{
}

proof fn lemma_next_row(row: int, w: int)
    by (nonlinear_arith)
    ensures
        row * w + w == (row + 1) * w,
{
}

/// Cuts the window out of a frame of `width` x `height` pixels, given as RGB
/// bytes row by row. The window's pixels come row by row; a window that does
/// not lie within the frame is refused.
pub fn slice_out_window(pixels: &Vec<u8>, width: usize, height: usize, win: &NoiseConfig) -> (r: Result<Vec<RgbPixel>, ()>)
    requires
        pixels.len() == width * height * 3,
        win.x + win.w <= usize::MAX,
        win.y + win.h <= usize::MAX,
    ensures
        r is Ok <==> window_fits(width as int, height as int, *win),
        r matches Ok(v) ==> {
            &&& v.len() == win.h * win.w
            &&& forall|row: int, col: int|
                #![trigger window_pixel(pixels@, width as int, *win, row, col)]
                0 <= row < win.h && 0 <= col < win.w ==> v@[row * win.w + col] == window_pixel(
                    pixels@,
                    width as int,
                    *win,
                    row,
                    col,
                )
        },
{
    let x_end = win.x + win.w;
    let y_end = win.y + win.h;
    if height < y_end || width < x_end {
        return Err(());
    }
    let w = win.w;
    let mut out: Vec<RgbPixel> = Vec::new();
    let mut row: usize = 0;
    while row < win.h
        invariant
            row <= win.h,
            w == win.w,
            y_end == win.y + win.h,
            x_end == win.x + win.w,
            y_end <= height,
            x_end <= width,
            pixels.len() == width * height * 3,
            out.len() == row * w,
            forall|rr: int, cc: int|
                #![trigger window_pixel(pixels@, width as int, *win, rr, cc)]
                0 <= rr < row && 0 <= cc < w ==> out@[rr * w + cc] == window_pixel(
                    pixels@,
                    width as int,
                    *win,
                    rr,
                    cc,
                ),
        decreases win.h - row,
    {
        let mut col: usize = 0;
        while col < w
            invariant
                row < win.h,
                col <= w,
                w == win.w,
                y_end == win.y + win.h,
                x_end == win.x + win.w,
                y_end <= height,
                x_end <= width,
                pixels.len() == width * height * 3,
                out.len() == row * w + col,
                forall|rr: int, cc: int|
                    #![trigger window_pixel(pixels@, width as int, *win, rr, cc)]
                    (0 <= rr < row && 0 <= cc < w) || (rr == row && 0 <= cc < col)
                        ==> out@[rr * w + cc] == window_pixel(pixels@, width as int, *win, rr, cc),
            decreases w - col,
        {
            proof {
                lemma_offset_in_frame(width as int, height as int, win.y + row, win.x + col);
            }
            let i = ((win.y + row) * width + win.x + col) * 3;
            let px = RgbPixel { r: pixels[i], g: pixels[i + 1], b: pixels[i + 2] };
            let ghost old_out = out@;
            out.push(px);
            proof {
                assert forall|rr: int, cc: int|
                    (0 <= rr < row && 0 <= cc < w) || (rr == row && 0 <= cc < col + 1) implies
                    out@[rr * w + cc] == #[trigger] window_pixel(pixels@, width as int, *win, rr, cc) by {
                    if rr < row {
                        lemma_earlier_rows(rr, cc, row as int, w as int);
                        assert(out@[rr * w + cc] == old_out[rr * w + cc]);
                    } else if cc < col {
                        assert(out@[rr * w + cc] == old_out[rr * w + cc]);
                    } else {
                        assert(rr * w + cc == row * w + col);
                    }
                }
            }
            col = col + 1;
        }
        proof {
            lemma_next_row(row as int, w as int);
        }
        row = row + 1;
    }
    Ok(out)
}

} // verus!
