//! Raw-video capabilities of the v4l2 source devices, and the currently
//! selected resolution and frame rate among them.

use vstd::prelude::*;

use crate::decimal::{append_i32, int_decimal};
use crate::errors::GstError;

verus! {

/// A frame rate, as numerator and denominator.
#[derive(Debug, Clone, Copy, PartialEq, Eq, Structural)]
pub struct Fraction {
    pub numer: i32,
    pub denom: i32,
}

/// A frame size in pixels.
#[derive(Debug, Clone, Copy, PartialEq, Eq, Structural)]
pub struct Resolution {
    pub width: i32,
    pub height: i32,
}

/// One raw-video capability of a device: a resolution, the frame rates
/// offered at that resolution and the device node that offers it.
#[derive(Debug, Clone)]
pub struct RawSourceCap {
    pub resolution: Resolution,
    framerates: Vec<Fraction>,
    device_path: String,
}

/// One capability structure that a device reports, with the fields that were
/// readable with the expected type (`None` where the field was missing or of
/// another type).
#[derive(Debug, Clone)]
pub struct CapsStructure {
    pub name: String,
    pub width: Option<i32>,
    pub height: Option<i32>,
    pub framerates: Option<Vec<Fraction>>,
}

/// What a video source device reports: its v4l2 device path (`None` where the
/// device has no properties or no `api.v4l2.path` property) and its capability
/// structures (`None` where the device has no caps).
#[derive(Debug, Clone)]
pub struct DeviceInfo {
    pub v4l2_path: Option<String>,
    pub caps: Option<Vec<CapsStructure>>,
}

/// The settings that the capture stage of the pipeline is configured with.
#[derive(Debug, Clone)]
pub struct VideoSettings {
    pub device_path: String,
    pub resolution: Resolution,
    pub framerate: Fraction,
}

/// All raw-video capabilities found on the system, with the indices of the
/// selected capability and of the selected frame rate within it.
#[derive(Debug, Clone)]
pub struct RawSourceCaps {
    curr_cap_idx: usize,
    curr_framerate_idx: usize,
    caps: Vec<RawSourceCap>,
}

pub struct RawSourceCapView {
    pub resolution: Resolution,
    pub framerates: Seq<Fraction>,
    pub device_path: Seq<char>,
}

pub struct CapsStructureView {
    pub name: Seq<char>,
    pub width: Option<i32>,
    pub height: Option<i32>,
    pub framerates: Option<Seq<Fraction>>,
}

pub struct DeviceInfoView {
    pub v4l2_path: Option<Seq<char>>,
    pub caps: Option<Seq<CapsStructureView>>,
}

pub struct RawSourceCapsView {
    pub caps: Seq<RawSourceCapView>,
    pub cap_idx: nat,
    pub framerate_idx: nat,
}

impl View for RawSourceCap {
    type V = RawSourceCapView;

    closed spec fn view(&self) -> RawSourceCapView {
        RawSourceCapView {
            resolution: self.resolution,
            framerates: self.framerates@,
            device_path: self.device_path@,
        }
    }
}

impl View for CapsStructure {
    type V = CapsStructureView;

    open spec fn view(&self) -> CapsStructureView {
        CapsStructureView {
            name: self.name@,
            width: self.width,
            height: self.height,
            framerates: match self.framerates {
                Some(v) => Some(v@),
                None => None,
            },
        }
    }
}

impl View for DeviceInfo {
    type V = DeviceInfoView;

    open spec fn view(&self) -> DeviceInfoView {
        DeviceInfoView {
            v4l2_path: match self.v4l2_path {
                Some(p) => Some(p@),
                None => None,
            },
            caps: match self.caps {
                Some(v) => Some(structures_view(v@)),
                None => None,
            },
        }
    }
}

impl View for RawSourceCaps {
    type V = RawSourceCapsView;

    closed spec fn view(&self) -> RawSourceCapsView {
        RawSourceCapsView {
            caps: caps_view(self.caps@),
            cap_idx: self.curr_cap_idx as nat,
            framerate_idx: self.curr_framerate_idx as nat,
        }
    }
}

pub open spec fn caps_view(v: Seq<RawSourceCap>) -> Seq<RawSourceCapView> {
    v.map_values(|c: RawSourceCap| c@)
}

pub open spec fn structures_view(v: Seq<CapsStructure>) -> Seq<CapsStructureView> {
    v.map_values(|c: CapsStructure| c@)
}

pub open spec fn devices_view(v: Seq<DeviceInfo>) -> Seq<DeviceInfoView> {
    v.map_values(|d: DeviceInfo| d@)
}

/// The structure name of raw video.
pub open spec fn raw_video_name() -> Seq<char> {
    "video/x-raw"@
}

/// The capability that one structure of the device at `path` contributes:
/// one for a raw-video structure whose width, height and frame rate list are
/// all readable, none otherwise.
pub open spec fn caps_of_structure(path: Seq<char>, s: CapsStructureView) -> Seq<RawSourceCapView> {
    if s.name == raw_video_name() && s.width is Some && s.height is Some && s.framerates is Some {
        seq![
            RawSourceCapView {
                resolution: Resolution { width: s.width->0, height: s.height->0 },
                framerates: s.framerates->0,
                device_path: path,
            },
        ]
    } else {
        seq![]
    }
}

/// The capabilities of a list of structures of the device at `path`, in order.
pub open spec fn caps_of_structures(path: Seq<char>, ss: Seq<CapsStructureView>) -> Seq<
    RawSourceCapView,
>
    decreases ss.len(),
{
    if ss.len() == 0 {
        seq![]
    } else {
        caps_of_structures(path, ss.drop_last()) + caps_of_structure(path, ss.last())
    }
}

/// The capabilities of one device: none where its path or its caps are
/// missing.
pub open spec fn caps_of_device(d: DeviceInfoView) -> Seq<RawSourceCapView> {
    match (d.v4l2_path, d.caps) {
        (Some(p), Some(ss)) => caps_of_structures(p, ss),
        _ => seq![],
    }
}

/// The capabilities of all devices, device by device, in order.
pub open spec fn caps_of_devices(ds: Seq<DeviceInfoView>) -> Seq<RawSourceCapView>
    decreases ds.len(),
{
    if ds.len() == 0 {
        seq![]
    } else {
        caps_of_devices(ds.drop_last()) + caps_of_device(ds.last())
    }
}

/// The text of a frame rate in the list of selectable frame rates.
pub open spec fn fraction_text(f: Fraction) -> Seq<char> {
    int_decimal(f.numer as int) + seq!['/'] + int_decimal(f.denom as int)
}

/// The text that a frame rate displays as: the numerator alone for a
/// denominator of one, numerator and denominator otherwise.
pub open spec fn fraction_display(f: Fraction) -> Seq<char> {
    if f.denom == 1 {
        int_decimal(f.numer as int)
    } else {
        fraction_text(f)
    }
}

/// The text of a resolution.
pub open spec fn resolution_text(r: Resolution) -> Seq<char> {
    int_decimal(r.width as int) + seq!['x'] + int_decimal(r.height as int)
}

/// The text of a list of frame rates as the debug form of a GStreamer list
/// prints them.
pub open spec fn framerate_list_items(frs: Seq<Fraction>) -> Seq<char>
    decreases frs.len(),
{
    if frs.len() == 0 {
        seq![]
    } else if frs.len() == 1 {
        "(GstFraction) "@ + fraction_text(frs[0])
    } else {
        framerate_list_items(frs.drop_last()) + ", (GstFraction) "@ + fraction_text(frs.last())
    }
}

/// The full text of a capability.
pub open spec fn cap_text(c: RawSourceCapView) -> Seq<char> {
    "video/x-raw, Resolution: "@ + resolution_text(c.resolution) + ", Framerates: List(["@
        + framerate_list_items(c.framerates) + "]), Device Path: "@ + c.device_path
}

/// The text of a capability without its frame rates.
pub open spec fn cap_text_wo_framerate(c: RawSourceCapView) -> Seq<char> {
    c.device_path + ": "@ + resolution_text(c.resolution)
}

impl RawSourceCapsView {
    /// The selection indices point into the capability list, which is never
    /// empty; the frame rate index is 0 or points into the frame rates of the
    /// selected capability.
    pub open spec fn wf(self) -> bool {
        &&& self.caps.len() > 0
        &&& self.cap_idx < self.caps.len()
        &&& (self.framerate_idx == 0 || self.framerate_idx
            < self.caps[self.cap_idx as int].framerates.len())
    }

    pub open spec fn current(self) -> RawSourceCapView {
        self.caps[self.cap_idx as int]
    }

    /// The selected frame rate, or the error that reading it gives.
    pub open spec fn current_framerate(self) -> Result<Fraction, GstError> {
        if self.framerate_idx < self.current().framerates.len() {
            Ok(self.current().framerates[self.framerate_idx as int])
        } else {
            Err(GstError::InvalidValue)
        }
    }

    /// The state after selecting capability `i`, or the error.
    pub open spec fn after_set_resolution(self, i: nat) -> Result<RawSourceCapsView, GstError> {
        if i < self.caps.len() {
            Ok(RawSourceCapsView { caps: self.caps, cap_idx: i, framerate_idx: 0 })
        } else {
            Err(GstError::InvalidValue)
        }
    }

    /// The state after selecting frame rate `i` of the current capability, or
    /// the error.
    pub open spec fn after_set_framerate(self, i: nat) -> Result<RawSourceCapsView, GstError> {
        if i < self.current().framerates.len() {
            Ok(RawSourceCapsView { caps: self.caps, cap_idx: self.cap_idx, framerate_idx: i })
        } else {
            Err(GstError::InvalidValue)
        }
    }
}

proof fn lemma_push_caps_view(v: Seq<RawSourceCap>, c: RawSourceCap)
    ensures
        caps_view(v.push(c)) == caps_view(v).push(c@),
{
    assert(caps_view(v.push(c)) =~= caps_view(v).push(c@));
}

fn copy_framerates(v: &Vec<Fraction>) -> (r: Vec<Fraction>)
    ensures
        r@ == v@,
{
    let mut r: Vec<Fraction> = Vec::new();
    let mut i: usize = 0;
    while i < v.len()
        invariant
            i <= v.len(),
            r@ == v@.subrange(0, i as int),
        decreases v.len() - i,
    {
        r.push(v[i]);
        i = i + 1;
        assert(r@ =~= v@.subrange(0, i as int));
    }
    assert(v@.subrange(0, v.len() as int) =~= v@);
    r
}

fn raw_video_string() -> (s: String)
    ensures
        s@ == raw_video_name(),
{
    String::from_str("video/x-raw")
}

/// Appends the capabilities that the structures of the device at `path`
/// contribute.
fn collect_from_structures(path: &String, structures: &Vec<CapsStructure>, out: &mut Vec<RawSourceCap>)
    ensures
        caps_view(final(out)@) == caps_view(old(out)@) + caps_of_structures(
            path@,
            structures_view(structures@),
        ),
{
    let raw = raw_video_string();
    let ghost sv = structures_view(structures@);
    let ghost start = caps_view(out@);
    let mut i: usize = 0;
    while i < structures.len()
        invariant
            i <= structures.len(),
            sv == structures_view(structures@),
            raw@ == raw_video_name(),
            caps_view(out@) == start + caps_of_structures(path@, sv.subrange(0, i as int)),
        decreases structures.len() - i,
    {
        let s = &structures[i];
        let ghost before = caps_view(out@);
        proof {
            assert(sv.subrange(0, i + 1).drop_last() =~= sv.subrange(0, i as int));
            assert(sv.subrange(0, i + 1).last() == s@);
        }
        if s.name == raw {
            match (&s.width, &s.height, &s.framerates) {
                (Some(w), Some(h), Some(frs)) => {
                    let cap = RawSourceCap {
                        resolution: Resolution { width: *w, height: *h },
                        framerates: copy_framerates(frs),
                        device_path: path.clone(),
                    };
                    proof {
                        lemma_push_caps_view(out@, cap);
                    }
                    out.push(cap);
                    assert(caps_view(out@) =~= before + caps_of_structure(path@, s@));
                },
                _ => {
                    assert(caps_of_structure(path@, s@) =~= seq![]);
                    assert(caps_view(out@) =~= before + caps_of_structure(path@, s@));
                },
            }
        } else {
            assert(caps_of_structure(path@, s@) =~= seq![]);
            assert(caps_view(out@) =~= before + caps_of_structure(path@, s@));
        }
        i = i + 1;
        assert(caps_view(out@) =~= start + caps_of_structures(path@, sv.subrange(0, i as int)));
    }
    assert(sv.subrange(0, structures.len() as int) =~= sv);
}

/// Collects the raw-video capabilities of all devices, in the order in which
/// the devices and their structures are listed.
pub fn collect_raw_caps(devices: &Vec<DeviceInfo>) -> (r: Vec<RawSourceCap>)
    ensures
        caps_view(r@) == caps_of_devices(devices_view(devices@)),
{
    let ghost dv = devices_view(devices@);
    let mut out: Vec<RawSourceCap> = Vec::new();
    let mut i: usize = 0;
    assert(caps_view(out@) =~= caps_of_devices(dv.subrange(0, 0)));
    while i < devices.len()
        invariant
            i <= devices.len(),
            dv == devices_view(devices@),
            caps_view(out@) == caps_of_devices(dv.subrange(0, i as int)),
        decreases devices.len() - i,
    {
        let d = &devices[i];
        let ghost before = caps_view(out@);
        proof {
            assert(dv.subrange(0, i + 1).drop_last() =~= dv.subrange(0, i as int));
            assert(dv.subrange(0, i + 1).last() == d@);
        }
        match (&d.v4l2_path, &d.caps) {
            (Some(path), Some(structures)) => {
                collect_from_structures(path, structures, &mut out);
            },
            _ => {
                assert(caps_of_device(d@) =~= seq![]);
            },
        }
        i = i + 1;
        assert(caps_view(out@) =~= caps_of_devices(dv.subrange(0, i as int)));
    }
    assert(dv.subrange(0, devices.len() as int) =~= dv);
    out
}

impl Fraction {
    /// The text that the frame rate displays as.
    pub fn to_string(&self) -> (s: String)
        ensures
            s@ == fraction_display(*self),
    {
        let mut s = String::new();
        append_i32(&mut s, self.numer);
        if self.denom != 1 {
            proof { reveal_strlit("/"); }
            s.append("/");
            append_i32(&mut s, self.denom);
        }
        proof {
            if self.denom != 1 {
                assert(s@ =~= fraction_text(*self));
            } else {
                assert(s@ =~= int_decimal(self.numer as int));
            }
        }
        s
    }
}

fn fraction_to_text(f: Fraction) -> (s: String)
    ensures
        s@ == fraction_text(f),
{
    let mut s = String::new();
    append_i32(&mut s, f.numer);
    proof { reveal_strlit("/"); }
    s.append("/");
    append_i32(&mut s, f.denom);
    assert(s@ =~= fraction_text(f));
    s
}

impl Resolution {
    /// The text of the resolution, width and height separated by `x`.
    pub fn to_string(&self) -> (s: String)
        ensures
            s@ == resolution_text(*self),
    {
        let mut s = String::new();
        append_i32(&mut s, self.width);
        proof { reveal_strlit("x"); }
        s.append("x");
        append_i32(&mut s, self.height);
        assert(s@ =~= resolution_text(*self));
        s
    }
}

impl RawSourceCap {
    /// The full text of the capability: resolution, frame rates and device
    /// path.
    pub fn to_string(&self) -> (s: String)
        ensures
            s@ == cap_text(self@),
    {
        let mut s = String::from_str("video/x-raw, Resolution: ");
        let res = self.resolution.to_string();
        s.append(res.as_str());
        s.append(", Framerates: List([");
        let ghost prefix = s@;
        let mut i: usize = 0;
        while i < self.framerates.len()
            invariant
                i <= self.framerates.len(),
                s@ == prefix + framerate_list_items(self.framerates@.subrange(0, i as int)),
            decreases self.framerates.len() - i,
        {
            let ghost before = s@;
            proof {
                let sub = self.framerates@.subrange(0, i + 1);
                assert(sub.drop_last() =~= self.framerates@.subrange(0, i as int));
                assert(sub.last() == self.framerates@[i as int]);
                if i == 0 {
                    assert(sub[0] == self.framerates@[0]);
                }
            }
            if i == 0 {
                s.append("(GstFraction) ");
            } else {
                s.append(", (GstFraction) ");
            }
            let t = fraction_to_text(self.framerates[i]);
            s.append(t.as_str());
            i = i + 1;
            proof {
                if i == 1 {
                    assert(framerate_list_items(self.framerates@.subrange(0, 0)) =~= seq![]);
                }
            }
            assert(s@ =~= prefix + framerate_list_items(self.framerates@.subrange(0, i as int)));
        }
        assert(self.framerates@.subrange(0, self.framerates.len() as int) =~= self.framerates@);
        s.append("]), Device Path: ");
        s.append(self.device_path.as_str());
        assert(s@ =~= cap_text(self@));
        s
    }

    /// The text of the capability without its frame rates: device path and
    /// resolution.
    pub fn to_string_wo_framerate(&self) -> (s: String)
        ensures
            s@ == cap_text_wo_framerate(self@),
    {
        let mut s = self.device_path.clone();
        s.append(": ");
        let res = self.resolution.to_string();
        s.append(res.as_str());
        assert(s@ =~= cap_text_wo_framerate(self@));
        s
    }
}


impl RawSourceCaps {
    /// The selection indices are valid for the capability list, which is
    /// never empty.
    pub open spec fn wf(&self) -> bool {
        self@.wf()
    }

    /// Builds the capability list from what the devices report, selecting the
    /// first capability and its first frame rate. Fails with `NoCapsFound`
    /// exactly when no device offers a raw-video capability.
    pub fn new(devices: Vec<DeviceInfo>) -> (r: Result<Self, GstError>)
        ensures
            r is Ok <==> caps_of_devices(devices_view(devices@)).len() > 0,
            match r {
                Ok(rsc) => {
                    &&& rsc.wf()
                    &&& rsc@.caps == caps_of_devices(devices_view(devices@))
                    &&& rsc@.cap_idx == 0
                    &&& rsc@.framerate_idx == 0
                },
                Err(e) => e == GstError::NoCapsFound,
            },
    {
        let rsc = RawSourceCaps {
            caps: collect_raw_caps(&devices),
            curr_cap_idx: 0,
            curr_framerate_idx: 0,
        };
        if rsc.caps.len() == 0 {
            Err(GstError::NoCapsFound)
        } else {
            Ok(rsc)
        }
    }

    /// The available capabilities.
    pub fn get_caps(&self) -> (r: &Vec<RawSourceCap>)
        ensures
            caps_view(r@) == self@.caps,
    {
        &self.caps
    }

    /// Selects capability `cap_idx` and its first frame rate; an index past
    /// the end is refused with `InvalidValue` and changes nothing.
    pub fn set_resolution(&mut self, cap_idx: usize) -> (r: Result<(), GstError>)
        requires
            old(self).wf(),
        ensures
            final(self).wf(),
            match old(self)@.after_set_resolution(cap_idx as nat) {
                Ok(v) => r is Ok && final(self)@ == v,
                Err(e) => r == Err::<(), GstError>(e) && final(self)@ == old(self)@,
            },
    {
        if cap_idx >= self.caps.len() {
            return Err(GstError::InvalidValue);
        }
        self.curr_cap_idx = cap_idx;
        self.curr_framerate_idx = 0;
        Ok(())
    }

    /// Selects frame rate `framerate_idx` of the current capability; an index
    /// past the end is refused with `InvalidValue` and changes nothing.
    pub fn set_framerate(&mut self, framerate_idx: usize) -> (r: Result<(), GstError>)
        requires
            old(self).wf(),
        ensures
            final(self).wf(),
            match old(self)@.after_set_framerate(framerate_idx as nat) {
                Ok(v) => r is Ok && final(self)@ == v,
                Err(e) => r == Err::<(), GstError>(e) && final(self)@ == old(self)@,
            },
    {
        if framerate_idx >= self.caps[self.curr_cap_idx].framerates.len() {
            return Err(GstError::InvalidValue);
        }
        self.curr_framerate_idx = framerate_idx;
        Ok(())
    }

    /// The device path of the current capability.
    pub fn get_current_device_path(&self) -> (s: &str)
        requires
            self.wf(),
        ensures
            s@ == self@.current().device_path,
    {
        self.caps[self.curr_cap_idx].device_path.as_str()
    }

    /// The frame rates of the current capability, as `numerator/denominator`
    /// texts, in order.
    pub fn get_current_framerates_as_strings(&self) -> (r: Vec<String>)
        requires
            self.wf(),
        ensures
            r.len() == self@.current().framerates.len(),
            forall|i: int|
                0 <= i < r.len() ==> #[trigger] r@[i]@ == fraction_text(
                    self@.current().framerates[i],
                ),
    {
        let frs = &self.caps[self.curr_cap_idx].framerates;
        let mut r: Vec<String> = Vec::new();
        let mut i: usize = 0;
        while i < frs.len()
            invariant
                i <= frs.len(),
                frs@ == self@.current().framerates,
                r.len() == i,
                forall|k: int| 0 <= k < i ==> #[trigger] r@[k]@ == fraction_text(frs@[k]),
            decreases frs.len() - i,
        {
            r.push(fraction_to_text(frs[i]));
            i = i + 1;
        }
        r
    }

    /// The selected frame rate; `InvalidValue` where the current capability
    /// offers no frame rate.
    pub fn get_current_framerate(&self) -> (r: Result<Fraction, GstError>)
        requires
            self.wf(),
        ensures
            r == self@.current_framerate(),
    {
        let cap = &self.caps[self.curr_cap_idx];
        if self.curr_framerate_idx < cap.framerates.len() {
            Ok(cap.framerates[self.curr_framerate_idx])
        } else {
            Err(GstError::InvalidValue)
        }
    }

    /// The resolution of the current capability.
    pub fn get_current_resolution(&self) -> (r: Resolution)
        requires
            self.wf(),
        ensures
            r == self@.current().resolution,
    {
        self.caps[self.curr_cap_idx].resolution
    }

    /// The settings the capture stage is to be configured with: the device
    /// path, resolution and frame rate of the current selection, or the error
    /// of reading the frame rate.
    pub fn current_video_settings(&self) -> (r: Result<VideoSettings, GstError>)
        requires
            self.wf(),
        ensures
            match self@.current_framerate() {
                Ok(f) => r matches Ok(vs) && vs.device_path@ == self@.current().device_path
                    && vs.resolution == self@.current().resolution && vs.framerate == f,
                Err(e) => r == Err::<VideoSettings, GstError>(e),
            },
    {
        let framerate = match self.get_current_framerate() {
            Ok(f) => f,
            Err(e) => return Err(e),
        };
        let path = self.caps[self.curr_cap_idx].device_path.clone();
        Ok(VideoSettings { device_path: path, resolution: self.get_current_resolution(), framerate })
    }

    /// The labels of all capabilities, device path and resolution, in order.
    pub fn source_labels(&self) -> (r: Vec<String>)
        ensures
            r.len() == self@.caps.len(),
            forall|i: int|
                0 <= i < r.len() ==> #[trigger] r@[i]@ == cap_text_wo_framerate(self@.caps[i]),
    {
        let mut r: Vec<String> = Vec::new();
        let mut i: usize = 0;
        while i < self.caps.len()
            invariant
                i <= self.caps.len(),
                r.len() == i,
                forall|k: int|
                    0 <= k < i ==> #[trigger] r@[k]@ == cap_text_wo_framerate(self@.caps[k]),
            decreases self.caps.len() - i,
        {
            r.push(self.caps[i].to_string_wo_framerate());
            i = i + 1;
        }
        r
    }
}

/// Whether a structure describes a usable raw-video capability.
pub open spec fn yields_cap(s: CapsStructureView) -> bool {
    s.name == raw_video_name() && s.width is Some && s.height is Some && s.framerates is Some
}

/// Whether a device offers at least one usable raw-video capability.
pub open spec fn device_has_raw_cap(d: DeviceInfoView) -> bool {
    &&& d.v4l2_path is Some
    &&& d.caps matches Some(ss) && exists|j: int| 0 <= j < ss.len() && yields_cap(#[trigger] ss[j])
}

proof fn lemma_structures_nonempty(p: Seq<char>, ss: Seq<CapsStructureView>)
    ensures
        caps_of_structures(p, ss).len() > 0 <==> exists|j: int|
            0 <= j < ss.len() && yields_cap(#[trigger] ss[j]),
    decreases ss.len(),
{
    if ss.len() > 0 {
        lemma_structures_nonempty(p, ss.drop_last());
        if exists|j: int| 0 <= j < ss.len() && yields_cap(#[trigger] ss[j]) {
            let j = choose|j: int| 0 <= j < ss.len() && yields_cap(#[trigger] ss[j]);
            if j < ss.len() - 1 {
                assert(ss.drop_last()[j] == ss[j]);
            }
        }
        if exists|j: int| 0 <= j < ss.drop_last().len() && yields_cap(#[trigger] ss.drop_last()[j]) {
            let j = choose|j: int|
                0 <= j < ss.drop_last().len() && yields_cap(#[trigger] ss.drop_last()[j]);
            assert(ss[j] == ss.drop_last()[j]);
        }
    }
}

/// Building the capability list succeeds exactly when some device has a v4l2
/// path and reports a raw-video structure with readable width, height and
/// frame rate list.
pub proof fn law_caps_found_iff(ds: Seq<DeviceInfoView>)
    ensures
        caps_of_devices(ds).len() > 0 <==> exists|i: int|
            0 <= i < ds.len() && device_has_raw_cap(#[trigger] ds[i]),
    decreases ds.len(),
{
    if ds.len() > 0 {
        law_caps_found_iff(ds.drop_last());
        let d = ds.last();
        match (d.v4l2_path, d.caps) {
            (Some(p), Some(ss)) => {
                lemma_structures_nonempty(p, ss);
            },
            _ => {},
        }
        if exists|i: int| 0 <= i < ds.len() && device_has_raw_cap(#[trigger] ds[i]) {
            let i = choose|i: int| 0 <= i < ds.len() && device_has_raw_cap(#[trigger] ds[i]);
            if i < ds.len() - 1 {
                assert(ds.drop_last()[i] == ds[i]);
            }
        }
        if exists|i: int|
            0 <= i < ds.drop_last().len() && device_has_raw_cap(#[trigger] ds.drop_last()[i]) {
            let i = choose|i: int|
                0 <= i < ds.drop_last().len() && device_has_raw_cap(#[trigger] ds.drop_last()[i]);
            assert(ds[i] == ds.drop_last()[i]);
        }
    }
}

/// The capability that a usable structure of the device at `p` stands for.
pub open spec fn cap_from(p: Seq<char>, s: CapsStructureView) -> RawSourceCapView {
    RawSourceCapView {
        resolution: Resolution { width: s.width->0, height: s.height->0 },
        framerates: s.framerates->0,
        device_path: p,
    }
}

proof fn lemma_structures_sound(p: Seq<char>, ss: Seq<CapsStructureView>, k: int)
    requires
        0 <= k < caps_of_structures(p, ss).len(),
    ensures
        exists|j: int|
            0 <= j < ss.len() && yields_cap(#[trigger] ss[j]) && caps_of_structures(p, ss)[k]
                == cap_from(p, ss[j]),
    decreases ss.len(),
{
    let front = caps_of_structures(p, ss.drop_last());
    if k < front.len() {
        lemma_structures_sound(p, ss.drop_last(), k);
        let j = choose|j: int|
            0 <= j < ss.drop_last().len() && yields_cap(#[trigger] ss.drop_last()[j])
                && front[k] == cap_from(p, ss.drop_last()[j]);
        assert(ss[j] == ss.drop_last()[j]);
    } else {
        let j = ss.len() - 1;
        assert(yields_cap(ss[j]));
    }
}

/// Every capability in the list stands for a usable raw-video structure of a
/// device, with that device's path, the structure's width and height and its
/// frame rate list.
pub proof fn law_caps_sound(ds: Seq<DeviceInfoView>, k: int)
    requires
        0 <= k < caps_of_devices(ds).len(),
    ensures
        exists|i: int, j: int|
            #![trigger ds[i], ds[i].caps->0[j]]
            0 <= i < ds.len() && ds[i].v4l2_path is Some && ds[i].caps is Some && 0 <= j
                < ds[i].caps->0.len() && yields_cap(ds[i].caps->0[j]) && caps_of_devices(ds)[k]
                == cap_from(ds[i].v4l2_path->0, ds[i].caps->0[j]),
    decreases ds.len(),
{
    let front = caps_of_devices(ds.drop_last());
    if k < front.len() {
        law_caps_sound(ds.drop_last(), k);
        let (i, j) = choose|i: int, j: int|
            #![trigger ds.drop_last()[i], ds.drop_last()[i].caps->0[j]]
            0 <= i < ds.drop_last().len() && ds.drop_last()[i].v4l2_path is Some
                && ds.drop_last()[i].caps is Some && 0 <= j < ds.drop_last()[i].caps->0.len()
                && yields_cap(ds.drop_last()[i].caps->0[j]) && front[k] == cap_from(
                ds.drop_last()[i].v4l2_path->0,
                ds.drop_last()[i].caps->0[j],
            );
        assert(ds[i] == ds.drop_last()[i]);
    } else {
        let i = ds.len() - 1;
        let d = ds[i];
        match (d.v4l2_path, d.caps) {
            (Some(p), Some(ss)) => {
                lemma_structures_sound(p, ss, k - front.len());
                let j = choose|j: int|
                    0 <= j < ss.len() && yields_cap(#[trigger] ss[j]) && caps_of_structures(p, ss)[k
                        - front.len()] == cap_from(p, ss[j]);
                assert(ds[i].caps->0[j] == ss[j]);
            },
            _ => {},
        }
    }
}

/// Selecting a capability makes it current and falls back to its first frame
/// rate; reading the frame rate then gives that first frame rate, or
/// `InvalidValue` where the capability offers none.
pub proof fn law_resolution_selection(v: RawSourceCapsView, i: nat)
    requires
        v.wf(),
        i < v.caps.len(),
    ensures
        v.after_set_resolution(i) matches Ok(w) && w.wf() && w.current() == v.caps[i as int]
            && w.current_framerate() == (if v.caps[i as int].framerates.len() > 0 {
            Ok::<Fraction, GstError>(v.caps[i as int].framerates[0])
        } else {
            Err::<Fraction, GstError>(GstError::InvalidValue)
        }),
{
}

/// Selecting a frame rate of the current capability keeps that capability,
/// and reading the frame rate then gives the selected one.
pub proof fn law_framerate_selection(v: RawSourceCapsView, i: nat)
    requires
        v.wf(),
        i < v.current().framerates.len(),
    ensures
        v.after_set_framerate(i) matches Ok(w) && w.wf() && w.current() == v.current()
            && w.current_framerate() == Ok::<Fraction, GstError>(
            v.current().framerates[i as int],
        ),
{
}

/// A refused selection is refused with `InvalidValue`, exactly for an index
/// past the end of the list it selects from.
pub proof fn law_refused_selection(v: RawSourceCapsView, i: nat)
    requires
        v.wf(),
    ensures
        v.after_set_resolution(i) is Err <==> i >= v.caps.len(),
        v.after_set_framerate(i) is Err <==> i >= v.current().framerates.len(),
        v.after_set_resolution(i) is Err ==> v.after_set_resolution(i) == Err::<
            RawSourceCapsView,
            GstError,
        >(GstError::InvalidValue),
        v.after_set_framerate(i) is Err ==> v.after_set_framerate(i) == Err::<
            RawSourceCapsView,
            GstError,
        >(GstError::InvalidValue),
{
}

/// The number of usable raw-video structures among the first `j` of `ss`.
pub open spec fn usable_before(ss: Seq<CapsStructureView>, j: int) -> nat
    decreases j,
{
    if j <= 0 {
        0
    } else {
        usable_before(ss, j - 1) + if yields_cap(ss[j - 1]) {
            1nat
        } else {
            0nat
        }
    }
}

/// The number of usable raw-video structures of a device that has a path.
pub open spec fn device_usable(d: DeviceInfoView) -> nat {
    match (d.v4l2_path, d.caps) {
        (Some(_), Some(ss)) => usable_before(ss, ss.len() as int),
        _ => 0,
    }
}

/// The number of usable raw-video structures of the first `i` devices.
pub open spec fn devices_usable_before(ds: Seq<DeviceInfoView>, i: int) -> nat
    decreases i,
{
    if i <= 0 {
        0
    } else {
        devices_usable_before(ds, i - 1) + device_usable(ds[i - 1])
    }
}

proof fn lemma_usable_prefix(ss: Seq<CapsStructureView>, t: Seq<CapsStructureView>, j: int)
    requires
        0 <= j <= ss.len(),
        j <= t.len(),
        forall|k: int| 0 <= k < j ==> ss[k] == t[k],
    ensures
        usable_before(ss, j) == usable_before(t, j),
    decreases j,
{
    if j > 0 {
        lemma_usable_prefix(ss, t, j - 1);
    }
}

proof fn lemma_usable_mono(ss: Seq<CapsStructureView>, j: int, n: int)
    requires
        0 <= j <= n,
    ensures
        usable_before(ss, j) <= usable_before(ss, n),
    decreases n,
{
    if j < n {
        lemma_usable_mono(ss, j, n - 1);
    }
}

proof fn lemma_devices_usable_prefix(ds: Seq<DeviceInfoView>, t: Seq<DeviceInfoView>, i: int)
    requires
        0 <= i <= ds.len(),
        i <= t.len(),
        forall|k: int| 0 <= k < i ==> ds[k] == t[k],
    ensures
        devices_usable_before(ds, i) == devices_usable_before(t, i),
    decreases i,
{
    if i > 0 {
        lemma_devices_usable_prefix(ds, t, i - 1);
    }
}

proof fn lemma_devices_usable_mono(ds: Seq<DeviceInfoView>, i: int, n: int)
    requires
        0 <= i <= n,
    ensures
        devices_usable_before(ds, i) <= devices_usable_before(ds, n),
    decreases n,
{
    if i < n {
        lemma_devices_usable_mono(ds, i, n - 1);
    }
}

proof fn lemma_structures_complete(p: Seq<char>, ss: Seq<CapsStructureView>)
    ensures
        caps_of_structures(p, ss).len() == usable_before(ss, ss.len() as int),
        forall|j: int|
            0 <= j < ss.len() && yields_cap(ss[j]) ==> caps_of_structures(p, ss)[#[trigger] usable_before(
                ss,
                j,
            ) as int] == cap_from(p, ss[j]),
    decreases ss.len(),
{
    if ss.len() > 0 {
        let front = ss.drop_last();
        let n = ss.len() - 1;
        lemma_structures_complete(p, front);
        lemma_usable_prefix(ss, front, n);
        let f = caps_of_structures(p, front);
        assert forall|j: int| 0 <= j < ss.len() && yields_cap(ss[j]) implies caps_of_structures(
            p,
            ss,
        )[#[trigger] usable_before(ss, j) as int] == cap_from(p, ss[j]) by {
            if j < n {
                lemma_usable_prefix(ss, front, j);
                assert(front[j] == ss[j]);
                lemma_usable_mono(front, j + 1, n);
                assert(usable_before(front, j + 1) == usable_before(front, j) + 1);
            }
        }
    }
}

/// Every usable raw-video structure of every device with a path is in the
/// capability list, none is dropped: the `j`-th structure of the `i`-th device
/// stands at the position given by the number of usable structures before it
/// (in device, then structure order), and the list holds nothing else.
pub proof fn law_caps_complete(ds: Seq<DeviceInfoView>)
    ensures
        caps_of_devices(ds).len() == devices_usable_before(ds, ds.len() as int),
        forall|i: int, j: int|
            #![trigger ds[i], ds[i].caps->0[j]]
            0 <= i < ds.len() && ds[i].v4l2_path is Some && ds[i].caps is Some && 0 <= j
                < ds[i].caps->0.len() && yields_cap(ds[i].caps->0[j]) ==> caps_of_devices(ds)[(
            devices_usable_before(ds, i) + usable_before(ds[i].caps->0, j)) as int] == cap_from(
                ds[i].v4l2_path->0,
                ds[i].caps->0[j],
            ),
    decreases ds.len(),
{
    if ds.len() > 0 {
        let front = ds.drop_last();
        let n = ds.len() - 1;
        law_caps_complete(front);
        lemma_devices_usable_prefix(ds, front, n);
        let d = ds[n];
        match (d.v4l2_path, d.caps) {
            (Some(p), Some(ss)) => {
                lemma_structures_complete(p, ss);
            },
            _ => {},
        }
        assert forall|i: int, j: int|
            0 <= i < ds.len() && ds[i].v4l2_path is Some && ds[i].caps is Some && 0 <= j
                < ds[i].caps->0.len() && yields_cap(#[trigger] ds[i].caps->0[j]) implies caps_of_devices(
            ds,
        )[(devices_usable_before(ds, i) + usable_before(ds[i].caps->0, j)) as int] == cap_from(
            ds[i].v4l2_path->0,
            ds[i].caps->0[j],
        ) by {
            if i < n {
                lemma_devices_usable_prefix(ds, front, i);
                assert(front[i] == ds[i]);
                let ss = ds[i].caps->0;
                lemma_usable_mono(ss, j + 1, ss.len() as int);
                assert(usable_before(ss, j + 1) == usable_before(ss, j) + 1);
                lemma_devices_usable_mono(front, i + 1, n);
                assert(front[i].caps->0[j] == ds[i].caps->0[j]);
            } else {
                let ss = ds[i].caps->0;
                assert(usable_before(ss, j) < usable_before(ss, ss.len() as int)) by {
                    lemma_usable_mono(ss, j + 1, ss.len() as int);
                }
            }
        }
    }
}

/// A selection changes only the selection: the capability list stays as it
/// is. Selecting capability `i` makes index `i` current with its first frame
/// rate; selecting frame rate `i` keeps the current capability.
pub proof fn law_selection_keeps_caps(v: RawSourceCapsView, i: nat)
    requires
        v.wf(),
    ensures
        v.after_set_resolution(i) matches Ok(w) ==> w.caps == v.caps && w.cap_idx == i
            && w.framerate_idx == 0,
        v.after_set_framerate(i) matches Ok(w) ==> w.caps == v.caps && w.cap_idx == v.cap_idx
            && w.framerate_idx == i,
{
}

/// Selections do not depend on earlier ones: after any successful selection
/// of a capability or of a frame rate, selecting capability `j` gives the
/// same state as selecting it right away.
pub proof fn law_selection_history_free(v: RawSourceCapsView, i: nat, k: nat, j: nat)
    requires
        v.wf(),
    ensures
        v.after_set_resolution(i) matches Ok(w) ==> w.after_set_resolution(j)
            == v.after_set_resolution(j),
        v.after_set_framerate(k) matches Ok(w) ==> w.after_set_resolution(j)
            == v.after_set_resolution(j),
        j < v.caps.len() ==> (v.after_set_resolution(j) matches Ok(w) && w.current()
            == v.caps[j as int]),
{
}

} // verus!
