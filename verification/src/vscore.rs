//! The core: one in-process instance of the host. It owns every
//! reference-counted object — nodes, frames, functions — and hands out and
//! takes back references through the handle types. Cloning a handle
//! increments the object's reference count; freeing a handle decrements
//! it; an object whose count reaches zero is dead.

use crate::frame::{AudioFrame, VideoFrame};
use crate::function::Function;
use crate::node::{AudioNode, VideoNode};
use crate::vs::{
    spec_video_id, vs_make_video_id, VSAudioFormat, VSAudioInfo, VSColorFamily, VSCoreInfo,
    VSFilterDependency, VSMessageType, VSSampleType, VSVideoFormat, VSVideoInfo,
    VAPOURSYNTH_API_VERSION,
};
use vstd::prelude::*;

verus! {

/// One plane of a video frame: its dimensions in pixels, its row stride in
/// bytes, and its bytes.
struct PlaneBuf {
    width: i32,
    height: i32,
    stride: usize,
    data: Vec<u8>,
}

/// Spec-level image of one plane of a video frame.
pub struct PlaneModel {
    pub width: i32,
    pub height: i32,
    pub stride: usize,
    pub data: Seq<u8>,
}

impl View for PlaneBuf {
    type V = PlaneModel;

    closed spec fn view(&self) -> PlaneModel {
        PlaneModel { width: self.width, height: self.height, stride: self.stride, data: self.data@ }
    }
}

/// The spec-level image of a plane list.
spec fn planes_view(v: Seq<PlaneBuf>) -> Seq<PlaneModel> {
    v.map_values(|pb: PlaneBuf| pb@)
}

/// Payload of one host-owned object.
enum ObjectData {
    VideoNode { node_info: VSVideoInfo, deps: Vec<VSFilterDependency>, source_frames: Option<Vec<u64>> },
    AudioNode { audio_info: VSAudioInfo, audio_deps: Vec<VSFilterDependency> },
    VideoFrame { frame_format: VSVideoFormat, width: i32, height: i32, planes: Vec<PlaneBuf> },
    AudioFrame { audio_format: VSAudioFormat, length: i32 },
    Function,
}

/// Spec-level image of one object's payload.
pub enum ObjectDataModel {
    VideoNode { node_info: VSVideoInfo, deps: Seq<VSFilterDependency>, source_frames: Option<Seq<u64>> },
    AudioNode { audio_info: VSAudioInfo, audio_deps: Seq<VSFilterDependency> },
    VideoFrame { frame_format: VSVideoFormat, width: i32, height: i32, planes: Seq<PlaneModel> },
    AudioFrame { audio_format: VSAudioFormat, length: i32 },
    Function,
}

impl View for ObjectData {
    type V = ObjectDataModel;

    closed spec fn view(&self) -> ObjectDataModel {
        match self {
            ObjectData::VideoNode { node_info, deps, source_frames } => ObjectDataModel::VideoNode {
                node_info: *node_info,
                deps: deps@,
                source_frames: match source_frames {
                    Some(f) => Some(f@),
                    None => None,
                },
            },
            ObjectData::AudioNode { audio_info, audio_deps } => ObjectDataModel::AudioNode {
                audio_info: *audio_info,
                audio_deps: audio_deps@,
            },
            ObjectData::VideoFrame { frame_format, width, height, planes } => {
                ObjectDataModel::VideoFrame {
                    frame_format: *frame_format,
                    width: *width,
                    height: *height,
                    planes: planes_view(planes@),
                }
            },
            ObjectData::AudioFrame { audio_format, length } => ObjectDataModel::AudioFrame {
                audio_format: *audio_format,
                length: *length,
            },
            ObjectData::Function => ObjectDataModel::Function,
        }
    }
}

/// One reference-counted object held by the core.
struct ObjectSlot {
    refcount: u64,
    data: ObjectData,
}

/// Spec-level image of one reference-counted object.
pub struct ObjectModel {
    pub refcount: u64,
    pub data: ObjectDataModel,
}

impl View for ObjectSlot {
    type V = ObjectModel;

    closed spec fn view(&self) -> ObjectModel {
        ObjectModel { refcount: self.refcount, data: self.data@ }
    }
}

/// Spec-level image of a whole core: its object table, in creation order
/// (an object keeps its id for the core's lifetime, dead or alive), and
/// its settings.
pub struct CoreModel {
    pub objects: Seq<ObjectModel>,
    pub max_cache_size: i64,
    pub num_threads: i32,
    pub log: Seq<(VSMessageType, Seq<char>)>,
}

impl CoreModel {
    /// Whether `id` names an object of this core.
    pub open spec fn in_range(self, id: int) -> bool {
        0 <= id < self.objects.len()
    }

    /// The reference count of `id`; zero for an id out of range.
    pub open spec fn refcount(self, id: int) -> u64 {
        if self.in_range(id) {
            self.objects[id].refcount
        } else {
            0
        }
    }

    /// Whether `id` names an object that is still alive.
    pub open spec fn live(self, id: int) -> bool {
        self.refcount(id) > 0
    }

    /// The core after one more reference to `id` is handed out. A dead or
    /// unknown id, or a saturated count, changes nothing.
    pub open spec fn spec_clone_obj(self, id: int) -> CoreModel {
        if self.live(id) && self.refcount(id) < u64::MAX {
            CoreModel {
                objects: self.objects.update(
                    id,
                    ObjectModel {
                        refcount: (self.objects[id].refcount + 1) as u64,
                        data: self.objects[id].data,
                    },
                ),
                ..self
            }
        } else {
            self
        }
    }

    /// The core after one reference to `id` is given back. A dead or
    /// unknown id changes nothing.
    pub open spec fn spec_free_obj(self, id: int) -> CoreModel {
        if self.live(id) {
            CoreModel {
                objects: self.objects.update(
                    id,
                    ObjectModel {
                        refcount: (self.objects[id].refcount - 1) as u64,
                        data: self.objects[id].data,
                    },
                ),
                ..self
            }
        } else {
            self
        }
    }

    /// The core after a fresh object with one reference is created; the
    /// new object's id is the old table length.
    pub open spec fn spec_new_obj(self, data: ObjectDataModel) -> CoreModel {
        CoreModel { objects: self.objects.push(ObjectModel { refcount: 1, data }), ..self }
    }

    /// Whether `id` names a live video node.
    pub open spec fn is_video_node(self, id: int) -> bool {
        self.live(id) && self.objects[id].data is VideoNode
    }

    /// Whether `id` names a live video frame.
    pub open spec fn is_video_frame(self, id: int) -> bool {
        self.live(id) && self.objects[id].data is VideoFrame
    }

    /// The clip information of the video node `id`.
    pub open spec fn video_info_of(self, id: int) -> VSVideoInfo {
        self.objects[id].data->VideoNode_node_info
    }

    /// The declared dependencies of the video node `id`.
    pub open spec fn deps_of(self, id: int) -> Seq<VSFilterDependency> {
        self.objects[id].data->VideoNode_deps
    }

    /// The preset frames of the video node `id`, when it is a source.
    pub open spec fn source_frames_of(self, id: int) -> Option<Seq<u64>> {
        self.objects[id].data->VideoNode_source_frames
    }

    /// Whether `id` names a live audio node.
    pub open spec fn is_audio_node(self, id: int) -> bool {
        self.live(id) && self.objects[id].data is AudioNode
    }

    /// The clip information of the audio node `id`.
    pub open spec fn audio_info_of(self, id: int) -> VSAudioInfo {
        self.objects[id].data->AudioNode_audio_info
    }

    /// The declared dependencies of the audio node `id`.
    pub open spec fn audio_deps_of(self, id: int) -> Seq<VSFilterDependency> {
        self.objects[id].data->AudioNode_audio_deps
    }

    /// The planes of the video frame `id`.
    pub open spec fn frame_planes_of(self, id: int) -> Seq<PlaneModel> {
        self.objects[id].data->VideoFrame_planes
    }

    /// The core after the bytes of one plane of frame `id` are replaced.
    pub open spec fn spec_put_plane(self, id: int, plane: int, data: Seq<u8>) -> CoreModel {
        let obj = self.objects[id];
        let planes = obj.data->VideoFrame_planes;
        let pm = planes[plane];
        CoreModel {
            objects: self.objects.update(
                id,
                ObjectModel {
                    refcount: obj.refcount,
                    data: ObjectDataModel::VideoFrame {
                        frame_format: obj.data->VideoFrame_frame_format,
                        width: obj.data->VideoFrame_width,
                        height: obj.data->VideoFrame_height,
                        planes: planes.update(plane, PlaneModel { data, ..pm }),
                    },
                },
            ),
            ..self
        }
    }
}

/// The subsampling divisor for a log2 factor of zero to four.
pub open spec fn sub_factor(ss: int) -> int {
    if ss <= 0 {
        1
    } else if ss == 1 {
        2
    } else if ss == 2 {
        4
    } else if ss == 3 {
        8
    } else {
        16
    }
}

/// Width in pixels of plane `p` of a clip `width` pixels wide: the second
/// and third plane are subsampled.
pub open spec fn spec_plane_width(f: VSVideoFormat, width: int, p: int) -> int {
    if p == 0 {
        width
    } else {
        width / sub_factor(f.sub_sampling_w as int)
    }
}

/// Height in pixels of plane `p` of a clip `height` pixels tall.
pub open spec fn spec_plane_height(f: VSVideoFormat, height: int, p: int) -> int {
    if p == 0 {
        height
    } else {
        height / sub_factor(f.sub_sampling_h as int)
    }
}

/// Row stride in bytes of plane `p`: its width times the sample size.
pub open spec fn spec_stride_of(f: VSVideoFormat, width: int, p: int) -> int {
    spec_plane_width(f, width, p) * f.bytes_per_sample
}

/// The planes of a freshly created frame: correctly sized and zero-filled.
pub open spec fn blank_planes(f: VSVideoFormat, width: int, height: int) -> Seq<PlaneModel> {
    Seq::new(
        f.num_planes as nat,
        |p: int|
            PlaneModel {
                width: spec_plane_width(f, width, p) as i32,
                height: spec_plane_height(f, height, p) as i32,
                stride: spec_stride_of(f, width, p) as usize,
                data: Seq::new(
                    (spec_stride_of(f, width, p) * spec_plane_height(f, height, p)) as nat,
                    |i: int| 0u8,
                ),
            },
    )
}

/// The argument combinations the host accepts as a video format: a defined
/// colour family, a bit depth the sample type allows, subsampling factors
/// of at most four, and subsampling only for YUV.
pub open spec fn valid_format_args(
    cf: VSColorFamily,
    st: VSSampleType,
    bits: int,
    ssw: int,
    ssh: int,
) -> bool {
    &&& cf != VSColorFamily::Undefined
    &&& (st == VSSampleType::Integer ==> 8 <= bits <= 32)
    &&& (st == VSSampleType::Float ==> bits == 16 || bits == 32)
    &&& 0 <= ssw <= 4
    &&& 0 <= ssh <= 4
    &&& (cf != VSColorFamily::YUV ==> ssw == 0 && ssh == 0)
}

/// Number of bytes that hold one sample of `bits` bits: the smallest power
/// of two that fits it.
pub open spec fn spec_bytes_for_bits(bits: int) -> int {
    if bits <= 8 {
        1
    } else if bits <= 16 {
        2
    } else {
        4
    }
}

/// The zeroed format record the host answers for an invalid description.
pub open spec fn zero_video_format() -> VSVideoFormat {
    VSVideoFormat {
        color_family: VSColorFamily::Undefined,
        sample_type: VSSampleType::Integer,
        bits_per_sample: 0,
        bytes_per_sample: 0,
        sub_sampling_w: 0,
        sub_sampling_h: 0,
        num_planes: 0,
    }
}

/// The format record the host fills for the given description; an invalid
/// description gives the zeroed record.
pub open spec fn spec_query_video_format(
    cf: VSColorFamily,
    st: VSSampleType,
    bits: int,
    ssw: int,
    ssh: int,
) -> VSVideoFormat {
    if valid_format_args(cf, st, bits, ssw, ssh) {
        VSVideoFormat {
            color_family: cf,
            sample_type: st,
            bits_per_sample: bits as i32,
            bytes_per_sample: spec_bytes_for_bits(bits) as i32,
            sub_sampling_w: ssw as i32,
            sub_sampling_h: ssh as i32,
            num_planes: cf.spec_num_planes() as i32,
        }
    } else {
        zero_video_format()
    }
}

/// A format record the core could have filled in itself.
pub open spec fn valid_video_format(f: VSVideoFormat) -> bool {
    f == spec_query_video_format(
        f.color_family,
        f.sample_type,
        f.bits_per_sample as int,
        f.sub_sampling_w as int,
        f.sub_sampling_h as int,
    ) && f != zero_video_format()
}

/// Number of set bits in a number.
pub open spec fn spec_popcount(x: nat) -> nat
    decreases x,
{
    if x == 0 {
        0
    } else {
        x % 2 + spec_popcount(x / 2)
    }
}

/// A number below the `w`-th power of two has at most `w` set bits.
proof fn lemma_popcount_width(x: nat, w: nat)
    requires
        x < vstd::arithmetic::power2::pow2(w),
    ensures
        spec_popcount(x) <= w,
    decreases w,
{
    if w == 0 {
        vstd::arithmetic::power2::lemma2_to64();
    } else {
        vstd::arithmetic::power2::lemma_pow2_unfold(w);
        vstd::arithmetic::div_mod::lemma_multiply_divide_lt(
            x as int,
            vstd::arithmetic::power2::pow2((w - 1) as nat) as int,
            2,
        );
        lemma_popcount_width(x / 2, (w - 1) as nat);
    }
}

/// Counts the set bits of a channel layout.
pub fn popcount_u64(x: u64) -> (r: u32)
    ensures
        r == spec_popcount(x as nat),
{
    proof {
        vstd::arithmetic::power2::lemma2_to64_rest();
        lemma_popcount_width(x as nat, 64);
    }
    let mut v = x;
    let mut count: u32 = 0;
    while v != 0
        invariant
            count + spec_popcount(v as nat) == spec_popcount(x as nat),
            spec_popcount(x as nat) <= 64,
        decreases v,
    {
        count = count + (v % 2) as u32;
        v = v / 2;
    }
    count
}

/// The argument combinations the host accepts as an audio format: sixteen
/// to thirty-two integer bits or thirty-two float bits, and a nonempty
/// channel layout.
pub open spec fn valid_audio_format_args(st: VSSampleType, bits: int, layout: u64) -> bool {
    &&& (st == VSSampleType::Integer ==> 16 <= bits <= 32)
    &&& (st == VSSampleType::Float ==> bits == 32)
    &&& layout != 0
}

/// The audio format record the host fills for the given description; an
/// invalid description gives the zeroed record.
pub open spec fn spec_query_audio_format(st: VSSampleType, bits: int, layout: u64) -> VSAudioFormat {
    if valid_audio_format_args(st, bits, layout) {
        VSAudioFormat {
            sample_type: st,
            bits_per_sample: bits as i32,
            bytes_per_sample: spec_bytes_for_bits(bits) as i32,
            num_channels: spec_popcount(layout as nat) as i32,
            channel_layout: layout,
        }
    } else {
        VSAudioFormat {
            sample_type: VSSampleType::Integer,
            bits_per_sample: 0,
            bytes_per_sample: 0,
            num_channels: 0,
            channel_layout: 0,
        }
    }
}

/// The packed format id of a format description, or zero for an invalid
/// description.
pub open spec fn spec_id_of_format_args(
    cf: VSColorFamily,
    st: VSSampleType,
    bits: int,
    ssw: int,
    ssh: int,
) -> int {
    if valid_format_args(cf, st, bits, ssw, ssh) {
        spec_video_id(cf, st, bits, ssw, ssh)
    } else {
        0
    }
}

/// The packed format id a preset names; zero for the empty preset.
pub open spec fn spec_preset_id(p: crate::vs::VSPresetVideoFormat) -> int {
    if p is NoFormat {
        0
    } else {
        let (cf, st, bits, ssw, ssh) = p.spec_format_args();
        spec_video_id(cf, st, bits, ssw, ssh)
    }
}

/// The format record a packed format id decodes to.
pub open spec fn spec_format_from_id(id: int) -> VSVideoFormat {
    let cf_code = id / 0x10000000;
    let st_code = (id / 0x1000000) % 0x10;
    let bits = (id / 0x10000) % 0x100;
    let ssw = (id / 0x100) % 0x100;
    let ssh = id % 0x100;
    let cf = if cf_code == 1 {
        VSColorFamily::Gray
    } else if cf_code == 2 {
        VSColorFamily::RGB
    } else if cf_code == 3 {
        VSColorFamily::YUV
    } else {
        VSColorFamily::Undefined
    };
    if st_code > 1 {
        zero_video_format()
    } else {
        let st = if st_code == 1 {
            VSSampleType::Float
        } else {
            VSSampleType::Integer
        };
        spec_query_video_format(cf, st, bits, ssw, ssh)
    }
}

/// The second core is the first after references were only handed out:
/// the object table keeps its length and payloads, no reference count
/// drops, and the settings and the log stay.
pub open spec fn core_only_gained_refs(c0: CoreModel, c1: CoreModel) -> bool {
    &&& c1.objects.len() == c0.objects.len()
    &&& forall|j: int|
        0 <= j < c0.objects.len() ==> (#[trigger] c1.objects[j]).data == c0.objects[j].data
    &&& forall|j: int| #![trigger c1.refcount(j)] c1.refcount(j) >= c0.refcount(j)
    &&& c1.max_cache_size == c0.max_cache_size
    &&& c1.num_threads == c0.num_threads
    &&& c1.log == c0.log
}

/// A core has gained no references over itself.
pub proof fn lemma_gained_refs_refl(c: CoreModel)
    ensures
        core_only_gained_refs(c, c),
{
}

/// Handing out one more reference keeps the relation to the starting core.
pub proof fn lemma_gained_refs_step(c0: CoreModel, c1: CoreModel, id: int)
    requires
        core_only_gained_refs(c0, c1),
    ensures
        core_only_gained_refs(c0, c1.spec_clone_obj(id)),
{
    lemma_clone_obj_preserves(c1, id);
    let c2 = c1.spec_clone_obj(id);
    assert forall|j: int|
        0 <= j < c0.objects.len() implies (#[trigger] c2.objects[j]).data
        == c0.objects[j].data by {
        assert(c2.objects[j].data == c1.objects[j].data);
    }
    assert forall|j: int| #![trigger c2.refcount(j)] c2.refcount(j) >= c0.refcount(j) by {
        assert(c2.refcount(j) >= c1.refcount(j));
    }
}

/// Gaining references composes.
pub proof fn lemma_gained_refs_trans(c0: CoreModel, c1: CoreModel, c2: CoreModel)
    requires
        core_only_gained_refs(c0, c1),
        core_only_gained_refs(c1, c2),
    ensures
        core_only_gained_refs(c0, c2),
{
    assert forall|j: int|
        0 <= j < c0.objects.len() implies (#[trigger] c2.objects[j]).data
        == c0.objects[j].data by {
        assert(c1.objects[j].data == c0.objects[j].data);
        assert(c2.objects[j].data == c1.objects[j].data);
    }
    assert forall|j: int| #![trigger c2.refcount(j)] c2.refcount(j) >= c0.refcount(j) by {
        assert(c2.refcount(j) >= c1.refcount(j));
        assert(c1.refcount(j) >= c0.refcount(j));
    }
}

/// Handing out one more reference changes no object's payload or
/// liveness, and no other part of the core.
pub proof fn lemma_clone_obj_preserves(c: CoreModel, id: int)
    ensures
        c.spec_clone_obj(id).objects.len() == c.objects.len(),
        forall|j: int|
            0 <= j < c.objects.len() ==> (#[trigger] c.spec_clone_obj(id).objects[j]).data
                == c.objects[j].data,
        forall|j: int| #![trigger c.spec_clone_obj(id).live(j)] c.spec_clone_obj(id).live(j)
            <==> c.live(j),
        forall|j: int| #![trigger c.spec_clone_obj(id).refcount(j)] c.spec_clone_obj(id).refcount(
            j,
        ) >= c.refcount(j),
        c.spec_clone_obj(id).max_cache_size == c.max_cache_size,
        c.spec_clone_obj(id).num_threads == c.num_threads,
        c.spec_clone_obj(id).log == c.log,
{
}

/// Cloning a reference and then giving it back leaves the core exactly as
/// it was — no leak.
pub proof fn lemma_clone_then_drop(c: CoreModel, id: int)
    requires
        c.refcount(id) < u64::MAX,
    ensures
        c.spec_clone_obj(id).spec_free_obj(id) == c,
{
    if c.live(id) {
        let c1 = c.spec_clone_obj(id);
        let c2 = c1.spec_free_obj(id);
        assert(c2.objects =~= c.objects);
    }
}

/// A reference cloned and then dropped twice ends exactly where a single
/// drop of the original reference ends: the clone-drop pair leaves the
/// reference count unchanged from before the clone — no leak and no double
/// free.
pub proof fn lemma_clone_then_two_drops(c: CoreModel, id: int)
    requires
        c.refcount(id) < u64::MAX,
    ensures
        c.spec_clone_obj(id).spec_free_obj(id).spec_free_obj(id) == c.spec_free_obj(id),
        c.spec_clone_obj(id).spec_free_obj(id).refcount(id) == c.refcount(id),
{
    lemma_clone_then_drop(c, id);
}

/// One in-process instance of the host.
pub struct Core {
    objects: Vec<ObjectSlot>,
    max_cache_size: i64,
    thread_count: i32,
    log: Vec<(VSMessageType, String)>,
}

impl View for Core {
    type V = CoreModel;

    closed spec fn view(&self) -> CoreModel {
        CoreModel {
            objects: self.objects@.map_values(|s: ObjectSlot| s@),
            max_cache_size: self.max_cache_size,
            num_threads: self.thread_count,
            log: self.log@.map_values(|e: (VSMessageType, String)| (e.0, e.1@)),
        }
    }
}

impl Core {
    pub(crate) fn new_with(max_cache_size: i64, thread_count: i32) -> (r: Core)
        ensures
            r@.objects.len() == 0,
            r@.max_cache_size == max_cache_size,
            r@.num_threads == thread_count,
            r@.log.len() == 0,
    {
        let r = Core { objects: Vec::new(), max_cache_size, thread_count, log: Vec::new() };
        proof {
            assert(r@.objects =~= Seq::<ObjectModel>::empty());
            assert(r@.log =~= Seq::<(VSMessageType, Seq<char>)>::empty());
        }
        r
    }

    /// The frame buffer cache is allowed to grow up to `size` bytes.
    pub fn set_max_cache_size(&mut self, size: i64)
        ensures
            final(self)@ == (CoreModel { max_cache_size: size, ..old(self)@ }),
    {
        self.max_cache_size = size;
    }

    /// Sets the number of worker threads.
    pub fn set_thread_count(&mut self, count: i32)
        ensures
            final(self)@ == (CoreModel { num_threads: count, ..old(self)@ }),
    {
        self.thread_count = count;
    }

    /// A snapshot of the core's version and settings.
    pub fn get_info(&self) -> (r: VSCoreInfo)
        ensures
            r.num_threads == self@.num_threads,
            r.max_framebuffer_size == self@.max_cache_size,
            r.api == VAPOURSYNTH_API_VERSION,
    {
        VSCoreInfo {
            version_string: String::from_str("in-process host core"),
            core: 1,
            api: VAPOURSYNTH_API_VERSION,
            num_threads: self.thread_count,
            max_framebuffer_size: self.max_cache_size,
            used_framebuffer_size: 0,
        }
    }

    /// Appends a message to the core's log.
    pub fn log(&mut self, level: VSMessageType, msg: &str)
        ensures
            final(self)@ == (CoreModel { log: old(self)@.log.push((level, msg@)), ..old(self)@ }),
    {
        let ghost pre = self.log@;
        self.log.push((level, msg.to_owned()));
        proof {
            assert(self@.log =~= old(self)@.log.push((level, msg@)));
        }
    }

    /// Hands out one more reference to object `id`.
    pub(crate) fn clone_obj(&mut self, id: u64)
        ensures
            final(self)@ == old(self)@.spec_clone_obj(id as int),
    {
        if id < self.objects.len() as u64 {
            let i = id as usize;
            let slot = &mut self.objects[i];
            if slot.refcount > 0 && slot.refcount < u64::MAX {
                slot.refcount = slot.refcount + 1;
            }
        }
        proof {
            assert(self@.objects =~= old(self)@.spec_clone_obj(id as int).objects);
        }
    }

    /// Takes back one reference to object `id`.
    fn free_obj(&mut self, id: u64)
        ensures
            final(self)@ == old(self)@.spec_free_obj(id as int),
    {
        if id < self.objects.len() as u64 {
            let i = id as usize;
            let slot = &mut self.objects[i];
            if slot.refcount > 0 {
                slot.refcount = slot.refcount - 1;
            }
        }
        proof {
            assert(self@.objects =~= old(self)@.spec_free_obj(id as int).objects);
        }
    }

    /// A new video frame reference to the object with id `id`.
    pub(crate) fn clone_frame_by_id(&mut self, id: u64) -> (r: VideoFrame)
        ensures
            r@ == id,
            final(self)@ == old(self)@.spec_clone_obj(id as int),
    {
        self.clone_obj(id);
        VideoFrame::from_id(id)
    }

    /// A new reference to the same video node.
    pub fn clone_node(&mut self, n: &VideoNode) -> (r: VideoNode)
        ensures
            r@ == n@,
            final(self)@ == old(self)@.spec_clone_obj(n@),
    {
        let id = n.id();
        self.clone_obj(id);
        VideoNode::from_id(id)
    }

    /// Gives a video node reference back to the core.
    pub fn free_node(&mut self, n: VideoNode)
        ensures
            final(self)@ == old(self)@.spec_free_obj(n@),
    {
        self.free_obj(n.id());
    }

    /// A new reference to the same audio node.
    pub fn clone_audio_node(&mut self, n: &AudioNode) -> (r: AudioNode)
        ensures
            r@ == n@,
            final(self)@ == old(self)@.spec_clone_obj(n@),
    {
        let id = n.id();
        self.clone_obj(id);
        AudioNode::from_id(id)
    }

    /// Gives an audio node reference back to the core.
    pub fn free_audio_node(&mut self, n: AudioNode)
        ensures
            final(self)@ == old(self)@.spec_free_obj(n@),
    {
        self.free_obj(n.id());
    }

    /// A new reference to the same video frame.
    pub fn clone_frame(&mut self, f: &VideoFrame) -> (r: VideoFrame)
        ensures
            r@ == f@,
            final(self)@ == old(self)@.spec_clone_obj(f@),
    {
        let id = f.id();
        self.clone_obj(id);
        VideoFrame::from_id(id)
    }

    /// Gives a video frame reference back to the core.
    pub fn free_frame(&mut self, f: VideoFrame)
        ensures
            final(self)@ == old(self)@.spec_free_obj(f@),
    {
        self.free_obj(f.id());
    }

    /// A new reference to the same audio frame.
    pub fn clone_audio_frame(&mut self, f: &AudioFrame) -> (r: AudioFrame)
        ensures
            r@ == f@,
            final(self)@ == old(self)@.spec_clone_obj(f@),
    {
        let id = f.id();
        self.clone_obj(id);
        AudioFrame::from_id(id)
    }

    /// Gives an audio frame reference back to the core.
    pub fn free_audio_frame(&mut self, f: AudioFrame)
        ensures
            final(self)@ == old(self)@.spec_free_obj(f@),
    {
        self.free_obj(f.id());
    }

    /// A new reference to the same function.
    pub fn clone_function(&mut self, f: &Function) -> (r: Function)
        ensures
            r@ == f@,
            final(self)@ == old(self)@.spec_clone_obj(f@),
    {
        let id = f.id();
        self.clone_obj(id);
        Function::from_id(id)
    }

    /// Gives a function reference back to the core.
    pub fn free_function(&mut self, f: Function)
        ensures
            final(self)@ == old(self)@.spec_free_obj(f@),
    {
        self.free_obj(f.id());
    }

    /// The reference count the core holds for object `id`: the mock-host
    /// observer that the handle model is audited against.
    pub fn ref_count(&self, id: u64) -> (r: u64)
        ensures
            r == self@.refcount(id as int),
    {
        if id < self.objects.len() as u64 {
            self.objects[id as usize].refcount
        } else {
            0
        }
    }

    /// Number of objects this core has ever created.
    pub fn num_objects(&self) -> (r: usize)
        ensures
            r == self@.objects.len(),
    {
        self.objects.len()
    }

    /// Registers a fresh object with one reference and returns its id.
    fn push_obj(&mut self, data: ObjectData) -> (r: u64)
        requires
            old(self)@.objects.len() < u64::MAX,
        ensures
            r == old(self)@.objects.len(),
            final(self)@ == old(self)@.spec_new_obj(data@),
    {
        let id = self.objects.len() as u64;
        self.objects.push(ObjectSlot { refcount: 1, data });
        proof {
            assert(self@.objects =~= old(self)@.spec_new_obj(data@).objects);
        }
        id
    }

    /// Fills a format record for the given description with proper
    /// checking: an invalid description gives the zeroed record.
    pub fn query_video_format(
        &self,
        color_family: VSColorFamily,
        sample_type: VSSampleType,
        bits_per_sample: i32,
        subsampling_w: i32,
        subsampling_h: i32,
    ) -> (r: VSVideoFormat)
        ensures
            r == spec_query_video_format(
                color_family,
                sample_type,
                bits_per_sample as int,
                subsampling_w as int,
                subsampling_h as int,
            ),
    {
        let bits_ok = match sample_type {
            VSSampleType::Integer => 8 <= bits_per_sample && bits_per_sample <= 32,
            VSSampleType::Float => bits_per_sample == 16 || bits_per_sample == 32,
        };
        let ss_ok = 0 <= subsampling_w && subsampling_w <= 4 && 0 <= subsampling_h
            && subsampling_h <= 4 && (color_family == VSColorFamily::YUV || (subsampling_w == 0
            && subsampling_h == 0));
        if !(color_family == VSColorFamily::Undefined) && bits_ok && ss_ok {
            VSVideoFormat {
                color_family,
                sample_type,
                bits_per_sample,
                bytes_per_sample: if bits_per_sample <= 8 {
                    1
                } else if bits_per_sample <= 16 {
                    2
                } else {
                    4
                },
                sub_sampling_w: subsampling_w,
                sub_sampling_h: subsampling_h,
                num_planes: color_family.num_planes(),
            }
        } else {
            VSVideoFormat {
                color_family: VSColorFamily::Undefined,
                sample_type: VSSampleType::Integer,
                bits_per_sample: 0,
                bytes_per_sample: 0,
                sub_sampling_w: 0,
                sub_sampling_h: 0,
                num_planes: 0,
            }
        }
    }

    /// The packed format id for the given description; an invalid
    /// description gives zero.
    pub fn query_video_format_id(
        &self,
        color_family: VSColorFamily,
        sample_type: VSSampleType,
        bits_per_sample: i32,
        subsampling_w: i32,
        subsampling_h: i32,
    ) -> (r: u32)
        ensures
            valid_format_args(
                color_family,
                sample_type,
                bits_per_sample as int,
                subsampling_w as int,
                subsampling_h as int,
            ) ==> r == spec_video_id(
                color_family,
                sample_type,
                bits_per_sample as int,
                subsampling_w as int,
                subsampling_h as int,
            ),
            !valid_format_args(
                color_family,
                sample_type,
                bits_per_sample as int,
                subsampling_w as int,
                subsampling_h as int,
            ) ==> r == 0,
    {
        let bits_ok = match sample_type {
            VSSampleType::Integer => 8 <= bits_per_sample && bits_per_sample <= 32,
            VSSampleType::Float => bits_per_sample == 16 || bits_per_sample == 32,
        };
        let ss_ok = 0 <= subsampling_w && subsampling_w <= 4 && 0 <= subsampling_h
            && subsampling_h <= 4 && (color_family == VSColorFamily::YUV || (subsampling_w == 0
            && subsampling_h == 0));
        if !(color_family == VSColorFamily::Undefined) && bits_ok && ss_ok {
            vs_make_video_id(
                color_family,
                sample_type,
                bits_per_sample,
                subsampling_w,
                subsampling_h,
            ) as u32
        } else {
            0
        }
    }

    /// The format record a packed format id decodes to; an id that encodes
    /// an invalid description gives the zeroed record.
    pub fn get_video_format_by_id(&self, id: u32) -> (r: VSVideoFormat)
        ensures
            r == spec_format_from_id(id as int),
    {
        let cf_code = id / 0x10000000;
        let st_code = (id / 0x1000000) % 0x10;
        let bits = ((id / 0x10000) % 0x100) as i32;
        let ssw = ((id / 0x100) % 0x100) as i32;
        let ssh = (id % 0x100) as i32;
        let cf = if cf_code == 1 {
            VSColorFamily::Gray
        } else if cf_code == 2 {
            VSColorFamily::RGB
        } else if cf_code == 3 {
            VSColorFamily::YUV
        } else {
            VSColorFamily::Undefined
        };
        if st_code > 1 {
            VSVideoFormat {
                color_family: VSColorFamily::Undefined,
                sample_type: VSSampleType::Integer,
                bits_per_sample: 0,
                bytes_per_sample: 0,
                sub_sampling_w: 0,
                sub_sampling_h: 0,
                num_planes: 0,
            }
        } else {
            let st = if st_code == 1 {
                VSSampleType::Float
            } else {
                VSSampleType::Integer
            };
            self.query_video_format(cf, st, bits, ssw, ssh)
        }
    }

    /// Whether a format record describes the same format as a preset id.
    pub fn is_same_video_preset_format(
        &self,
        preset_format: crate::vs::VSPresetVideoFormat,
        v: &VSVideoFormat,
    ) -> (r: bool)
        ensures
            r == (spec_id_of_format_args(
                v.color_family,
                v.sample_type,
                v.bits_per_sample as int,
                v.sub_sampling_w as int,
                v.sub_sampling_h as int,
            ) == spec_preset_id(preset_format)),
    {
        let q = self.query_video_format_id(
            v.color_family,
            v.sample_type,
            v.bits_per_sample,
            v.sub_sampling_w,
            v.sub_sampling_h,
        );
        let p = preset_format.id();
        proof {
            let (cf, st, bits, ssw, ssh) = preset_format.spec_format_args();
            assert(spec_video_id(cf, st, bits, ssw, ssh) >= 0);
        }
        q == p as u32
    }

    /// Creates a new, zero-filled video frame of the given constant format
    /// and dimensions, and hands out its first reference.
    pub fn new_video_frame(&mut self, format: &VSVideoFormat, width: i32, height: i32) -> (r:
        VideoFrame)
        requires
            valid_video_format(*format),
            0 < width,
            0 < height,
            (width as int) % sub_factor(format.sub_sampling_w as int) == 0,
            (height as int) % sub_factor(format.sub_sampling_h as int) == 0,
            (width as int) * (format.bytes_per_sample as int) * (height as int) <= usize::MAX,
            old(self)@.objects.len() < u64::MAX,
        ensures
            r@ == old(self)@.objects.len(),
            final(self)@ == old(self)@.spec_new_obj(
                ObjectDataModel::VideoFrame {
                    frame_format: *format,
                    width,
                    height,
                    planes: blank_planes(*format, width as int, height as int),
                },
            ),
    {
        let planes = Self::make_blank_planes(format, width, height);
        let id = self.push_obj(
            ObjectData::VideoFrame { frame_format: *format, width, height, planes },
        );
        VideoFrame::from_id(id)
    }

    /// Builds the zero-filled planes of a new frame.
    fn make_blank_planes(format: &VSVideoFormat, width: i32, height: i32) -> (r: Vec<PlaneBuf>)
        requires
            valid_video_format(*format),
            0 < width,
            0 < height,
            (width as int) * (format.bytes_per_sample as int) * (height as int) <= usize::MAX,
        ensures
            planes_view(r@) == blank_planes(*format, width as int, height as int),
    {
        let mut planes: Vec<PlaneBuf> = Vec::new();
        let np = format.num_planes;
        let mut p: i32 = 0;
        while p < np
            invariant
                0 <= p <= np,
                np == format.num_planes,
                valid_video_format(*format),
                0 < width,
                0 < height,
                (width as int) * (format.bytes_per_sample as int) * (height as int) <= usize::MAX,
                planes_view(planes@) =~= blank_planes(
                    *format,
                    width as int,
                    height as int,
                ).take(p as int),
            decreases np - p,
        {
            let pw = if p == 0 {
                width
            } else {
                let subw = Self::sub_factor_exec(format.sub_sampling_w);
                proof {
                    vstd::arithmetic::div_mod::lemma_div_nonincreasing(width as int, subw as int);
                    vstd::arithmetic::div_mod::lemma_div_pos_is_pos(width as int, subw as int);
                }
                width / subw
            };
            let ph = if p == 0 {
                height
            } else {
                let subh = Self::sub_factor_exec(format.sub_sampling_h);
                proof {
                    vstd::arithmetic::div_mod::lemma_div_nonincreasing(height as int, subh as int);
                    vstd::arithmetic::div_mod::lemma_div_pos_is_pos(height as int, subh as int);
                }
                height / subh
            };
            proof {
                let wi = width as int;
                let hi = height as int;
                let bi = format.bytes_per_sample as int;
                let pwi = pw as int;
                let phi = ph as int;
                assert(pwi * bi <= wi * bi * hi && pwi * bi * phi <= wi * bi * hi && 0 <= pwi * bi
                    && 0 <= pwi * bi * phi) by (nonlinear_arith)
                    requires
                        0 <= pwi <= wi,
                        0 <= phi <= hi,
                        1 <= bi,
                        1 <= hi,
                ;
            }
            let stride = (pw as usize) * (format.bytes_per_sample as usize);
            let size = stride * (ph as usize);
            let data = Self::zero_bytes(size);
            let ghost pre = planes@;
            planes.push(PlaneBuf { width: pw, height: ph, stride, data });
            proof {
                let f = *format;
                let wi = width as int;
                let hi = height as int;
                let pi = p as int;
                let bp = blank_planes(f, wi, hi);
                assert(planes_view(pre).len() == pre.len());
                assert(planes_view(pre).len() == bp.take(pi).len());
                assert(bp.take(pi).len() == pi);
                assert(planes@.len() == pi + 1);
                assert(pw == spec_plane_width(f, wi, pi));
                assert(ph == spec_plane_height(f, hi, pi));
                assert(stride as int == spec_stride_of(f, wi, pi));
                assert(size as int == spec_stride_of(f, wi, pi) * spec_plane_height(f, hi, pi));
                assert(planes@[pi]@.data =~= bp[pi].data);
                assert(planes@[pi]@ == bp[pi]);
                assert(planes_view(planes@) =~= bp.take(pi + 1));
            }
            p = p + 1;
        }
        proof {
            assert(blank_planes(*format, width as int, height as int).take(np as int)
                =~= blank_planes(*format, width as int, height as int));
        }
        planes
    }

    /// A buffer of `n` zero bytes.
    fn zero_bytes(n: usize) -> (r: Vec<u8>)
        ensures
            r@ == Seq::new(n as nat, |i: int| 0u8),
    {
        let mut r: Vec<u8> = Vec::new();
        let mut i: usize = 0;
        while i < n
            invariant
                i <= n,
                r@ =~= Seq::new(i as nat, |j: int| 0u8),
            decreases n - i,
        {
            r.push(0);
            proof {
                assert(r@ =~= Seq::new((i + 1) as nat, |j: int| 0u8));
            }
            i = i + 1;
        }
        proof {
            assert(r@ =~= Seq::new(n as nat, |j: int| 0u8));
        }
        r
    }

    /// The subsampling divisor for a log2 factor.
    pub fn sub_factor_exec(ss: i32) -> (r: i32)
        ensures
            r == sub_factor(ss as int),
    {
        if ss <= 0 {
            1
        } else if ss == 1 {
            2
        } else if ss == 2 {
            4
        } else if ss == 3 {
            8
        } else {
            16
        }
    }

    /// Creates a source video node serving the given preset frames, in
    /// order, and hands out its first reference. The node takes ownership
    /// of the frame references.
    pub fn create_source_video_node(&mut self, info: &VSVideoInfo, frames: Vec<VideoFrame>) -> (r:
        VideoNode)
        requires
            old(self)@.objects.len() < u64::MAX,
        ensures
            r@ == old(self)@.objects.len(),
            final(self)@ == old(self)@.spec_new_obj(
                ObjectDataModel::VideoNode {
                    node_info: *info,
                    deps: Seq::empty(),
                    source_frames: Some(Seq::new(frames@.len(), |i: int| frames@[i]@ as u64)),
                },
            ),
    {
        let ghost orig = frames@;
        let mut frames = frames;
        let mut ids: Vec<u64> = Vec::new();
        while frames.len() > 0
            invariant
                ids@.len() + frames@.len() == orig.len(),
                frames@ =~= orig.subrange(ids@.len() as int, orig.len() as int),
                forall|i: int| 0 <= i < ids@.len() ==> ids@[i] == orig[i]@ as u64,
            decreases frames@.len(),
        {
            let f = frames.remove(0);
            ids.push(f.id());
        }
        proof {
            assert(ids@ =~= Seq::new(orig.len(), |i: int| orig[i]@ as u64));
        }
        let no_deps: Vec<VSFilterDependency> = Vec::new();
        proof {
            assert(no_deps@ =~= Seq::<VSFilterDependency>::empty());
        }
        let id = self.push_obj(
            ObjectData::VideoNode {
                node_info: *info,
                deps: no_deps,
                source_frames: Some(ids),
            },
        );
        VideoNode::from_id(id)
    }

    /// Registers a filter node with the given clip information and
    /// declared dependencies, and hands out its first reference.
    pub(crate) fn register_video_filter_node(
        &mut self,
        info: &VSVideoInfo,
        deps: Vec<VSFilterDependency>,
    ) -> (r: VideoNode)
        requires
            old(self)@.objects.len() < u64::MAX,
        ensures
            r@ == old(self)@.objects.len(),
            final(self)@ == old(self)@.spec_new_obj(
                ObjectDataModel::VideoNode {
                    node_info: *info,
                    deps: deps@,
                    source_frames: None,
                },
            ),
    {
        let id = self.push_obj(
            ObjectData::VideoNode { node_info: *info, deps, source_frames: None },
        );
        VideoNode::from_id(id)
    }

    /// The clip information of a video node; nothing for a handle that
    /// does not name a live video node.
    pub fn video_node_info(&self, n: &VideoNode) -> (r: Option<VSVideoInfo>)
        ensures
            self@.is_video_node(n@) ==> r == Some(self@.video_info_of(n@)),
            !self@.is_video_node(n@) ==> r is None,
    {
        let id = n.id();
        self.video_node_info_by_id(id)
    }

    /// The clip information of the video node with object id `id`.
    pub fn video_node_info_by_id(&self, id: u64) -> (r: Option<VSVideoInfo>)
        ensures
            self@.is_video_node(id as int) ==> r == Some(self@.video_info_of(id as int)),
            !self@.is_video_node(id as int) ==> r is None,
    {
        if id < self.objects.len() as u64 {
            let slot = &self.objects[id as usize];
            if slot.refcount > 0 {
                match &slot.data {
                    ObjectData::VideoNode { node_info, .. } => Some(*node_info),
                    _ => None,
                }
            } else {
                None
            }
        } else {
            None
        }
    }

    /// The declared dependencies of the video node with object id `id`.
    pub fn video_node_deps_by_id(&self, id: u64) -> (r: Option<Vec<VSFilterDependency>>)
        ensures
            self@.is_video_node(id as int) ==> (r matches Some(d) && d@ == self@.deps_of(
                id as int,
            )),
            !self@.is_video_node(id as int) ==> r is None,
    {
        if id < self.objects.len() as u64 {
            let slot = &self.objects[id as usize];
            if slot.refcount > 0 {
                match &slot.data {
                    ObjectData::VideoNode { deps, .. } => Some(
                        vstd::slice::slice_to_vec(deps.as_slice()),
                    ),
                    _ => None,
                }
            } else {
                None
            }
        } else {
            None
        }
    }

    /// The preset frame ids of the video node with object id `id`, when it
    /// is a source node.
    pub(crate) fn source_frames_by_id(&self, id: u64) -> (r: Option<Vec<u64>>)
        ensures
            match r {
                Some(f) => self@.is_video_node(id as int) && self@.source_frames_of(id as int)
                    == Some(f@),
                None => !self@.is_video_node(id as int) || self@.source_frames_of(id as int)
                    is None,
            },
    {
        if id < self.objects.len() as u64 {
            let slot = &self.objects[id as usize];
            if slot.refcount > 0 {
                match &slot.data {
                    ObjectData::VideoNode { source_frames: Some(f), .. } => Some(
                        vstd::slice::slice_to_vec(f.as_slice()),
                    ),
                    _ => None,
                }
            } else {
                None
            }
        } else {
            None
        }
    }

    /// A new frame holding a copy of the given frame's format, dimensions
    /// and plane bytes; nothing for a handle that does not name a live
    /// video frame.
    pub fn copy_frame(&mut self, f: &VideoFrame) -> (r: Option<VideoFrame>)
        requires
            old(self)@.objects.len() < u64::MAX,
        ensures
            old(self)@.is_video_frame(f@) ==> (r matches Some(nf) && nf@ == old(
                self,
            )@.objects.len() && final(self)@ == old(self)@.spec_new_obj(
                old(self)@.objects[f@].data,
            )),
            !old(self)@.is_video_frame(f@) ==> r is None && final(self)@ == old(self)@,
    {
        let id = f.id();
        if id < self.objects.len() as u64 {
            let copied: Option<ObjectData> = {
                let slot = &self.objects[id as usize];
                if slot.refcount > 0 {
                    match &slot.data {
                        ObjectData::VideoFrame { frame_format, width, height, planes } => {
                            Some(
                                ObjectData::VideoFrame {
                                    frame_format: *frame_format,
                                    width: *width,
                                    height: *height,
                                    planes: Self::copy_planes(planes),
                                },
                            )
                        },
                        _ => None,
                    }
                } else {
                    None
                }
            };
            match copied {
                Some(data) => {
                    proof {
                        assert(data@ == old(self)@.objects[id as int].data);
                    }
                    let nid = self.push_obj(data);
                    Some(VideoFrame::from_id(nid))
                },
                None => None,
            }
        } else {
            None
        }
    }

    /// A byte-for-byte copy of a plane list.
    fn copy_planes(src: &Vec<PlaneBuf>) -> (r: Vec<PlaneBuf>)
        ensures
            planes_view(r@) == planes_view(src@),
    {
        let mut r: Vec<PlaneBuf> = Vec::new();
        let mut i: usize = 0;
        while i < src.len()
            invariant
                i <= src@.len(),
                planes_view(r@) =~= planes_view(src@).take(i as int),
            decreases src@.len() - i,
        {
            let ghost pre = r@;
            let p = &src[i];
            r.push(
                PlaneBuf {
                    width: p.width,
                    height: p.height,
                    stride: p.stride,
                    data: vstd::slice::slice_to_vec(p.data.as_slice()),
                },
            );
            proof {
                assert(planes_view(pre).len() == planes_view(src@).take(i as int).len());
                assert(planes_view(src@).take(i as int).len() == i as int);
                assert(r@.len() == i + 1);
                assert(r@[i as int]@ == planes_view(src@)[i as int]);
                assert(planes_view(r@) =~= planes_view(src@).take(i as int + 1));
            }
            i = i + 1;
        }
        proof {
            assert(planes_view(src@).take(src@.len() as int) =~= planes_view(src@));
        }
        r
    }

    /// The format of a video frame; nothing for a handle that does not
    /// name a live video frame.
    pub fn get_video_frame_format(&self, f: &VideoFrame) -> (r: Option<VSVideoFormat>)
        ensures
            self@.is_video_frame(f@) ==> r == Some(
                self@.objects[f@].data->VideoFrame_frame_format,
            ),
            !self@.is_video_frame(f@) ==> r is None,
    {
        let id = f.id();
        if id < self.objects.len() as u64 {
            let slot = &self.objects[id as usize];
            if slot.refcount > 0 {
                match &slot.data {
                    ObjectData::VideoFrame { frame_format, .. } => Some(*frame_format),
                    _ => None,
                }
            } else {
                None
            }
        } else {
            None
        }
    }

    /// Width in pixels of one plane of a video frame; zero for an invalid
    /// handle or plane number.
    pub fn frame_width(&self, f: &VideoFrame, plane: i32) -> (r: i32)
        ensures
            ({
                let planes = self@.frame_planes_of(f@);
                if self@.is_video_frame(f@) && 0 <= plane < planes.len() {
                    r == planes[plane as int].width
                } else {
                    r == 0
                }
            }),
    {
        let id = f.id();
        if id < self.objects.len() as u64 {
            let slot = &self.objects[id as usize];
            if slot.refcount > 0 {
                match &slot.data {
                    ObjectData::VideoFrame { planes, .. } => {
                        if 0 <= plane && (plane as usize) < planes.len() {
                            planes[plane as usize].width
                        } else {
                            0
                        }
                    },
                    _ => 0,
                }
            } else {
                0
            }
        } else {
            0
        }
    }

    /// Height in pixels of one plane of a video frame; zero for an invalid
    /// handle or plane number.
    pub fn frame_height(&self, f: &VideoFrame, plane: i32) -> (r: i32)
        ensures
            ({
                let planes = self@.frame_planes_of(f@);
                if self@.is_video_frame(f@) && 0 <= plane < planes.len() {
                    r == planes[plane as int].height
                } else {
                    r == 0
                }
            }),
    {
        let id = f.id();
        if id < self.objects.len() as u64 {
            let slot = &self.objects[id as usize];
            if slot.refcount > 0 {
                match &slot.data {
                    ObjectData::VideoFrame { planes, .. } => {
                        if 0 <= plane && (plane as usize) < planes.len() {
                            planes[plane as usize].height
                        } else {
                            0
                        }
                    },
                    _ => 0,
                }
            } else {
                0
            }
        } else {
            0
        }
    }

    /// Row stride in bytes of one plane of a video frame; zero for an
    /// invalid handle or plane number.
    pub fn stride(&self, f: &VideoFrame, plane: i32) -> (r: usize)
        ensures
            ({
                let planes = self@.frame_planes_of(f@);
                if self@.is_video_frame(f@) && 0 <= plane < planes.len() {
                    r == planes[plane as int].stride
                } else {
                    r == 0
                }
            }),
    {
        let id = f.id();
        if id < self.objects.len() as u64 {
            let slot = &self.objects[id as usize];
            if slot.refcount > 0 {
                match &slot.data {
                    ObjectData::VideoFrame { planes, .. } => {
                        if 0 <= plane && (plane as usize) < planes.len() {
                            planes[plane as usize].stride
                        } else {
                            0
                        }
                    },
                    _ => 0,
                }
            } else {
                0
            }
        } else {
            0
        }
    }

    /// Read access to the bytes of one plane of a video frame.
    pub fn plane_data(&self, f: &VideoFrame, plane: i32) -> (r: Option<&Vec<u8>>)
        ensures
            ({
                let planes = self@.frame_planes_of(f@);
                if self@.is_video_frame(f@) && 0 <= plane < planes.len() {
                    r matches Some(d) && d@ == planes[plane as int].data
                } else {
                    r is None
                }
            }),
    {
        let id = f.id();
        if id < self.objects.len() as u64 {
            let slot = &self.objects[id as usize];
            if slot.refcount > 0 {
                match &slot.data {
                    ObjectData::VideoFrame { planes, .. } => {
                        if 0 <= plane && (plane as usize) < planes.len() {
                            Some(&planes[plane as usize].data)
                        } else {
                            None
                        }
                    },
                    _ => None,
                }
            } else {
                None
            }
        } else {
            None
        }
    }

    /// Replaces the bytes of one plane of a video frame; the new bytes
    /// must have the plane's exact size. Answers whether the write took
    /// place.
    pub fn put_plane_data(&mut self, f: &VideoFrame, plane: i32, data: Vec<u8>) -> (ok: bool)
        ensures
            ({
                let planes = old(self)@.frame_planes_of(f@);
                if old(self)@.is_video_frame(f@) && 0 <= plane < planes.len() && data@.len()
                    == planes[plane as int].data.len() {
                    ok && final(self)@ == old(self)@.spec_put_plane(f@, plane as int, data@)
                } else {
                    !ok && final(self)@ == old(self)@
                }
            }),
    {
        let id = f.id();
        if !(id < self.objects.len() as u64) {
            return false;
        }
        let i = id as usize;
        let mut slot = self.objects.remove(i);
        let ok: bool;
        if slot.refcount > 0 {
            match &mut slot.data {
                ObjectData::VideoFrame { planes, .. } => {
                    if 0 <= plane && (plane as usize) < planes.len() {
                        let mut pb = planes.remove(plane as usize);
                        if data.len() == pb.data.len() {
                            pb.data = data;
                            ok = true;
                        } else {
                            ok = false;
                        }
                        planes.insert(plane as usize, pb);
                        proof {
                            if ok {
                                assert(planes_view(planes@) =~= old(self)@.frame_planes_of(
                                    f@,
                                ).update(
                                    plane as int,
                                    PlaneModel {
                                        data: data@,
                                        ..old(self)@.frame_planes_of(f@)[plane as int]
                                    },
                                ));
                            } else {
                                assert(planes_view(planes@) =~= old(self)@.frame_planes_of(f@));
                            }
                        }
                    } else {
                        ok = false;
                    }
                },
                _ => {
                    ok = false;
                },
            }
        } else {
            ok = false;
        }
        self.objects.insert(i, slot);
        proof {
            if ok {
                assert(self@.objects =~= old(self)@.spec_put_plane(
                    f@,
                    plane as int,
                    data@,
                ).objects);
            } else {
                assert(self@.objects =~= old(self)@.objects);
            }
        }
        ok
    }

    /// Creates a function object and hands out its first reference. In
    /// this in-process host a function object carries no callable
    /// behaviour; it exists to be owned, shared and stored in maps.
    pub fn create_function(&mut self) -> (r: Function)
        requires
            old(self)@.objects.len() < u64::MAX,
        ensures
            r@ == old(self)@.objects.len(),
            final(self)@ == old(self)@.spec_new_obj(ObjectDataModel::Function),
    {
        let id = self.push_obj(ObjectData::Function);
        Function::from_id(id)
    }

    /// Fills an audio format record for the given description with proper
    /// checking: an invalid description gives the zeroed record.
    pub fn query_audio_format(&self, sample_type: VSSampleType, bits_per_sample: i32, channel_layout: u64) -> (r:
        VSAudioFormat)
        ensures
            r == spec_query_audio_format(sample_type, bits_per_sample as int, channel_layout),
    {
        let bits_ok = match sample_type {
            VSSampleType::Integer => 16 <= bits_per_sample && bits_per_sample <= 32,
            VSSampleType::Float => bits_per_sample == 32,
        };
        if bits_ok && channel_layout != 0 {
            proof {
                vstd::arithmetic::power2::lemma2_to64_rest();
                lemma_popcount_width(channel_layout as nat, 64);
            }
            let num_channels = popcount_u64(channel_layout) as i32;
            VSAudioFormat {
                sample_type,
                bits_per_sample,
                bytes_per_sample: if bits_per_sample <= 8 {
                    1
                } else if bits_per_sample <= 16 {
                    2
                } else {
                    4
                },
                num_channels,
                channel_layout,
            }
        } else {
            VSAudioFormat {
                sample_type: VSSampleType::Integer,
                bits_per_sample: 0,
                bytes_per_sample: 0,
                num_channels: 0,
                channel_layout: 0,
            }
        }
    }

    /// Creates a source audio node with the given clip information and
    /// hands out its first reference.
    pub fn create_source_audio_node(&mut self, info: &VSAudioInfo) -> (r: AudioNode)
        requires
            old(self)@.objects.len() < u64::MAX,
        ensures
            r@ == old(self)@.objects.len(),
            final(self)@ == old(self)@.spec_new_obj(
                ObjectDataModel::AudioNode { audio_info: *info, audio_deps: Seq::empty() },
            ),
    {
        let no_deps: Vec<VSFilterDependency> = Vec::new();
        proof {
            assert(no_deps@ =~= Seq::<VSFilterDependency>::empty());
        }
        let id = self.push_obj(ObjectData::AudioNode { audio_info: *info, audio_deps: no_deps });
        AudioNode::from_id(id)
    }

    /// Registers an audio filter node with the given clip information and
    /// declared dependencies, and hands out its first reference.
    pub(crate) fn register_audio_filter_node(
        &mut self,
        info: &VSAudioInfo,
        deps: Vec<VSFilterDependency>,
    ) -> (r: AudioNode)
        requires
            old(self)@.objects.len() < u64::MAX,
        ensures
            r@ == old(self)@.objects.len(),
            final(self)@ == old(self)@.spec_new_obj(
                ObjectDataModel::AudioNode { audio_info: *info, audio_deps: deps@ },
            ),
    {
        let id = self.push_obj(ObjectData::AudioNode { audio_info: *info, audio_deps: deps });
        AudioNode::from_id(id)
    }

    /// The clip information of the audio node with object id `id`.
    pub fn audio_node_info_by_id(&self, id: u64) -> (r: Option<VSAudioInfo>)
        ensures
            self@.is_audio_node(id as int) ==> r == Some(self@.audio_info_of(id as int)),
            !self@.is_audio_node(id as int) ==> r is None,
    {
        if id < self.objects.len() as u64 {
            let slot = &self.objects[id as usize];
            if slot.refcount > 0 {
                match &slot.data {
                    ObjectData::AudioNode { audio_info, .. } => Some(*audio_info),
                    _ => None,
                }
            } else {
                None
            }
        } else {
            None
        }
    }

    /// The clip information of an audio node; nothing for a handle that
    /// does not name a live audio node.
    pub fn audio_node_info(&self, n: &AudioNode) -> (r: Option<VSAudioInfo>)
        ensures
            ({
                let c = self@;
                if c.live(n@) && c.objects[n@].data is AudioNode {
                    r == Some(c.objects[n@].data->AudioNode_audio_info)
                } else {
                    r is None
                }
            }),
    {
        let id = n.id();
        if id < self.objects.len() as u64 {
            let slot = &self.objects[id as usize];
            if slot.refcount > 0 {
                match &slot.data {
                    ObjectData::AudioNode { audio_info, .. } => Some(*audio_info),
                    _ => None,
                }
            } else {
                None
            }
        } else {
            None
        }
    }

    /// Creates a new audio frame of the given format and sample count, and
    /// hands out its first reference.
    pub fn new_audio_frame(&mut self, format: &VSAudioFormat, num_samples: i32) -> (r: AudioFrame)
        requires
            old(self)@.objects.len() < u64::MAX,
        ensures
            r@ == old(self)@.objects.len(),
            final(self)@ == old(self)@.spec_new_obj(
                ObjectDataModel::AudioFrame { audio_format: *format, length: num_samples },
            ),
    {
        let id = self.push_obj(ObjectData::AudioFrame { audio_format: *format, length: num_samples });
        AudioFrame::from_id(id)
    }

    /// Number of samples in an audio frame; zero for an invalid handle.
    pub fn frame_length(&self, f: &AudioFrame) -> (r: i32)
        ensures
            ({
                let c = self@;
                if c.live(f@) && c.objects[f@].data is AudioFrame {
                    r == c.objects[f@].data->AudioFrame_length
                } else {
                    r == 0
                }
            }),
    {
        let id = f.id();
        if id < self.objects.len() as u64 {
            let slot = &self.objects[id as usize];
            if slot.refcount > 0 {
                match &slot.data {
                    ObjectData::AudioFrame { length, .. } => *length,
                    _ => 0,
                }
            } else {
                0
            }
        } else {
            0
        }
    }
}

/// Builds a core, collecting its creation options first. Each option
/// method consumes the builder and hands it back, so options chain.
#[derive(Debug, Clone, Copy)]
pub struct CoreBuilder {
    enable_graph_inspection: bool,
    disable_auto_loading: bool,
    disable_library_unloading: bool,
    api: Option<crate::api::Api>,
    max_cache_size_opt: Option<i64>,
    thread_count_opt: Option<i32>,
}

impl CoreBuilder {
    /// A builder with every option at its default.
    pub fn new() -> (r: CoreBuilder)
        ensures
            r.spec_max_cache_size() is None,
            r.spec_thread_count() is None,
            r.spec_api() is None,
    {
        CoreBuilder {
            enable_graph_inspection: false,
            disable_auto_loading: false,
            disable_library_unloading: false,
            api: None,
            max_cache_size_opt: None,
            thread_count_opt: None,
        }
    }

    /// The entry-point handle collected so far.
    pub closed spec fn spec_api(self) -> Option<crate::api::Api> {
        self.api
    }

    /// The cache-size option collected so far.
    pub closed spec fn spec_max_cache_size(self) -> Option<i64> {
        self.max_cache_size_opt
    }

    /// The thread-count option collected so far.
    pub closed spec fn spec_thread_count(self) -> Option<i32> {
        self.thread_count_opt
    }

    /// Sets the entry-point handle the core is built against.
    pub fn api(self, api: &crate::api::Api) -> (r: CoreBuilder)
        ensures
            r.spec_api() == Some(*api),
            r.spec_max_cache_size() == self.spec_max_cache_size(),
            r.spec_thread_count() == self.spec_thread_count(),
    {
        CoreBuilder { api: Some(*api), ..self }
    }

    /// Asks for the graph inspection bookkeeping.
    pub fn enable_graph_inspection(self) -> (r: CoreBuilder)
        ensures
            r.spec_api() == self.spec_api(),
            r.spec_max_cache_size() == self.spec_max_cache_size(),
            r.spec_thread_count() == self.spec_thread_count(),
    {
        CoreBuilder { enable_graph_inspection: true, ..self }
    }

    /// Asks that no user plugins be loaded automatically.
    pub fn disable_auto_loading(self) -> (r: CoreBuilder)
        ensures
            r.spec_api() == self.spec_api(),
            r.spec_max_cache_size() == self.spec_max_cache_size(),
            r.spec_thread_count() == self.spec_thread_count(),
    {
        CoreBuilder { disable_auto_loading: true, ..self }
    }

    /// Asks that plugin libraries stay loaded when the core is destroyed.
    pub fn disable_library_unloading(self) -> (r: CoreBuilder)
        ensures
            r.spec_api() == self.spec_api(),
            r.spec_max_cache_size() == self.spec_max_cache_size(),
            r.spec_thread_count() == self.spec_thread_count(),
    {
        CoreBuilder { disable_library_unloading: true, ..self }
    }

    /// Sets the cache size the core is built with.
    pub fn max_cache_size(self, size: i64) -> (r: CoreBuilder)
        ensures
            r.spec_api() == self.spec_api(),
            r.spec_max_cache_size() == Some(size),
            r.spec_thread_count() == self.spec_thread_count(),
    {
        CoreBuilder { max_cache_size_opt: Some(size), ..self }
    }

    /// Sets the worker thread count the core is built with.
    pub fn thread_count(self, count: i32) -> (r: CoreBuilder)
        ensures
            r.spec_api() == self.spec_api(),
            r.spec_max_cache_size() == self.spec_max_cache_size(),
            r.spec_thread_count() == Some(count),
    {
        CoreBuilder { thread_count_opt: Some(count), ..self }
    }

    /// Builds the core with the collected options. An entry-point handle
    /// must have been set.
    pub fn build(self) -> (r: Core)
        requires
            self.spec_api() is Some,
        ensures
            r@.objects.len() == 0,
            r@.max_cache_size == (if self.spec_max_cache_size() is Some {
                self.spec_max_cache_size()->0
            } else {
                0
            }),
            r@.num_threads == (if self.spec_thread_count() is Some {
                self.spec_thread_count()->0
            } else {
                0
            }),
    {
        let size = match self.max_cache_size_opt {
            Some(s) => s,
            None => 0,
        };
        let count = match self.thread_count_opt {
            Some(c) => c,
            None => 0,
        };
        Core::new_with(size, count)
    }
}

impl Default for CoreBuilder {
    /// A builder with every option at its default.
    fn default() -> (r: CoreBuilder)
        ensures
            r.spec_max_cache_size() is None,
            r.spec_thread_count() is None,
            r.spec_api() is None,
    {
        CoreBuilder::new()
    }
}

} // verus!
