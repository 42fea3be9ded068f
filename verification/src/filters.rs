//! Example filters over the in-process host, exercising the activation
//! protocol end to end: a byte-inverting filter, a bit-depth conversion
//! filter with an optional argument, and a splicing filter that maps
//! output frame numbers onto its inputs.

use crate::host::{ActivationReason, FrameContext, FrameContextModel, Host};
use crate::key::{is_valid_key, Key, KeyStr};
use crate::map::{
    spec_get_tagged, spec_num_elements, spec_set, value_at, values_len, values_tag, MapModel,
    PropertyErrorModel, ValueModel, ValuesModel, VsMap,
};
use crate::node::{Dependencies, FilterDependency, FilterMode, RequestPattern, VideoNode};
use crate::plugin::{ArgModel, ArgSpec, Type};
use crate::frame::VideoFrame;
use crate::utils::{i32_saturated, is_constant_video_format};
use crate::vs::{
    VSActivationReason, VSMapAppendMode, VSPropertyType, VSSampleType, VSVideoInfo,
};
use crate::vscore::{spec_query_video_format, valid_format_args, Core, CoreModel};
use vstd::prelude::*;

verus! {

/// The bit depth an argument map binds under `key` — clamped to the 32-bit
/// range — or the documented default of sixteen when the key is unbound or
/// not readable as an integer.
pub open spec fn spec_bits_or_default(m: MapModel, k: Seq<char>) -> int {
    match spec_get_tagged(m, k, 0, VSPropertyType::Int) {
        Ok(v) => match v {
            ValueModel::Int(x) => i32_saturated(x as int),
            _ => 16,
        },
        Err(_) => 16,
    }
}

/// The bit depth an argument map binds under `key`, or the documented
/// default of sixteen.
pub fn bits_or_default(input: &VsMap, key: &KeyStr) -> (r: i32)
    ensures
        r as int == spec_bits_or_default(input@, key@),
{
    match input.get_int_saturated(key, 0) {
        Ok(v) => v,
        Err(_) => 16,
    }
}

/// Whether an argument map enables the filter under `key`: any integer but
/// zero, with enabled as the default when the key is unbound or not
/// readable as an integer.
pub open spec fn spec_enabled_or_default(m: MapModel, k: Seq<char>) -> bool {
    match spec_get_tagged(m, k, 0, VSPropertyType::Int) {
        Ok(v) => match v {
            ValueModel::Int(x) => x != 0,
            _ => true,
        },
        Err(_) => true,
    }
}

/// Whether an argument map enables the filter under `key`; enabled is the
/// default.
pub fn enabled_or_default(input: &VsMap, key: &KeyStr) -> (r: bool)
    ensures
        r == spec_enabled_or_default(input@, key@),
{
    match input.get_int(key, 0) {
        Ok(v) => v != 0,
        Err(_) => true,
    }
}

/// Bytes with every bit flipped.
pub open spec fn spec_inverted(s: Seq<u8>) -> Seq<u8> {
    Seq::new(s.len(), |i: int| (255 - s[i]) as u8)
}

/// Flips every bit of every byte.
pub fn invert_bytes(src: &Vec<u8>) -> (r: Vec<u8>)
    ensures
        r@ == spec_inverted(src@),
{
    let mut r: Vec<u8> = Vec::new();
    let mut i: usize = 0;
    while i < src.len()
        invariant
            i <= src@.len(),
            r@ =~= spec_inverted(src@).take(i as int),
        decreases src@.len() - i,
    {
        r.push(255 - src[i]);
        proof {
            assert(r@ =~= spec_inverted(src@).take(i as int + 1));
        }
        i = i + 1;
    }
    proof {
        assert(spec_inverted(src@).take(src@.len() as int) =~= spec_inverted(src@));
    }
    r
}

/// Gives a list of node references back to the core.
fn release_nodes(core: &mut Core, nodes: Vec<VideoNode>) {
    let mut nodes = nodes;
    while nodes.len() > 0
        decreases nodes@.len(),
    {
        match nodes.pop() {
            Some(n) => {
                core.free_node(n);
            },
            None => {},
        }
    }
}

/// A filter that inverts every sample byte of its input clip. It accepts
/// an optional `enabled` argument; a disabled instance reports an error
/// for every produced frame instead of producing one.
pub struct DumbFilter {
    node: VideoNode,
    enabled: bool,
}

impl DumbFilter {
    /// The id of the upstream node this filter reads.
    pub closed spec fn spec_node(&self) -> int {
        self.node@
    }

    /// Whether this instance is enabled.
    pub closed spec fn spec_enabled(&self) -> bool {
        self.enabled
    }
}

impl crate::host::Filter for DumbFilter {
    type FilterData = ();

    type FrameData = ();

    open spec fn spec_name() -> Seq<char> {
        "Filter"@
    }

    open spec fn spec_args() -> Seq<ArgModel> {
        seq![
            ArgModel { name: "clip"@, ty: Type::VNode, opt: false },
            ArgModel { name: "enabled"@, ty: Type::Int, opt: true },
        ]
    }

    open spec fn spec_return_type() -> Seq<ArgModel> {
        seq![ArgModel { name: "clip"@, ty: Type::VNode, opt: false }]
    }

    fn name() -> (r: String) {
        "Filter".to_owned()
    }

    fn args() -> (r: Vec<ArgSpec>) {
        proof {
            reveal_strlit("clip");
            reveal_strlit("enabled");
            assert(is_valid_key("clip"@));
            assert(is_valid_key("enabled"@));
        }
        let mut v: Vec<ArgSpec> = Vec::new();
        v.push(ArgSpec::new(Key::from_checked("clip"), Type::VNode, false));
        v.push(ArgSpec::new(Key::from_checked("enabled"), Type::Int, true));
        proof {
            assert(crate::plugin::args_view(v@) =~= Self::spec_args());
        }
        v
    }

    fn return_type() -> (r: Vec<ArgSpec>) {
        proof {
            reveal_strlit("clip");
            assert(is_valid_key("clip"@));
        }
        let mut v: Vec<ArgSpec> = Vec::new();
        v.push(ArgSpec::new(Key::from_checked("clip"), Type::VNode, false));
        proof {
            assert(crate::plugin::args_view(v@) =~= Self::spec_return_type());
        }
        v
    }

    fn filter_mode() -> FilterMode {
        FilterMode::Parallel
    }

    fn create(
        input: &VsMap,
        output: &mut VsMap,
        data: Option<()>,
        host: &mut Host<Self>,
    ) -> (r: Result<(), String>)
        ensures
            ({
                let m = input@;
                let c0 = old(host)@.core;
                let g = spec_get_tagged(m, "clip"@, 0, VSPropertyType::VideoNode);
                let cid = g->Ok_0->VideoNode_0;
                let vi = c0.video_info_of(cid);
                let resolvable = g is Ok && g->Ok_0 is VideoNode && c0.is_video_node(cid);
                let format_ok = vi.height > 0 && vi.width > 0 && vi.format.color_family
                    != crate::vs::VSColorFamily::Undefined && vi.format.sample_type
                    == VSSampleType::Integer && vi.format.bits_per_sample == 8;
                let nid = c0.objects.len() as int;
                &&& (!resolvable ==> r is Err)
                &&& (resolvable && !format_ok ==> (r matches Err(e) && e@
                    == "Invert: only constant format 8bit integer input supported"@))
                &&& (resolvable && format_ok && c0.objects.len() < u64::MAX ==> {
                    &&& r is Ok
                    &&& final(host)@.core.objects.len() == nid + 1
                    &&& final(host)@.core.video_info_of(nid) == vi
                    &&& final(host)@.core.deps_of(nid) == seq![
                        FilterDependency {
                            source: cid as u64,
                            request_pattern: RequestPattern::StrictSpatial,
                        },
                    ]
                    &&& final(host)@.instances == old(host)@.instances.push((nid as u64, true))
                    &&& final(output)@ == spec_set(
                        old(output)@,
                        "clip"@,
                        ValueModel::VideoNode(nid),
                        VSMapAppendMode::Append,
                    )
                })
            }),
    {
        let _ = data;
        proof {
            reveal_strlit("clip");
            reveal_strlit("enabled");
            assert(is_valid_key("clip"@));
            assert(is_valid_key("enabled"@));
        }
        let clip_key = Key::from_checked("clip");
        let node = match input.get_video_node(&clip_key, 0, host.core_mut()) {
            Ok(n) => n,
            Err(_) => {
                return Err("Failed to get clip".to_owned());
            },
        };
        proof {
            crate::vscore::lemma_clone_obj_preserves(old(host)@.core, node@);
        }
        let vi = match host.core_ref().video_node_info(&node) {
            Some(v) => v,
            None => {
                host.core_mut().free_node(node);
                return Err("Failed to get clip".to_owned());
            },
        };
        if !is_constant_video_format(&vi) || !(vi.format.sample_type == VSSampleType::Integer)
            || vi.format.bits_per_sample != 8 {
            host.core_mut().free_node(node);
            return Err("Invert: only constant format 8bit integer input supported".to_owned());
        }
        let enabled_key = Key::from_checked("enabled");
        let enabled = enabled_or_default(input, &enabled_key);
        let mut deps_vec: Vec<FilterDependency> = Vec::new();
        deps_vec.push(
            FilterDependency { source: node.id(), request_pattern: RequestPattern::StrictSpatial },
        );
        proof {
            assert(deps_vec@ =~= seq![
                FilterDependency {
                    source: node@ as u64,
                    request_pattern: RequestPattern::StrictSpatial,
                },
            ]);
        }
        let deps = match Dependencies::new(deps_vec) {
            Some(d) => d,
            None => vstd::pervasive::unreached(),
        };
        let filter = DumbFilter { node, enabled };
        host.create_video_filter(output, "Invert", &vi, filter, &deps);
        Ok(())
    }

    fn get_frame(
        &self,
        n: i32,
        activation_reason: ActivationReason,
        frame_data: &mut Option<()>,
        frame_ctx: &mut FrameContext,
        core: &mut Core,
    ) -> (r: Result<Option<VideoFrame>, String>)
        ensures
            activation_reason == VSActivationReason::Initial ==> r == Ok::<
                Option<VideoFrame>,
                String,
            >(None) && final(frame_ctx)@ == (FrameContextModel {
                requests: old(frame_ctx)@.requests.push((self.spec_node() as u64, n)),
                ..old(frame_ctx)@
            }) && final(core)@ == old(core)@,
            activation_reason == VSActivationReason::Error ==> r == Ok::<
                Option<VideoFrame>,
                String,
            >(None) && final(frame_ctx)@ == old(frame_ctx)@ && final(core)@ == old(core)@,
            activation_reason == VSActivationReason::AllFramesReady ==> ({
                let k = crate::host::first_ready(
                    old(frame_ctx)@.ready,
                    self.spec_node() as u64,
                    n,
                );
                let src = old(frame_ctx)@.ready[k].2;
                let c0 = old(core)@;
                &&& (k == -1 ==> r is Err && final(frame_ctx)@ == old(frame_ctx)@ && final(core)@
                    == c0)
                &&& (k != -1 && !self.spec_enabled() ==> (r matches Err(e) && e@
                    == "Not enabled"@))
                &&& ((r is Ok && r->Ok_0 is Some) ==> ({
                    let dst = (r->Ok_0->0)@;
                    let c1 = final(core)@;
                    &&& k != -1
                    &&& c1.is_video_frame(dst)
                    &&& c1.objects[dst].data->VideoFrame_frame_format
                        == c0.objects[src].data->VideoFrame_frame_format
                    &&& c1.objects[dst].data->VideoFrame_width == c0.frame_planes_of(src)[0].width
                    &&& c1.objects[dst].data->VideoFrame_height == c0.frame_planes_of(
                        src,
                    )[0].height
                    &&& c1.frame_planes_of(dst).len() == c0.objects[
                        src
                    ].data->VideoFrame_frame_format.num_planes
                    &&& forall|p: int|
                        0 <= p < c1.frame_planes_of(dst).len() ==> (#[trigger] c1.frame_planes_of(
                            dst,
                        )[p]).data == spec_inverted(c0.frame_planes_of(src)[p].data)
                }))
            }),
    {
        let _ = frame_data;
        match activation_reason {
            VSActivationReason::Initial => {
                frame_ctx.request_frame_filter(n, &self.node);
                Ok(None)
            },
            VSActivationReason::AllFramesReady => {
                let src = match frame_ctx.get_frame_filter(n, &self.node) {
                    Some(f) => f,
                    None => {
                        return Err("Invert: the requested frame is missing".to_owned());
                    },
                };
                if !self.enabled {
                    core.free_frame(src);
                    return Err("Not enabled".to_owned());
                }
                let fi = match core.get_video_frame_format(&src) {
                    Some(f) => f,
                    None => {
                        core.free_frame(src);
                        return Err("Invert: the source frame is gone".to_owned());
                    },
                };
                let width = core.frame_width(&src, 0);
                let height = core.frame_height(&src, 0);
                let q = core.query_video_format(
                    fi.color_family,
                    fi.sample_type,
                    fi.bits_per_sample,
                    fi.sub_sampling_w,
                    fi.sub_sampling_h,
                );
                if !(q == fi && q.num_planes > 0 && width > 0 && height > 0) {
                    core.free_frame(src);
                    return Err("Invert: unsupported frame geometry".to_owned());
                }
                let sw = Core::sub_factor_exec(fi.sub_sampling_w);
                let sh = Core::sub_factor_exec(fi.sub_sampling_h);
                if width % sw != 0 || height % sh != 0 {
                    core.free_frame(src);
                    return Err("Invert: unsupported frame geometry".to_owned());
                }
                if !((core.num_objects() as u64) < u64::MAX) {
                    core.free_frame(src);
                    return Err("Invert: the core cannot hold another object".to_owned());
                }
                proof {
                    assert(crate::vscore::valid_video_format(fi));
                    let wi = width as int;
                    let hi = height as int;
                    let bi = fi.bytes_per_sample as int;
                    assert(wi * bi <= 0x7fff_ffffi64 * 4 && wi * bi * hi <= 0x7fff_ffffi64 * 4
                        * 0x7fff_ffffi64 && 0 <= wi * bi && 0 <= wi * bi * hi) by (nonlinear_arith)
                        requires
                            0 < wi <= 0x7fff_ffff,
                            0 < hi <= 0x7fff_ffff,
                            1 <= bi <= 4,
                    ;
                }
                let p1 = (width as u64) * (fi.bytes_per_sample as u64);
                let p2 = p1 * (height as u64);
                if !(p2 <= usize::MAX as u64) {
                    core.free_frame(src);
                    return Err("Invert: the frame does not fit in memory".to_owned());
                }
                let ghost c0 = old(core)@;
                let ghost src_id = src@;
                proof {
                    assert(crate::vscore::blank_planes(fi, width as int, height as int).len()
                        == fi.num_planes as nat);
                }
                let mut dst = core.new_video_frame(&fi, width, height);
                let mut plane: i32 = 0;
                let np = fi.num_planes;
                while plane < np
                    invariant
                        activation_reason == VSActivationReason::AllFramesReady,
                        crate::host::first_ready(
                            old(frame_ctx)@.ready,
                            self.spec_node() as u64,
                            n,
                        ) != -1,
                        self.spec_enabled(),
                        src@ == src_id,
                        0 <= plane <= np,
                        np == fi.num_planes,
                        np as nat == crate::vscore::blank_planes(
                            fi,
                            width as int,
                            height as int,
                        ).len(),
                        dst@ == c0.objects.len(),
                        0 <= src_id < c0.objects.len(),
                        c0.is_video_frame(src_id),
                        fi == c0.objects[src_id].data->VideoFrame_frame_format,
                        width == c0.frame_planes_of(src_id)[0].width,
                        height == c0.frame_planes_of(src_id)[0].height,
                        core@.objects.len() == c0.objects.len() + 1,
                        core@.objects[src_id].data == c0.objects[src_id].data,
                        core@.is_video_frame(src_id),
                        core@.is_video_frame(dst@),
                        core@.objects[dst@].data->VideoFrame_frame_format == fi,
                        core@.objects[dst@].data->VideoFrame_width == width,
                        core@.objects[dst@].data->VideoFrame_height == height,
                        core@.frame_planes_of(dst@).len() == np as nat,
                        forall|q: int|
                            0 <= q < plane ==> (#[trigger] core@.frame_planes_of(dst@)[q]).data
                                == spec_inverted(c0.frame_planes_of(src_id)[q].data),
                        forall|q: int|
                            plane <= q < np ==> (#[trigger] core@.frame_planes_of(dst@)[q])
                                == crate::vscore::blank_planes(fi, width as int, height as int)[q],
                    decreases np - plane,
                {
                    let src_plane = match core.plane_data(&src, plane) {
                        Some(d) => d,
                        None => {
                            core.free_frame(src);
                            core.free_frame(dst);
                            return Err("Invert: a source plane is missing".to_owned());
                        },
                    };
                    proof {
                        assert(src@ == src_id);
                        assert(core@.frame_planes_of(src_id) == c0.frame_planes_of(src_id));
                        assert(src_plane@ == c0.frame_planes_of(src_id)[plane as int].data);
                    }
                    let inverted = invert_bytes(src_plane);
                    proof {
                        assert(inverted@ == spec_inverted(
                            c0.frame_planes_of(src_id)[plane as int].data,
                        ));
                    }
                    let wrote = core.put_plane_data(&dst, plane, inverted);
                    if !wrote {
                        core.free_frame(src);
                        core.free_frame(dst);
                        return Err("Invert: the planes do not line up".to_owned());
                    }
                    plane = plane + 1;
                }
                core.free_frame(src);
                proof {
                    assert(core@.objects[dst@].data == old(core)@.spec_new_obj(
                        core@.objects[dst@].data,
                    ).objects[dst@].data || true);
                    assert(core@.is_video_frame(dst@));
                }
                Ok(Some(dst))
            },
            VSActivationReason::Error => Ok(None),
        }
    }

    fn free(self, core: &mut Core) {
        core.free_node(self.node);
    }
}

/// Sum of a list of frame counts.
pub open spec fn spec_sum(s: Seq<i32>) -> int
    decreases s.len(),
{
    if s.len() == 0 {
        0
    } else {
        s[0] + spec_sum(s.drop_first())
    }
}

/// A sum of positive counts grows with every element, and dropping the
/// front element splits one summand off.
proof fn lemma_sum_parts(s: Seq<i32>, i: int)
    requires
        0 <= i < s.len(),
    ensures
        spec_sum(s.skip(i)) == s[i] + spec_sum(s.skip(i + 1)),
    decreases i,
{
    if i == 0 {
        assert(s.skip(0) =~= s);
        assert(s.skip(1) =~= s.drop_first());
    } else {
        lemma_sum_parts(s.drop_first(), i - 1);
        assert(s.drop_first().skip(i - 1) =~= s.skip(i));
        assert(s.drop_first().skip(i) =~= s.skip(i + 1));
        assert(s.drop_first()[i - 1] == s[i]);
    }
}

/// A sum of positive counts is not negative.
proof fn lemma_sum_nonneg(s: Seq<i32>)
    requires
        forall|i: int| 0 <= i < s.len() ==> s[i] > 0,
    ensures
        spec_sum(s) >= 0,
    decreases s.len(),
{
    if s.len() > 0 {
        lemma_sum_nonneg(s.drop_first());
    }
}

/// A sum splits at any point into the sum of the prefix and the rest.
proof fn lemma_sum_split(s: Seq<i32>, i: int)
    requires
        0 <= i <= s.len(),
    ensures
        spec_sum(s) == spec_sum(s.take(i)) + spec_sum(s.skip(i)),
    decreases i,
{
    if i == 0 {
        assert(s.take(0) =~= Seq::<i32>::empty());
        assert(s.skip(0) =~= s);
    } else {
        lemma_sum_split(s, i - 1);
        lemma_sum_parts(s, i - 1);
        assert(s.take(i) =~= s.take(i - 1).push(s[i - 1]));
        lemma_sum_push(s.take(i - 1), s[i - 1]);
    }
}

/// The ids of the clips an argument map binds under `clips`.
pub open spec fn spec_clip_ids(m: MapModel) -> Seq<int> {
    m.values_of("clips"@)->VideoNodes_0
}

/// The frame counts of those clips, read from the core.
pub open spec fn spec_clip_counts(m: MapModel, c: CoreModel) -> Seq<i32> {
    Seq::new(spec_clip_ids(m).len(), |i: int| c.video_info_of(spec_clip_ids(m)[i]).num_frames)
}

/// Whether a clips argument can be spliced: no sticky error, at least two
/// clips, all live video nodes with positive frame counts.
pub open spec fn spec_splice_inputs_ok(m: MapModel, c: CoreModel) -> bool {
    &&& m.error is None
    &&& m.has_key("clips"@)
    &&& m.values_of("clips"@) is VideoNodes
    &&& spec_clip_ids(m).len() >= 2
    &&& forall|i: int|
        0 <= i < spec_clip_ids(m).len() ==> c.is_video_node(#[trigger] spec_clip_ids(m)[i])
    &&& forall|i: int|
        0 <= i < spec_clip_ids(m).len() ==> c.video_info_of(
            #[trigger] spec_clip_ids(m)[i],
        ).num_frames > 0
}

/// The clip an output frame number falls in: the first whose cumulative
/// frame range covers it, with the last clip as the fallback.
pub open spec fn spec_segment(counts: Seq<i32>, n: int) -> int
    decreases counts.len(),
{
    if counts.len() <= 1 {
        0
    } else if n < counts[0] {
        0
    } else {
        1 + spec_segment(counts.drop_first(), n - counts[0])
    }
}

/// Maps an output frame number onto the clip it falls in and the frame
/// number within that clip.
pub fn pick_segment(counts: &Vec<i32>, n: i32) -> (r: (usize, i32))
    requires
        counts@.len() > 0,
        forall|i: int| 0 <= i < counts@.len() ==> counts@[i] > 0,
        spec_sum(counts@) <= i32::MAX,
        n >= 0,
    ensures
        r.0 as int == spec_segment(counts@, n as int),
        r.0 < counts@.len(),
        r.1 as int == n - spec_sum(counts@.take(r.0 as int)),
{
    let len = counts.len();
    let mut i: usize = 0;
    let mut cum: i32 = 0;
    proof {
        assert(counts@.skip(0) =~= counts@);
        assert(counts@.take(0) =~= Seq::<i32>::empty());
        lemma_sum_nonneg(counts@);
    }
    while i + 1 < len && !(n >= cum && (n - cum) < counts[i])
        invariant
            0 <= i < len,
            len == counts@.len(),
            forall|q: int| 0 <= q < counts@.len() ==> counts@[q] > 0,
            spec_sum(counts@) <= i32::MAX,
            n >= 0,
            0 <= cum <= n,
            cum == spec_sum(counts@.take(i as int)),
            cum + spec_sum(counts@.skip(i as int)) == spec_sum(counts@),
            spec_segment(counts@, n as int) == i + spec_segment(counts@.skip(i as int), n - cum),
        decreases len - i,
    {
        proof {
            lemma_sum_parts(counts@, i as int);
            assert forall|q: int|
                0 <= q < counts@.skip(i as int + 1).len() implies (#[trigger] counts@.skip(
                i as int + 1,
            )[q]) > 0 by {
                assert(counts@.skip(i as int + 1)[q] == counts@[q + i + 1]);
            }
            lemma_sum_nonneg(counts@.skip(i as int + 1));
            assert(counts@.take(i as int + 1) =~= counts@.take(i as int).push(
                counts@[i as int],
            ));
            lemma_sum_push(counts@.take(i as int), counts@[i as int]);
            assert(counts@.skip(i as int)[0] == counts@[i as int]);
            assert(counts@.skip(i as int).drop_first() =~= counts@.skip(i as int + 1));
        }
        cum = cum + counts[i];
        i = i + 1;
    }
    proof {
        assert(counts@.skip(i as int)[0] == counts@[i as int]);
        if i + 1 < len {
            assert(spec_segment(counts@.skip(i as int), n - cum) == 0);
        } else {
            assert(counts@.skip(i as int).len() == 1);
        }
    }
    (i, n - cum)
}

/// A filter that splices its input clips back to back: output frame
/// numbers map onto the inputs in order.
pub struct SpliceFilter {
    nodes: Vec<VideoNode>,
    num_frames: Vec<i32>,
}

impl SpliceFilter {
    /// The upstream node ids, in clip order.
    pub closed spec fn spec_nodes(&self) -> Seq<int> {
        self.nodes@.map_values(|h: VideoNode| h@)
    }

    /// The per-clip frame counts, in clip order.
    pub closed spec fn spec_counts(&self) -> Seq<i32> {
        self.num_frames@
    }

    #[verifier::type_invariant]
    spec fn type_inv(&self) -> bool {
        &&& self.nodes@.len() == self.num_frames@.len()
        &&& self.nodes@.len() > 0
        &&& forall|i: int| 0 <= i < self.num_frames@.len() ==> self.num_frames@[i] > 0
        &&& spec_sum(self.num_frames@) <= i32::MAX
    }
}

impl crate::host::Filter for SpliceFilter {
    type FilterData = ();

    type FrameData = (VideoNode, i32);

    open spec fn spec_name() -> Seq<char> {
        "Splice"@
    }

    open spec fn spec_args() -> Seq<ArgModel> {
        seq![ArgModel { name: "clips"@, ty: Type::Array(Box::new(Type::VNode)), opt: false }]
    }

    open spec fn spec_return_type() -> Seq<ArgModel> {
        seq![ArgModel { name: "clip"@, ty: Type::VNode, opt: false }]
    }

    fn name() -> (r: String) {
        "Splice".to_owned()
    }

    fn args() -> (r: Vec<ArgSpec>) {
        proof {
            reveal_strlit("clips");
            assert(is_valid_key("clips"@));
        }
        let mut v: Vec<ArgSpec> = Vec::new();
        v.push(ArgSpec::new(Key::from_checked("clips"), Type::Array(Box::new(Type::VNode)), false));
        proof {
            assert(crate::plugin::args_view(v@) =~= Self::spec_args());
        }
        v
    }

    fn return_type() -> (r: Vec<ArgSpec>) {
        proof {
            reveal_strlit("clip");
            assert(is_valid_key("clip"@));
        }
        let mut v: Vec<ArgSpec> = Vec::new();
        v.push(ArgSpec::new(Key::from_checked("clip"), Type::VNode, false));
        proof {
            assert(crate::plugin::args_view(v@) =~= Self::spec_return_type());
        }
        v
    }

    fn filter_mode() -> FilterMode {
        FilterMode::Parallel
    }

    fn create(
        input: &VsMap,
        output: &mut VsMap,
        data: Option<()>,
        host: &mut Host<Self>,
    ) -> (r: Result<(), String>)
        ensures
            ({
                let m = input@;
                let c0 = old(host)@.core;
                let g1 = spec_get_tagged(m, "clips"@, 0, VSPropertyType::VideoNode);
                let single = spec_num_elements(m, "clips"@) == Ok::<int, PropertyErrorModel>(1)
                    && g1 is Ok && g1->Ok_0 is VideoNode;
                let cid1 = g1->Ok_0->VideoNode_0;
                let ids = spec_clip_ids(m);
                let counts = spec_clip_counts(m, c0);
                let nid = c0.objects.len() as int;
                &&& (single ==> {
                    &&& r is Ok
                    &&& final(host)@.core == c0.spec_clone_obj(cid1)
                    &&& final(host)@.instances == old(host)@.instances
                    &&& final(output)@ == spec_set(
                        old(output)@,
                        "clip"@,
                        ValueModel::VideoNode(cid1),
                        VSMapAppendMode::Replace,
                    )
                })
                &&& (spec_splice_inputs_ok(m, c0) && spec_sum(counts) <= i32::MAX
                    && c0.objects.len() < u64::MAX ==> {
                    &&& r is Ok
                    &&& final(host)@.core.objects.len() == nid + 1
                    &&& final(host)@.core.video_info_of(nid).num_frames as int == spec_sum(counts)
                    &&& final(host)@.core.video_info_of(nid).format == c0.video_info_of(
                        ids[0],
                    ).format
                    &&& final(host)@.core.deps_of(nid) == Seq::new(
                        ids.len(),
                        |i: int|
                            FilterDependency {
                                source: ids[i] as u64,
                                request_pattern: RequestPattern::NoFrameReuse,
                            },
                    )
                    &&& final(host)@.instances == old(host)@.instances.push((nid as u64, true))
                    &&& final(output)@ == spec_set(
                        old(output)@,
                        "clip"@,
                        ValueModel::VideoNode(nid),
                        VSMapAppendMode::Append,
                    )
                })
                &&& (spec_splice_inputs_ok(m, c0) && spec_sum(counts) > i32::MAX ==> (r matches Err(
                    e,
                ) && e@ == "Splice: the resulting clip is too long"@))
            }),
    {
        let _ = data;
        proof {
            reveal_strlit("clips");
            reveal_strlit("clip");
            assert(is_valid_key("clips"@));
            assert(is_valid_key("clip"@));
        }
        let ghost m = input@;
        let ghost c0 = old(host)@.core;
        let ghost ids = spec_clip_ids(m);
        let ghost counts = spec_clip_counts(m, c0);
        let ghost ok = spec_splice_inputs_ok(m, c0);
        let clips_key = Key::from_checked("clips");
        let num_clips = match input.num_elements(&clips_key) {
            Ok(c) => c,
            Err(_) => {
                return Err("Splice: no clips were given".to_owned());
            },
        };
        proof {
            if ok {
                assert(spec_num_elements(m, "clips"@) == Ok::<int, PropertyErrorModel>(
                    values_len(m.values_of("clips"@)),
                ));
                assert(values_len(m.values_of("clips"@)) == ids.len());
            }
        }
        if num_clips <= 0 {
            return Err("Splice: no clips were given".to_owned());
        }
        if num_clips == 1 {
            proof {
                assert(!ok);
            }
            let node = match input.get_video_node(&clips_key, 0, host.core_mut()) {
                Ok(n) => n,
                Err(_) => {
                    return Err("Splice: failed to get a clip".to_owned());
                },
            };
            let clip_key = Key::from_checked("clip");
            match output.consume_node(&clip_key, node, crate::map::AppendMode::Replace) {
                Ok(()) => {},
                Err(_) => {
                    proof {
                        assert(false);
                    }
                },
            }
            return Ok(());
        }
        let mut nodes: Vec<VideoNode> = Vec::new();
        let mut num_frames: Vec<i32> = Vec::new();
        let mut total: i32 = 0;
        let mut i: i32 = 0;
        proof {
            if ok {
                assert(counts.take(0) =~= Seq::<i32>::empty());
            }
        }
        while i < num_clips
            invariant
                0 <= i <= num_clips,
                num_clips >= 2,
                nodes@.len() == i,
                nodes@.len() == num_frames@.len(),
                forall|j: int| 0 <= j < num_frames@.len() ==> num_frames@[j] > 0,
                total == spec_sum(num_frames@),
                0 <= total <= i32::MAX,
                m == input@,
                c0 == old(host)@.core,
                clips_key@ == "clips"@,
                ids == spec_clip_ids(m),
                counts == spec_clip_counts(m, c0),
                ok == spec_splice_inputs_ok(m, c0),
                spec_num_elements(m, "clips"@) == Ok::<int, PropertyErrorModel>(num_clips as int),
                host@.functions == old(host)@.functions,
                host@.instances == old(host)@.instances,
                host@.call_log == old(host)@.call_log,
                host@.core.objects.len() == c0.objects.len(),
                forall|j: int|
                    0 <= j < c0.objects.len() ==> (#[trigger] host@.core.objects[j]).data
                        == c0.objects[j].data,
                forall|j: int| #![trigger host@.core.live(j)] host@.core.live(j) <==> c0.live(j),
                ok ==> num_clips as int == ids.len(),
                ok ==> forall|j: int| 0 <= j < i ==> (#[trigger] nodes@[j])@ == ids[j],
                ok ==> forall|j: int| 0 <= j < i ==> (#[trigger] num_frames@[j]) == counts[j],
                ok ==> total == spec_sum(counts.take(i as int)),
            decreases num_clips - i,
        {
            proof {
                if ok {
                    let vs0 = m.values_of("clips"@);
                    assert(vs0 is VideoNodes);
                    assert(vs0 == ValuesModel::VideoNodes(ids));
                    assert(values_tag(vs0) == VSPropertyType::VideoNode);
                    assert(values_len(vs0) == ids.len());
                    assert(0 <= i && (i as int) < ids.len());
                    assert(value_at(vs0, i as int) == ValueModel::VideoNode(ids[i as int]));
                    assert(spec_get_tagged(m, "clips"@, i as int, VSPropertyType::VideoNode)
                        == Ok::<ValueModel, PropertyErrorModel>(
                        ValueModel::VideoNode(ids[i as int]),
                    ));
                }
            }
            let ghost cpre = host@.core;
            let node = match input.get_video_node(&clips_key, i, host.core_mut()) {
                Ok(n) => n,
                Err(_) => {
                    proof {
                        assert(!ok);
                    }
                    release_nodes(host.core_mut(), nodes);
                    return Err("Splice: failed to get a clip".to_owned());
                },
            };
            proof {
                crate::vscore::lemma_clone_obj_preserves(cpre, node@);
                assert forall|j: int|
                    0 <= j < c0.objects.len() implies (#[trigger] host@.core.objects[j]).data
                    == c0.objects[j].data by {
                    assert(host@.core.objects[j].data == cpre.objects[j].data);
                }
                assert forall|j: int| #![trigger host@.core.live(j)] host@.core.live(j)
                    <==> c0.live(j) by {
                    assert(host@.core.live(j) <==> cpre.live(j));
                }
                if ok {
                    assert(node@ == ids[i as int]);
                    assert(host@.core.objects[ids[i as int]].data
                        == c0.objects[ids[i as int]].data);
                    assert(host@.core.is_video_node(ids[i as int]));
                }
            }
            let vi = match host.core_ref().video_node_info(&node) {
                Some(v) => v,
                None => {
                    proof {
                        assert(!ok);
                    }
                    host.core_mut().free_node(node);
                    release_nodes(host.core_mut(), nodes);
                    return Err("Splice: a clip is not a live video node".to_owned());
                },
            };
            proof {
                if ok {
                    assert(host@.core.video_info_of(ids[i as int]) == c0.video_info_of(
                        ids[i as int],
                    ));
                    assert(vi.num_frames == counts[i as int]);
                }
            }
            let x = vi.num_frames;
            if x <= 0 {
                proof {
                    assert(!ok);
                }
                host.core_mut().free_node(node);
                release_nodes(host.core_mut(), nodes);
                return Err("Splice: a clip has no frames".to_owned());
            }
            if total > i32::MAX - x {
                proof {
                    if ok && spec_sum(counts) <= i32::MAX {
                        lemma_sum_split(counts, i as int + 1);
                        assert(counts.take(i as int + 1) =~= counts.take(i as int).push(
                            counts[i as int],
                        ));
                        lemma_sum_push(counts.take(i as int), counts[i as int]);
                        assert forall|q: int|
                            0 <= q < counts.skip(i as int + 1).len() implies (#[trigger] counts.skip(
                            i as int + 1,
                        )[q]) > 0 by {
                            assert(counts.skip(i as int + 1)[q] == counts[q + i + 1]);
                            assert(c0.video_info_of(ids[q + i + 1]).num_frames > 0);
                        }
                        lemma_sum_nonneg(counts.skip(i as int + 1));
                        assert(false);
                    }
                }
                host.core_mut().free_node(node);
                release_nodes(host.core_mut(), nodes);
                return Err("Splice: the resulting clip is too long".to_owned());
            }
            let ghost pre = num_frames@;
            nodes.push(node);
            num_frames.push(x);
            proof {
                lemma_sum_push(pre, x);
                if ok {
                    assert(counts.take(i as int + 1) =~= counts.take(i as int).push(
                        counts[i as int],
                    ));
                    lemma_sum_push(counts.take(i as int), counts[i as int]);
                }
            }
            total = total + x;
            i = i + 1;
        }
        proof {
            if ok {
                assert(counts.take(num_clips as int) =~= counts);
                assert(nodes@[0]@ == ids[0]);
                assert(host@.core.video_info_of(ids[0]) == c0.video_info_of(ids[0]));
                assert(host@.core.is_video_node(ids[0]));
            }
        }
        let vi0 = match host.core_ref().video_node_info(&nodes[0]) {
            Some(v) => v,
            None => {
                proof {
                    assert(!ok);
                }
                release_nodes(host.core_mut(), nodes);
                return Err("Splice: a clip is not a live video node".to_owned());
            },
        };
        let mut vi = vi0;
        vi.num_frames = total;
        let mut deps_vec: Vec<FilterDependency> = Vec::new();
        let mut d: usize = 0;
        while d < nodes.len()
            invariant
                d <= nodes@.len(),
                deps_vec@.len() == d,
                forall|j: int|
                    0 <= j < d ==> (#[trigger] deps_vec@[j]) == (FilterDependency {
                        source: nodes@[j]@ as u64,
                        request_pattern: RequestPattern::NoFrameReuse,
                    }),
            decreases nodes@.len() - d,
        {
            deps_vec.push(
                FilterDependency {
                    source: nodes[d].id(),
                    request_pattern: RequestPattern::NoFrameReuse,
                },
            );
            d = d + 1;
        }
        let deps = match Dependencies::new(deps_vec) {
            Some(dd) => dd,
            None => {
                release_nodes(host.core_mut(), nodes);
                return Err("Splice: too many clips".to_owned());
            },
        };
        proof {
            if ok && c0.objects.len() < u64::MAX {
                assert forall|j: int| 0 <= j < deps@.len() implies host@.core.is_video_node(
                    (#[trigger] deps@[j]).source as int,
                ) by {
                    assert(deps@[j].source == nodes@[j]@ as u64);
                    assert(nodes@[j]@ == ids[j]);
                    assert(c0.is_video_node(ids[j]));
                    assert(0 <= ids[j] < c0.objects.len());
                    assert(ids[j] as u64 as int == ids[j]);
                    assert(host@.core.is_video_node(ids[j]));
                }
            }
            if ok {
                assert forall|q: int| 0 <= q < deps@.len() implies (#[trigger] deps@[q])
                    == (FilterDependency {
                    source: ids[q] as u64,
                    request_pattern: RequestPattern::NoFrameReuse,
                }) by {
                    assert(deps@[q].source == nodes@[q]@ as u64);
                    assert(nodes@[q]@ == ids[q]);
                }
                assert(deps@ =~= Seq::new(
                    ids.len(),
                    |q: int|
                        FilterDependency {
                            source: ids[q] as u64,
                            request_pattern: RequestPattern::NoFrameReuse,
                        },
                ));
            }
        }
        let filter = SpliceFilter { nodes, num_frames };
        host.create_video_filter(output, "Splice", &vi, filter, &deps);
        Ok(())
    }

    fn get_frame(
        &self,
        n: i32,
        activation_reason: ActivationReason,
        frame_data: &mut Option<(VideoNode, i32)>,
        frame_ctx: &mut FrameContext,
        core: &mut Core,
    ) -> (r: Result<Option<VideoFrame>, String>)
        ensures
            activation_reason == VSActivationReason::Initial && n >= 0 ==> ({
                let idx = spec_segment(self.spec_counts(), n as int);
                let local = n - spec_sum(self.spec_counts().take(idx));
                &&& r == Ok::<Option<VideoFrame>, String>(None)
                &&& final(frame_ctx)@ == (FrameContextModel {
                    requests: old(frame_ctx)@.requests.push(
                        (self.spec_nodes()[idx] as u64, local as i32),
                    ),
                    ..old(frame_ctx)@
                })
                &&& (*final(frame_data)) is Some
                &&& ((*final(frame_data))->0).0@ == self.spec_nodes()[idx]
                &&& ((*final(frame_data))->0).1 as int == local
                &&& final(core)@ == old(core)@.spec_clone_obj(self.spec_nodes()[idx])
            }),
            activation_reason == VSActivationReason::Initial && n < 0 ==> r is Err
                && final(frame_ctx)@ == old(frame_ctx)@ && *final(frame_data) == *old(frame_data)
                && final(core)@ == old(core)@,
            activation_reason == VSActivationReason::AllFramesReady ==> ({
                &&& (*final(frame_data)) is None
                &&& ((*old(frame_data)) is None ==> r is Err && final(core)@ == old(core)@
                    && final(frame_ctx)@ == old(frame_ctx)@)
                &&& ((*old(frame_data)) is Some ==> ({
                    let sc = (*old(frame_data))->0;
                    let k = crate::host::first_ready(old(frame_ctx)@.ready, sc.0@ as u64, sc.1);
                    &&& (k == -1 ==> r is Err && final(core)@ == old(core)@.spec_free_obj(sc.0@)
                        && final(frame_ctx)@ == old(frame_ctx)@)
                    &&& (k != -1 ==> r is Ok && r->Ok_0 is Some && (r->Ok_0->0)@ == old(
                        frame_ctx,
                    )@.ready[k].2 && final(frame_ctx)@ == (FrameContextModel {
                        ready: old(frame_ctx)@.ready.remove(k),
                        ..old(frame_ctx)@
                    }) && final(core)@ == old(core)@.spec_free_obj(sc.0@))
                }))
            }),
            activation_reason == VSActivationReason::Error ==> ({
                &&& (*final(frame_data)) is None
                &&& (r matches Err(e) && e@ == "Aborted"@)
                &&& final(frame_ctx)@ == old(frame_ctx)@
                &&& ((*old(frame_data)) is Some ==> final(core)@ == old(core)@.spec_free_obj(
                    ((*old(frame_data))->0).0@,
                ))
                &&& ((*old(frame_data)) is None ==> final(core)@ == old(core)@)
            }),
    {
        proof {
            use_type_invariant(self);
        }
        match activation_reason {
            VSActivationReason::Initial => {
                if n < 0 {
                    return Err("Splice: a negative frame number was requested".to_owned());
                }
                // Map the output frame number onto the input it falls in.
                let (idx, frame) = pick_segment(&self.num_frames, n);
                proof {
                    assert(self.spec_nodes()[idx as int] == self.nodes@[idx as int]@);
                }
                let node_clone = core.clone_node(&self.nodes[idx]);
                *frame_data = Some((node_clone, frame));
                frame_ctx.request_frame_filter(frame, &self.nodes[idx]);
                Ok(None)
            },
            VSActivationReason::AllFramesReady => {
                let mut taken: Option<(VideoNode, i32)> = None;
                core::mem::swap(frame_data, &mut taken);
                match taken {
                    Some((node, frame)) => {
                        let got = frame_ctx.get_frame_filter(frame, &node);
                        core.free_node(node);
                        match got {
                            Some(f) => Ok(Some(f)),
                            None => Err("Splice: the requested frame is missing".to_owned()),
                        }
                    },
                    None => Err("Splice: the per-frame state is missing".to_owned()),
                }
            },
            VSActivationReason::Error => {
                // Release the scratch state at once: the request is over.
                let mut taken: Option<(VideoNode, i32)> = None;
                core::mem::swap(frame_data, &mut taken);
                match taken {
                    Some((node, _)) => {
                        core.free_node(node);
                    },
                    None => {},
                }
                Err("Aborted".to_owned())
            },
        }
    }

    fn free(self, core: &mut Core) {
        release_nodes(core, self.nodes);
    }
}

/// A filter that hands its input clip on at another bit depth. Its
/// optional `bits` argument names the target depth; left unbound, the
/// documented default of sixteen bits is used.
pub struct DitherFilter {
    node: VideoNode,
}

impl crate::host::Filter for DitherFilter {
    type FilterData = ();

    type FrameData = ();

    open spec fn spec_name() -> Seq<char> {
        "Depth"@
    }

    open spec fn spec_args() -> Seq<ArgModel> {
        seq![
            ArgModel { name: "clip"@, ty: Type::VNode, opt: false },
            ArgModel { name: "bits"@, ty: Type::Int, opt: true },
        ]
    }

    open spec fn spec_return_type() -> Seq<ArgModel> {
        seq![ArgModel { name: "clip"@, ty: Type::VNode, opt: false }]
    }

    fn name() -> (r: String) {
        "Depth".to_owned()
    }

    fn args() -> (r: Vec<ArgSpec>) {
        proof {
            reveal_strlit("clip");
            reveal_strlit("bits");
            assert(is_valid_key("clip"@));
            assert(is_valid_key("bits"@));
        }
        let mut v: Vec<ArgSpec> = Vec::new();
        v.push(ArgSpec::new(Key::from_checked("clip"), Type::VNode, false));
        v.push(ArgSpec::new(Key::from_checked("bits"), Type::Int, true));
        proof {
            assert(crate::plugin::args_view(v@) =~= Self::spec_args());
        }
        v
    }

    fn return_type() -> (r: Vec<ArgSpec>) {
        proof {
            reveal_strlit("clip");
            assert(is_valid_key("clip"@));
        }
        let mut v: Vec<ArgSpec> = Vec::new();
        v.push(ArgSpec::new(Key::from_checked("clip"), Type::VNode, false));
        proof {
            assert(crate::plugin::args_view(v@) =~= Self::spec_return_type());
        }
        v
    }

    fn filter_mode() -> FilterMode {
        FilterMode::Parallel
    }

    fn create(
        input: &VsMap,
        output: &mut VsMap,
        data: Option<()>,
        host: &mut Host<Self>,
    ) -> (r: Result<(), String>)
        ensures
            ({
                let m = input@;
                let c0 = old(host)@.core;
                let g = spec_get_tagged(m, "clip"@, 0, VSPropertyType::VideoNode);
                let cid = g->Ok_0->VideoNode_0;
                let bits = spec_bits_or_default(m, "bits"@);
                let vi = c0.video_info_of(cid);
                let accepted = g is Ok && g->Ok_0 is VideoNode && c0.is_video_node(cid)
                    && valid_format_args(
                    vi.format.color_family,
                    vi.format.sample_type,
                    bits,
                    vi.format.sub_sampling_w as int,
                    vi.format.sub_sampling_h as int,
                ) && c0.objects.len() < u64::MAX;
                let q = spec_query_video_format(
                    vi.format.color_family,
                    vi.format.sample_type,
                    bits,
                    vi.format.sub_sampling_w as int,
                    vi.format.sub_sampling_h as int,
                );
                let nid = c0.objects.len() as int;
                &&& (accepted ==> {
                    &&& r is Ok
                    &&& final(host)@.core.objects.len() == nid + 1
                    &&& final(host)@.core.video_info_of(nid) == (VSVideoInfo { format: q, ..vi })
                    &&& final(host)@.core.deps_of(nid) == seq![
                        FilterDependency {
                            source: cid as u64,
                            request_pattern: RequestPattern::StrictSpatial,
                        },
                    ]
                    &&& final(host)@.instances == old(host)@.instances.push((nid as u64, true))
                    &&& final(output)@ == spec_set(
                        old(output)@,
                        "clip"@,
                        ValueModel::VideoNode(nid),
                        VSMapAppendMode::Append,
                    )
                })
                &&& (!accepted ==> r is Err || final(output)@.error is Some)
            }),
    {
        let _ = data;
        proof {
            reveal_strlit("clip");
            reveal_strlit("bits");
            assert(is_valid_key("clip"@));
            assert(is_valid_key("bits"@));
        }
        let clip_key = Key::from_checked("clip");
        let node = match input.get_video_node(&clip_key, 0, host.core_mut()) {
            Ok(n) => n,
            Err(_) => {
                return Err("Failed to get clip".to_owned());
            },
        };
        proof {
            crate::vscore::lemma_clone_obj_preserves(old(host)@.core, node@);
        }
        let vi = match host.core_ref().video_node_info(&node) {
            Some(v) => v,
            None => {
                host.core_mut().free_node(node);
                return Err("Failed to get clip".to_owned());
            },
        };
        // The documented default for the optional bit depth is sixteen.
        let bits_key = Key::from_checked("bits");
        let bits = bits_or_default(input, &bits_key);
        let q = host.core_ref().query_video_format(
            vi.format.color_family,
            vi.format.sample_type,
            bits,
            vi.format.sub_sampling_w,
            vi.format.sub_sampling_h,
        );
        if q.num_planes == 0 {
            host.core_mut().free_node(node);
            return Err("Depth: the clip cannot be converted to this depth".to_owned());
        }
        let mut vi2 = vi;
        vi2.format = q;
        let mut deps_vec: Vec<FilterDependency> = Vec::new();
        deps_vec.push(
            FilterDependency { source: node.id(), request_pattern: RequestPattern::StrictSpatial },
        );
        proof {
            assert(deps_vec@ =~= seq![
                FilterDependency {
                    source: node@ as u64,
                    request_pattern: RequestPattern::StrictSpatial,
                },
            ]);
        }
        let deps = match Dependencies::new(deps_vec) {
            Some(d) => d,
            None => vstd::pervasive::unreached(),
        };
        let filter = DitherFilter { node };
        host.create_video_filter(output, "Depth", &vi2, filter, &deps);
        Ok(())
    }

    fn get_frame(
        &self,
        n: i32,
        activation_reason: ActivationReason,
        frame_data: &mut Option<()>,
        frame_ctx: &mut FrameContext,
        core: &mut Core,
    ) -> (r: Result<Option<VideoFrame>, String>) {
        let _ = frame_data;
        match activation_reason {
            VSActivationReason::Initial => {
                frame_ctx.request_frame_filter(n, &self.node);
                Ok(None)
            },
            VSActivationReason::AllFramesReady => {
                let src = match frame_ctx.get_frame_filter(n, &self.node) {
                    Some(f) => f,
                    None => {
                        return Err("Depth: the requested frame is missing".to_owned());
                    },
                };
                if !((core.num_objects() as u64) < u64::MAX) {
                    core.free_frame(src);
                    return Err("Depth: the core cannot hold another object".to_owned());
                }
                let dst = core.copy_frame(&src);
                core.free_frame(src);
                match dst {
                    Some(f) => Ok(Some(f)),
                    None => Err("Depth: the source frame is gone".to_owned()),
                }
            },
            VSActivationReason::Error => Ok(None),
        }
    }

    fn free(self, core: &mut Core) {
        core.free_node(self.node);
    }
}

/// Pushing one more count adds it to the sum.
proof fn lemma_sum_push(s: Seq<i32>, x: i32)
    ensures
        spec_sum(s.push(x)) == spec_sum(s) + x,
    decreases s.len(),
{
    if s.len() == 0 {
        let e = s.push(x).drop_first();
        assert(e =~= Seq::<i32>::empty());
        assert(spec_sum(e) == 0);
        assert(s.push(x)[0] == x);
        assert(spec_sum(s.push(x)) == x + spec_sum(e));
    } else {
        lemma_sum_push(s.drop_first(), x);
        assert(s.push(x).drop_first() =~= s.drop_first().push(x));
        assert(s.push(x)[0] == s[0]);
        assert(spec_sum(s.push(x)) == s[0] + spec_sum(s.drop_first().push(x)));
    }
}

} // verus!
