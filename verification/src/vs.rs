//! The host's wire-level data model: the closed sets of tags, modes and
//! flags the host understands, and the plain format/info records attached
//! to clips and cores. Where the host assigns a fixed integer code to a
//! name, a `code` method states it.

use vstd::prelude::*;

verus! {

/// Major API version of the modeled host protocol.
pub const VAPOURSYNTH_API_MAJOR: u16 = 4;

/// Minor API version of the modeled host protocol.
pub const VAPOURSYNTH_API_MINOR: u16 = 0;

/// Packed API version: major in the high 16 bits, minor in the low 16 bits.
pub const VAPOURSYNTH_API_VERSION: i32 = 4 * 0x10000 + 0;

/// The number of audio samples in an audio frame. It is a static number to
/// make it possible to calculate which audio frames are needed to retrieve
/// specific samples.
pub const VS_AUDIO_FRAME_SAMPLES: i32 = 3072;

/// Colour family of a video format.
#[derive(Copy, Clone, PartialEq, Eq, Structural, Debug, Hash)]
pub enum VSColorFamily {
    Undefined,
    Gray,
    RGB,
    YUV,
}

impl VSColorFamily {
    /// The integer code the host assigns to this family.
    pub open spec fn spec_code(self) -> int {
        match self {
            VSColorFamily::Undefined => 0,
            VSColorFamily::Gray => 1,
            VSColorFamily::RGB => 2,
            VSColorFamily::YUV => 3,
        }
    }

    /// The integer code the host assigns to this family.
    pub fn code(self) -> (r: i32)
        ensures
            r == self.spec_code(),
    {
        match self {
            VSColorFamily::Undefined => 0,
            VSColorFamily::Gray => 1,
            VSColorFamily::RGB => 2,
            VSColorFamily::YUV => 3,
        }
    }

    /// Number of planes a clip of this family carries.
    pub open spec fn spec_num_planes(self) -> int {
        match self {
            VSColorFamily::Undefined => 0,
            VSColorFamily::Gray => 1,
            VSColorFamily::RGB => 3,
            VSColorFamily::YUV => 3,
        }
    }

    /// Number of planes a clip of this family carries.
    pub fn num_planes(self) -> (r: i32)
        ensures
            r == self.spec_num_planes(),
    {
        match self {
            VSColorFamily::Undefined => 0,
            VSColorFamily::Gray => 1,
            VSColorFamily::RGB => 3,
            VSColorFamily::YUV => 3,
        }
    }
}

/// Whether samples are integers or floating point numbers.
#[derive(Copy, Clone, PartialEq, Eq, Structural, Debug, Hash)]
pub enum VSSampleType {
    Integer,
    Float,
}

impl VSSampleType {
    /// The integer code the host assigns to this sample type.
    pub open spec fn spec_code(self) -> int {
        match self {
            VSSampleType::Integer => 0,
            VSSampleType::Float => 1,
        }
    }

    /// The integer code the host assigns to this sample type.
    pub fn code(self) -> (r: i32)
        ensures
            r == self.spec_code(),
    {
        match self {
            VSSampleType::Integer => 0,
            VSSampleType::Float => 1,
        }
    }
}

/// The packed format id of a video format: the colour family in bits 28..,
/// the sample type in bits 24.., the bit depth in bits 16.., and the two
/// subsampling factors in bits 8.. and 0...
pub open spec fn spec_video_id(
    cf: VSColorFamily,
    st: VSSampleType,
    bits: int,
    ssw: int,
    ssh: int,
) -> int {
    cf.spec_code() * 0x10000000 + st.spec_code() * 0x1000000 + bits * 0x10000 + ssw * 0x100 + ssh
}

/// Packs a video format description into the host's format id.
pub fn vs_make_video_id(
    color_family: VSColorFamily,
    sample_type: VSSampleType,
    bits_per_sample: i32,
    sub_sampling_w: i32,
    sub_sampling_h: i32,
) -> (r: i32)
    requires
        0 <= bits_per_sample <= 0xff,
        0 <= sub_sampling_w <= 0xff,
        0 <= sub_sampling_h <= 0xff,
    ensures
        r == spec_video_id(
            color_family,
            sample_type,
            bits_per_sample as int,
            sub_sampling_w as int,
            sub_sampling_h as int,
        ),
{
    color_family.code() * 0x10000000 + sample_type.code() * 0x1000000 + bits_per_sample * 0x10000
        + sub_sampling_w * 0x100 + sub_sampling_h
}

/// Controls how a filter will be multithreaded, if at all.
#[derive(Copy, Clone, PartialEq, Eq, Structural, Debug, Hash)]
pub enum VSFilterMode {
    /// Completely parallel execution: several frame numbers may be active in
    /// both phases at once, on different threads.
    Parallel,
    /// Request-issuing calls may overlap across frame numbers; the
    /// result-producing calls are serialized by the host.
    ParallelRequests,
    /// At most one call active at a time; the order of calls across frame
    /// numbers is unspecified.
    Unordered,
    /// Fully serialized, in request order. Kept for compatibility only.
    FrameState,
}

/// Used to indicate the type of a frame or node object.
#[derive(Copy, Clone, PartialEq, Eq, Structural, Debug, Hash)]
pub enum VSMediaType {
    Video,
    Audio,
}

/// Describes the format of a video clip.
#[derive(Copy, Clone, PartialEq, Eq, Structural, Debug, Hash)]
pub struct VSVideoFormat {
    pub color_family: VSColorFamily,
    pub sample_type: VSSampleType,
    /// Number of significant bits.
    pub bits_per_sample: i32,
    /// Number of bytes needed for a sample: the smallest power of two that
    /// can fit the number of bits used per sample.
    pub bytes_per_sample: i32,
    /// log2 subsampling factor, applied to the second and third plane.
    pub sub_sampling_w: i32,
    /// log2 subsampling factor, applied to the second and third plane.
    pub sub_sampling_h: i32,
    /// Number of planes, implicit from the colour family.
    pub num_planes: i32,
}

/// Describes the format of an audio clip.
#[derive(Copy, Clone, PartialEq, Eq, Structural, Debug, Hash)]
pub struct VSAudioFormat {
    pub sample_type: VSSampleType,
    /// Number of significant bits.
    pub bits_per_sample: i32,
    /// Number of bytes needed for a sample: the smallest power of two that
    /// can fit the number of bits used per sample.
    pub bytes_per_sample: i32,
    /// Number of audio channels, implicit from the channel layout.
    pub num_channels: i32,
    /// A bitmask of the channels present: bit `c` is set when the channel
    /// with code `c` is present.
    pub channel_layout: u64,
}

/// Types of properties that can be stored in a map.
#[derive(Copy, Clone, PartialEq, Eq, Structural, Debug, Hash)]
pub enum VSPropertyType {
    Unset,
    Int,
    Float,
    Data,
    Function,
    VideoNode,
    AudioNode,
    VideoFrame,
    AudioFrame,
}

/// The host's wire-level codes for a failed map read.
#[derive(Copy, Clone, PartialEq, Eq, Structural, Debug, Hash)]
pub enum VSMapPropertyError {
    Success,
    /// The requested key was not found in the map.
    Unset,
    /// The wrong accessor was used to retrieve the property.
    Type,
    /// The requested index was out of bounds.
    Index,
    /// The map has its error state set.
    Error,
}

/// Controls the behaviour of the map setters.
#[derive(Copy, Clone, PartialEq, Eq, Structural, Debug, Hash)]
pub enum VSMapAppendMode {
    /// All existing values associated with the key are replaced.
    Replace,
    /// The new value is appended to the values associated with the key.
    Append,
}

/// Contains information about a core instance.
#[derive(Clone, PartialEq, Eq, Debug, Hash)]
pub struct VSCoreInfo {
    /// Printable name and version of the library.
    pub version_string: String,
    /// Version of the core.
    pub core: i32,
    /// Version of the API.
    pub api: i32,
    /// Number of worker threads.
    pub num_threads: i32,
    /// The frame buffer cache will be allowed to grow up to this size
    /// (bytes) before memory is aggressively reclaimed.
    pub max_framebuffer_size: i64,
    /// Current size of the frame buffer cache, in bytes.
    pub used_framebuffer_size: i64,
}

/// Contains information about a video clip.
#[derive(Copy, Clone, PartialEq, Eq, Structural, Debug, Hash)]
pub struct VSVideoInfo {
    /// Format of the clip; the colour family is `Undefined` when the format
    /// can vary.
    pub format: VSVideoFormat,
    /// Numerator part of the clip's frame rate, zero when it can vary.
    pub fps_num: i64,
    /// Denominator part of the clip's frame rate, zero when it can vary.
    pub fps_den: i64,
    /// Width of the clip; zero when the dimensions can vary.
    pub width: i32,
    /// Height of the clip; zero when the dimensions can vary.
    pub height: i32,
    /// Length of the clip in frames.
    pub num_frames: i32,
}

/// Contains information about an audio clip.
#[derive(Copy, Clone, PartialEq, Eq, Structural, Debug, Hash)]
pub struct VSAudioInfo {
    /// Format of the clip; audio formats never change.
    pub format: VSAudioFormat,
    /// Sample rate.
    pub sample_rate: i32,
    /// Length of the clip in audio samples.
    pub num_samples: i64,
    /// Length of the clip in audio frames, implicit from the sample count.
    pub num_frames: i32,
}

/// The phase marker handed to a filter's frame-producing call.
#[derive(Copy, Clone, PartialEq, Eq, Structural, Debug, Hash)]
pub enum VSActivationReason {
    /// First call for a frame number: upstream requests may be issued, no
    /// result is produced.
    Initial,
    /// All requested upstream frames are retrievable without blocking: a
    /// result must be produced or a failure reported.
    AllFramesReady,
    /// An upstream request failed; terminal for this frame number.
    Error,
}

/// Severity of a logged message.
#[derive(Copy, Clone, PartialEq, Eq, Structural, Debug, Hash)]
pub enum VSMessageType {
    Debug,
    Information,
    Warning,
    Critical,
    Fatal,
}

/// Options when creating a core.
#[derive(Copy, Clone, PartialEq, Eq, Structural, Debug, Hash)]
pub enum VSCoreCreationFlags {
    /// Required to use the graph inspection functions.
    EnableGraphInspection,
    /// Don't autoload any user plugins.
    DisableAutoLoading,
    /// Don't unload plugin libraries when the core is destroyed.
    DisableLibraryUnloading,
}

impl VSCoreCreationFlags {
    /// The flag bit the host assigns to this option.
    pub open spec fn spec_code(self) -> int {
        match self {
            VSCoreCreationFlags::EnableGraphInspection => 1,
            VSCoreCreationFlags::DisableAutoLoading => 2,
            VSCoreCreationFlags::DisableLibraryUnloading => 4,
        }
    }

    /// The flag bit the host assigns to this option.
    pub fn code(self) -> (r: i32)
        ensures
            r == self.spec_code(),
    {
        match self {
            VSCoreCreationFlags::EnableGraphInspection => 1,
            VSCoreCreationFlags::DisableAutoLoading => 2,
            VSCoreCreationFlags::DisableLibraryUnloading => 4,
        }
    }
}

/// Options when loading a plugin.
#[derive(Copy, Clone, PartialEq, Eq, Structural, Debug, Hash)]
pub enum VSPluginConfigFlags {
    /// Allow functions to be added to the plugin object after the plugin
    /// loading phase.
    Modifiable,
}

/// A hint stored with binary properties: whether the payload is printable.
#[derive(Copy, Clone, PartialEq, Eq, Structural, Debug, Hash)]
pub enum VSDataTypeHint {
    Unknown,
    Binary,
    Utf8,
}

/// Describes the upstream frame request pattern of a filter. A caching
/// hint for the host, not an access restriction enforced by this layer.
#[derive(Copy, Clone, PartialEq, Eq, Structural, Debug, Hash)]
pub enum VSRequestPattern {
    /// Anything goes.
    General,
    /// Will request each input frame at most once when all output frames
    /// are requested exactly once.
    NoFrameReuse,
    /// Only requests frame N to output frame N.
    StrictSpatial,
}

/// Describes how the output of a node is cached.
#[derive(Copy, Clone, PartialEq, Eq, Structural, Debug, Hash)]
pub enum VSCacheMode {
    /// Cache is enabled or disabled based on the reported request patterns
    /// and number of consumers.
    Auto,
    /// Never cache anything.
    ForceDisable,
    /// Always use the cache.
    ForceEnable,
}

/// One upstream dependency of a filter node: the source node and the
/// pattern in which its frames will be requested.
#[derive(Copy, Clone, PartialEq, Eq, Structural, Debug, Hash)]
pub struct VSFilterDependency {
    /// Object id of the source node.
    pub source: u64,
    /// How frames of the source will be requested.
    pub request_pattern: VSRequestPattern,
}


/// The preset video formats the host knows by name. The presets suffixed
/// with H and S have floating point sample type, standing for half and
/// single precision; all formats are planar.
#[derive(Copy, Clone, PartialEq, Eq, Structural, Debug, Hash)]
pub enum VSPresetVideoFormat {
    NoFormat,
    Gray8,
    Gray9,
    Gray10,
    Gray12,
    Gray14,
    Gray16,
    Gray32,
    GrayH,
    GrayS,
    YUV410P8,
    YUV411P8,
    YUV440P8,
    YUV420P8,
    YUV422P8,
    YUV444P8,
    YUV420P9,
    YUV422P9,
    YUV444P9,
    YUV420P10,
    YUV422P10,
    YUV444P10,
    YUV420P12,
    YUV422P12,
    YUV444P12,
    YUV420P14,
    YUV422P14,
    YUV444P14,
    YUV420P16,
    YUV422P16,
    YUV444P16,
    YUV420PH,
    YUV420PS,
    YUV422PH,
    YUV422PS,
    YUV444PH,
    YUV444PS,
    RGB24,
    RGB27,
    RGB30,
    RGB36,
    RGB42,
    RGB48,
    RGBH,
    RGBS,
}

impl VSPresetVideoFormat {
    /// The format description this preset names: colour family, sample
    /// type, bit depth, and the two subsampling factors.
    pub open spec fn spec_format_args(self) -> (VSColorFamily, VSSampleType, int, int, int) {
        match self {
            VSPresetVideoFormat::NoFormat => (VSColorFamily::Undefined, VSSampleType::Integer, 0, 0, 0),
            VSPresetVideoFormat::Gray8 => (VSColorFamily::Gray, VSSampleType::Integer, 8, 0, 0),
            VSPresetVideoFormat::Gray9 => (VSColorFamily::Gray, VSSampleType::Integer, 9, 0, 0),
            VSPresetVideoFormat::Gray10 => (VSColorFamily::Gray, VSSampleType::Integer, 10, 0, 0),
            VSPresetVideoFormat::Gray12 => (VSColorFamily::Gray, VSSampleType::Integer, 12, 0, 0),
            VSPresetVideoFormat::Gray14 => (VSColorFamily::Gray, VSSampleType::Integer, 14, 0, 0),
            VSPresetVideoFormat::Gray16 => (VSColorFamily::Gray, VSSampleType::Integer, 16, 0, 0),
            VSPresetVideoFormat::Gray32 => (VSColorFamily::Gray, VSSampleType::Integer, 32, 0, 0),
            VSPresetVideoFormat::GrayH => (VSColorFamily::Gray, VSSampleType::Float, 16, 0, 0),
            VSPresetVideoFormat::GrayS => (VSColorFamily::Gray, VSSampleType::Float, 32, 0, 0),
            VSPresetVideoFormat::YUV410P8 => (VSColorFamily::YUV, VSSampleType::Integer, 8, 2, 2),
            VSPresetVideoFormat::YUV411P8 => (VSColorFamily::YUV, VSSampleType::Integer, 8, 2, 0),
            VSPresetVideoFormat::YUV440P8 => (VSColorFamily::YUV, VSSampleType::Integer, 8, 0, 1),
            VSPresetVideoFormat::YUV420P8 => (VSColorFamily::YUV, VSSampleType::Integer, 8, 1, 1),
            VSPresetVideoFormat::YUV422P8 => (VSColorFamily::YUV, VSSampleType::Integer, 8, 1, 0),
            VSPresetVideoFormat::YUV444P8 => (VSColorFamily::YUV, VSSampleType::Integer, 8, 0, 0),
            VSPresetVideoFormat::YUV420P9 => (VSColorFamily::YUV, VSSampleType::Integer, 9, 1, 1),
            VSPresetVideoFormat::YUV422P9 => (VSColorFamily::YUV, VSSampleType::Integer, 9, 1, 0),
            VSPresetVideoFormat::YUV444P9 => (VSColorFamily::YUV, VSSampleType::Integer, 9, 0, 0),
            VSPresetVideoFormat::YUV420P10 => (VSColorFamily::YUV, VSSampleType::Integer, 10, 1, 1),
            VSPresetVideoFormat::YUV422P10 => (VSColorFamily::YUV, VSSampleType::Integer, 10, 1, 0),
            VSPresetVideoFormat::YUV444P10 => (VSColorFamily::YUV, VSSampleType::Integer, 10, 0, 0),
            VSPresetVideoFormat::YUV420P12 => (VSColorFamily::YUV, VSSampleType::Integer, 12, 1, 1),
            VSPresetVideoFormat::YUV422P12 => (VSColorFamily::YUV, VSSampleType::Integer, 12, 1, 0),
            VSPresetVideoFormat::YUV444P12 => (VSColorFamily::YUV, VSSampleType::Integer, 12, 0, 0),
            VSPresetVideoFormat::YUV420P14 => (VSColorFamily::YUV, VSSampleType::Integer, 14, 1, 1),
            VSPresetVideoFormat::YUV422P14 => (VSColorFamily::YUV, VSSampleType::Integer, 14, 1, 0),
            VSPresetVideoFormat::YUV444P14 => (VSColorFamily::YUV, VSSampleType::Integer, 14, 0, 0),
            VSPresetVideoFormat::YUV420P16 => (VSColorFamily::YUV, VSSampleType::Integer, 16, 1, 1),
            VSPresetVideoFormat::YUV422P16 => (VSColorFamily::YUV, VSSampleType::Integer, 16, 1, 0),
            VSPresetVideoFormat::YUV444P16 => (VSColorFamily::YUV, VSSampleType::Integer, 16, 0, 0),
            VSPresetVideoFormat::YUV420PH => (VSColorFamily::YUV, VSSampleType::Float, 16, 1, 1),
            VSPresetVideoFormat::YUV420PS => (VSColorFamily::YUV, VSSampleType::Float, 32, 1, 1),
            VSPresetVideoFormat::YUV422PH => (VSColorFamily::YUV, VSSampleType::Float, 16, 1, 0),
            VSPresetVideoFormat::YUV422PS => (VSColorFamily::YUV, VSSampleType::Float, 32, 1, 0),
            VSPresetVideoFormat::YUV444PH => (VSColorFamily::YUV, VSSampleType::Float, 16, 0, 0),
            VSPresetVideoFormat::YUV444PS => (VSColorFamily::YUV, VSSampleType::Float, 32, 0, 0),
            VSPresetVideoFormat::RGB24 => (VSColorFamily::RGB, VSSampleType::Integer, 8, 0, 0),
            VSPresetVideoFormat::RGB27 => (VSColorFamily::RGB, VSSampleType::Integer, 9, 0, 0),
            VSPresetVideoFormat::RGB30 => (VSColorFamily::RGB, VSSampleType::Integer, 10, 0, 0),
            VSPresetVideoFormat::RGB36 => (VSColorFamily::RGB, VSSampleType::Integer, 12, 0, 0),
            VSPresetVideoFormat::RGB42 => (VSColorFamily::RGB, VSSampleType::Integer, 14, 0, 0),
            VSPresetVideoFormat::RGB48 => (VSColorFamily::RGB, VSSampleType::Integer, 16, 0, 0),
            VSPresetVideoFormat::RGBH => (VSColorFamily::RGB, VSSampleType::Float, 16, 0, 0),
            VSPresetVideoFormat::RGBS => (VSColorFamily::RGB, VSSampleType::Float, 32, 0, 0),
        }
    }

    /// The format description this preset names.
    pub fn format_args(self) -> (r: (VSColorFamily, VSSampleType, i32, i32, i32))
        ensures
            (r.0, r.1, r.2 as int, r.3 as int, r.4 as int) == self.spec_format_args(),
    {
        match self {
            VSPresetVideoFormat::NoFormat => (VSColorFamily::Undefined, VSSampleType::Integer, 0, 0, 0),
            VSPresetVideoFormat::Gray8 => (VSColorFamily::Gray, VSSampleType::Integer, 8, 0, 0),
            VSPresetVideoFormat::Gray9 => (VSColorFamily::Gray, VSSampleType::Integer, 9, 0, 0),
            VSPresetVideoFormat::Gray10 => (VSColorFamily::Gray, VSSampleType::Integer, 10, 0, 0),
            VSPresetVideoFormat::Gray12 => (VSColorFamily::Gray, VSSampleType::Integer, 12, 0, 0),
            VSPresetVideoFormat::Gray14 => (VSColorFamily::Gray, VSSampleType::Integer, 14, 0, 0),
            VSPresetVideoFormat::Gray16 => (VSColorFamily::Gray, VSSampleType::Integer, 16, 0, 0),
            VSPresetVideoFormat::Gray32 => (VSColorFamily::Gray, VSSampleType::Integer, 32, 0, 0),
            VSPresetVideoFormat::GrayH => (VSColorFamily::Gray, VSSampleType::Float, 16, 0, 0),
            VSPresetVideoFormat::GrayS => (VSColorFamily::Gray, VSSampleType::Float, 32, 0, 0),
            VSPresetVideoFormat::YUV410P8 => (VSColorFamily::YUV, VSSampleType::Integer, 8, 2, 2),
            VSPresetVideoFormat::YUV411P8 => (VSColorFamily::YUV, VSSampleType::Integer, 8, 2, 0),
            VSPresetVideoFormat::YUV440P8 => (VSColorFamily::YUV, VSSampleType::Integer, 8, 0, 1),
            VSPresetVideoFormat::YUV420P8 => (VSColorFamily::YUV, VSSampleType::Integer, 8, 1, 1),
            VSPresetVideoFormat::YUV422P8 => (VSColorFamily::YUV, VSSampleType::Integer, 8, 1, 0),
            VSPresetVideoFormat::YUV444P8 => (VSColorFamily::YUV, VSSampleType::Integer, 8, 0, 0),
            VSPresetVideoFormat::YUV420P9 => (VSColorFamily::YUV, VSSampleType::Integer, 9, 1, 1),
            VSPresetVideoFormat::YUV422P9 => (VSColorFamily::YUV, VSSampleType::Integer, 9, 1, 0),
            VSPresetVideoFormat::YUV444P9 => (VSColorFamily::YUV, VSSampleType::Integer, 9, 0, 0),
            VSPresetVideoFormat::YUV420P10 => (VSColorFamily::YUV, VSSampleType::Integer, 10, 1, 1),
            VSPresetVideoFormat::YUV422P10 => (VSColorFamily::YUV, VSSampleType::Integer, 10, 1, 0),
            VSPresetVideoFormat::YUV444P10 => (VSColorFamily::YUV, VSSampleType::Integer, 10, 0, 0),
            VSPresetVideoFormat::YUV420P12 => (VSColorFamily::YUV, VSSampleType::Integer, 12, 1, 1),
            VSPresetVideoFormat::YUV422P12 => (VSColorFamily::YUV, VSSampleType::Integer, 12, 1, 0),
            VSPresetVideoFormat::YUV444P12 => (VSColorFamily::YUV, VSSampleType::Integer, 12, 0, 0),
            VSPresetVideoFormat::YUV420P14 => (VSColorFamily::YUV, VSSampleType::Integer, 14, 1, 1),
            VSPresetVideoFormat::YUV422P14 => (VSColorFamily::YUV, VSSampleType::Integer, 14, 1, 0),
            VSPresetVideoFormat::YUV444P14 => (VSColorFamily::YUV, VSSampleType::Integer, 14, 0, 0),
            VSPresetVideoFormat::YUV420P16 => (VSColorFamily::YUV, VSSampleType::Integer, 16, 1, 1),
            VSPresetVideoFormat::YUV422P16 => (VSColorFamily::YUV, VSSampleType::Integer, 16, 1, 0),
            VSPresetVideoFormat::YUV444P16 => (VSColorFamily::YUV, VSSampleType::Integer, 16, 0, 0),
            VSPresetVideoFormat::YUV420PH => (VSColorFamily::YUV, VSSampleType::Float, 16, 1, 1),
            VSPresetVideoFormat::YUV420PS => (VSColorFamily::YUV, VSSampleType::Float, 32, 1, 1),
            VSPresetVideoFormat::YUV422PH => (VSColorFamily::YUV, VSSampleType::Float, 16, 1, 0),
            VSPresetVideoFormat::YUV422PS => (VSColorFamily::YUV, VSSampleType::Float, 32, 1, 0),
            VSPresetVideoFormat::YUV444PH => (VSColorFamily::YUV, VSSampleType::Float, 16, 0, 0),
            VSPresetVideoFormat::YUV444PS => (VSColorFamily::YUV, VSSampleType::Float, 32, 0, 0),
            VSPresetVideoFormat::RGB24 => (VSColorFamily::RGB, VSSampleType::Integer, 8, 0, 0),
            VSPresetVideoFormat::RGB27 => (VSColorFamily::RGB, VSSampleType::Integer, 9, 0, 0),
            VSPresetVideoFormat::RGB30 => (VSColorFamily::RGB, VSSampleType::Integer, 10, 0, 0),
            VSPresetVideoFormat::RGB36 => (VSColorFamily::RGB, VSSampleType::Integer, 12, 0, 0),
            VSPresetVideoFormat::RGB42 => (VSColorFamily::RGB, VSSampleType::Integer, 14, 0, 0),
            VSPresetVideoFormat::RGB48 => (VSColorFamily::RGB, VSSampleType::Integer, 16, 0, 0),
            VSPresetVideoFormat::RGBH => (VSColorFamily::RGB, VSSampleType::Float, 16, 0, 0),
            VSPresetVideoFormat::RGBS => (VSColorFamily::RGB, VSSampleType::Float, 32, 0, 0),
        }
    }

    /// The packed format id of this preset; zero for `None`.
    pub fn id(self) -> (r: i32)
        ensures
            self is NoFormat ==> r == 0,
            !(self is NoFormat) ==> ({
                let (cf, st, bits, ssw, ssh) = self.spec_format_args();
                r == spec_video_id(cf, st, bits, ssw, ssh)
            }),
    {
        if matches!(self, VSPresetVideoFormat::NoFormat) {
            0
        } else {
            let (cf, st, bits, ssw, ssh) = self.format_args();
            vs_make_video_id(cf, st, bits, ssw, ssh)
        }
    }
}


/// The colour range a frame's samples use, as a frame property.
#[derive(Copy, Clone, PartialEq, Eq, Structural, Debug, Hash)]
pub enum VSColorRange {
    RangeFull,
    RangeLimited,
}

impl VSColorRange {
    /// The integer code the host assigns to this name.
    pub open spec fn spec_code(self) -> int {
        match self {
            VSColorRange::RangeFull => 0,
            VSColorRange::RangeLimited => 1,
        }
    }

    /// The integer code the host assigns to this name.
    pub fn code(self) -> (r: i32)
        ensures
            r == self.spec_code(),
    {
        match self {
            VSColorRange::RangeFull => 0,
            VSColorRange::RangeLimited => 1,
        }
    }
}


/// The siting of chroma samples, as a frame property.
#[derive(Copy, Clone, PartialEq, Eq, Structural, Debug, Hash)]
pub enum VSChromaLocation {
    Left,
    Center,
    TopLeft,
    Top,
    BottomLeft,
    Bottom,
}

impl VSChromaLocation {
    /// The integer code the host assigns to this name.
    pub open spec fn spec_code(self) -> int {
        match self {
            VSChromaLocation::Left => 0,
            VSChromaLocation::Center => 1,
            VSChromaLocation::TopLeft => 2,
            VSChromaLocation::Top => 3,
            VSChromaLocation::BottomLeft => 4,
            VSChromaLocation::Bottom => 5,
        }
    }

    /// The integer code the host assigns to this name.
    pub fn code(self) -> (r: i32)
        ensures
            r == self.spec_code(),
    {
        match self {
            VSChromaLocation::Left => 0,
            VSChromaLocation::Center => 1,
            VSChromaLocation::TopLeft => 2,
            VSChromaLocation::Top => 3,
            VSChromaLocation::BottomLeft => 4,
            VSChromaLocation::Bottom => 5,
        }
    }
}


/// Whether a frame is progressive or field based, as a frame property.
#[derive(Copy, Clone, PartialEq, Eq, Structural, Debug, Hash)]
pub enum VSFieldBased {
    Progressive,
    BottomFieldFirst,
    TopFieldFirst,
}

impl VSFieldBased {
    /// The integer code the host assigns to this name.
    pub open spec fn spec_code(self) -> int {
        match self {
            VSFieldBased::Progressive => 0,
            VSFieldBased::BottomFieldFirst => 1,
            VSFieldBased::TopFieldFirst => 2,
        }
    }

    /// The integer code the host assigns to this name.
    pub fn code(self) -> (r: i32)
        ensures
            r == self.spec_code(),
    {
        match self {
            VSFieldBased::Progressive => 0,
            VSFieldBased::BottomFieldFirst => 1,
            VSFieldBased::TopFieldFirst => 2,
        }
    }
}


/// The matrix coefficients of a clip's colour encoding, as a frame property.
#[derive(Copy, Clone, PartialEq, Eq, Structural, Debug, Hash)]
pub enum VSMatrixCoefficients {
    Rgb,
    Bt709,
    Unspecified,
    Fcc,
    Bt470Bg,
    St170M,
    St240M,
    YCgCo,
    Bt2020Ncl,
    Bt2020Cl,
    ChromaticityDerivedNcl,
    ChromaticityDerivedCl,
    ICtCp,
}

impl VSMatrixCoefficients {
    /// The integer code the host assigns to this name.
    pub open spec fn spec_code(self) -> int {
        match self {
            VSMatrixCoefficients::Rgb => 0,
            VSMatrixCoefficients::Bt709 => 1,
            VSMatrixCoefficients::Unspecified => 2,
            VSMatrixCoefficients::Fcc => 4,
            VSMatrixCoefficients::Bt470Bg => 5,
            VSMatrixCoefficients::St170M => 6,
            VSMatrixCoefficients::St240M => 7,
            VSMatrixCoefficients::YCgCo => 8,
            VSMatrixCoefficients::Bt2020Ncl => 9,
            VSMatrixCoefficients::Bt2020Cl => 10,
            VSMatrixCoefficients::ChromaticityDerivedNcl => 12,
            VSMatrixCoefficients::ChromaticityDerivedCl => 13,
            VSMatrixCoefficients::ICtCp => 14,
        }
    }

    /// The integer code the host assigns to this name.
    pub fn code(self) -> (r: i32)
        ensures
            r == self.spec_code(),
    {
        match self {
            VSMatrixCoefficients::Rgb => 0,
            VSMatrixCoefficients::Bt709 => 1,
            VSMatrixCoefficients::Unspecified => 2,
            VSMatrixCoefficients::Fcc => 4,
            VSMatrixCoefficients::Bt470Bg => 5,
            VSMatrixCoefficients::St170M => 6,
            VSMatrixCoefficients::St240M => 7,
            VSMatrixCoefficients::YCgCo => 8,
            VSMatrixCoefficients::Bt2020Ncl => 9,
            VSMatrixCoefficients::Bt2020Cl => 10,
            VSMatrixCoefficients::ChromaticityDerivedNcl => 12,
            VSMatrixCoefficients::ChromaticityDerivedCl => 13,
            VSMatrixCoefficients::ICtCp => 14,
        }
    }
}


/// The transfer characteristics of a clip's colour encoding, as a frame property.
#[derive(Copy, Clone, PartialEq, Eq, Structural, Debug, Hash)]
pub enum VSTransferCharacteristics {
    Bt709,
    Unspecified,
    Bt470M,
    Bt470Bg,
    Bt601,
    St240M,
    Linear,
    Log100,
    Log316,
    Iec61966_2_4,
    Iec61966_2_1,
    Bt2020_10,
    Bt2020_12,
    St2084,
    AribB67,
}

impl VSTransferCharacteristics {
    /// The integer code the host assigns to this name.
    pub open spec fn spec_code(self) -> int {
        match self {
            VSTransferCharacteristics::Bt709 => 1,
            VSTransferCharacteristics::Unspecified => 2,
            VSTransferCharacteristics::Bt470M => 4,
            VSTransferCharacteristics::Bt470Bg => 5,
            VSTransferCharacteristics::Bt601 => 6,
            VSTransferCharacteristics::St240M => 7,
            VSTransferCharacteristics::Linear => 8,
            VSTransferCharacteristics::Log100 => 9,
            VSTransferCharacteristics::Log316 => 10,
            VSTransferCharacteristics::Iec61966_2_4 => 11,
            VSTransferCharacteristics::Iec61966_2_1 => 13,
            VSTransferCharacteristics::Bt2020_10 => 14,
            VSTransferCharacteristics::Bt2020_12 => 15,
            VSTransferCharacteristics::St2084 => 16,
            VSTransferCharacteristics::AribB67 => 18,
        }
    }

    /// The integer code the host assigns to this name.
    pub fn code(self) -> (r: i32)
        ensures
            r == self.spec_code(),
    {
        match self {
            VSTransferCharacteristics::Bt709 => 1,
            VSTransferCharacteristics::Unspecified => 2,
            VSTransferCharacteristics::Bt470M => 4,
            VSTransferCharacteristics::Bt470Bg => 5,
            VSTransferCharacteristics::Bt601 => 6,
            VSTransferCharacteristics::St240M => 7,
            VSTransferCharacteristics::Linear => 8,
            VSTransferCharacteristics::Log100 => 9,
            VSTransferCharacteristics::Log316 => 10,
            VSTransferCharacteristics::Iec61966_2_4 => 11,
            VSTransferCharacteristics::Iec61966_2_1 => 13,
            VSTransferCharacteristics::Bt2020_10 => 14,
            VSTransferCharacteristics::Bt2020_12 => 15,
            VSTransferCharacteristics::St2084 => 16,
            VSTransferCharacteristics::AribB67 => 18,
        }
    }
}


/// The colour primaries of a clip's colour encoding, as a frame property.
#[derive(Copy, Clone, PartialEq, Eq, Structural, Debug, Hash)]
pub enum VSColorPrimaries {
    Bt709,
    Unspecified,
    Bt470M,
    Bt470Bg,
    St170M,
    St240M,
    Film,
    Bt2020,
    St428,
    St431_2,
    St432_1,
    Ebu3213E,
}

impl VSColorPrimaries {
    /// The integer code the host assigns to this name.
    pub open spec fn spec_code(self) -> int {
        match self {
            VSColorPrimaries::Bt709 => 1,
            VSColorPrimaries::Unspecified => 2,
            VSColorPrimaries::Bt470M => 4,
            VSColorPrimaries::Bt470Bg => 5,
            VSColorPrimaries::St170M => 6,
            VSColorPrimaries::St240M => 7,
            VSColorPrimaries::Film => 8,
            VSColorPrimaries::Bt2020 => 9,
            VSColorPrimaries::St428 => 10,
            VSColorPrimaries::St431_2 => 11,
            VSColorPrimaries::St432_1 => 12,
            VSColorPrimaries::Ebu3213E => 22,
        }
    }

    /// The integer code the host assigns to this name.
    pub fn code(self) -> (r: i32)
        ensures
            r == self.spec_code(),
    {
        match self {
            VSColorPrimaries::Bt709 => 1,
            VSColorPrimaries::Unspecified => 2,
            VSColorPrimaries::Bt470M => 4,
            VSColorPrimaries::Bt470Bg => 5,
            VSColorPrimaries::St170M => 6,
            VSColorPrimaries::St240M => 7,
            VSColorPrimaries::Film => 8,
            VSColorPrimaries::Bt2020 => 9,
            VSColorPrimaries::St428 => 10,
            VSColorPrimaries::St431_2 => 11,
            VSColorPrimaries::St432_1 => 12,
            VSColorPrimaries::Ebu3213E => 22,
        }
    }
}


/// Audio channel positions; the channel layout bitmask sets the bit each code names.
#[derive(Copy, Clone, PartialEq, Eq, Structural, Debug, Hash)]
pub enum VSAudioChannels {
    FrontLeft,
    FrontRight,
    FrontCenter,
    LowFrequency,
    BackLeft,
    BackRight,
    FrontLeftOFCenter,
    FrontRightOFCenter,
    BackCenter,
    SideLeft,
    SideRight,
    TopCenter,
    TopFrontLeft,
    TopFrontCenter,
    TopFrontRight,
    TopBackLeft,
    TopBackCenter,
    TopBackRight,
    StereoLeft,
    StereoRight,
    WideLeft,
    WideRight,
    SurroundDirectLeft,
    SurroundDirectRight,
    LowFrequency2,
}

impl VSAudioChannels {
    /// The integer code the host assigns to this name.
    pub open spec fn spec_code(self) -> int {
        match self {
            VSAudioChannels::FrontLeft => 0,
            VSAudioChannels::FrontRight => 1,
            VSAudioChannels::FrontCenter => 2,
            VSAudioChannels::LowFrequency => 3,
            VSAudioChannels::BackLeft => 4,
            VSAudioChannels::BackRight => 5,
            VSAudioChannels::FrontLeftOFCenter => 6,
            VSAudioChannels::FrontRightOFCenter => 7,
            VSAudioChannels::BackCenter => 8,
            VSAudioChannels::SideLeft => 9,
            VSAudioChannels::SideRight => 10,
            VSAudioChannels::TopCenter => 11,
            VSAudioChannels::TopFrontLeft => 12,
            VSAudioChannels::TopFrontCenter => 13,
            VSAudioChannels::TopFrontRight => 14,
            VSAudioChannels::TopBackLeft => 15,
            VSAudioChannels::TopBackCenter => 16,
            VSAudioChannels::TopBackRight => 17,
            VSAudioChannels::StereoLeft => 29,
            VSAudioChannels::StereoRight => 30,
            VSAudioChannels::WideLeft => 31,
            VSAudioChannels::WideRight => 32,
            VSAudioChannels::SurroundDirectLeft => 33,
            VSAudioChannels::SurroundDirectRight => 34,
            VSAudioChannels::LowFrequency2 => 35,
        }
    }

    /// The integer code the host assigns to this name.
    pub fn code(self) -> (r: i32)
        ensures
            r == self.spec_code(),
    {
        match self {
            VSAudioChannels::FrontLeft => 0,
            VSAudioChannels::FrontRight => 1,
            VSAudioChannels::FrontCenter => 2,
            VSAudioChannels::LowFrequency => 3,
            VSAudioChannels::BackLeft => 4,
            VSAudioChannels::BackRight => 5,
            VSAudioChannels::FrontLeftOFCenter => 6,
            VSAudioChannels::FrontRightOFCenter => 7,
            VSAudioChannels::BackCenter => 8,
            VSAudioChannels::SideLeft => 9,
            VSAudioChannels::SideRight => 10,
            VSAudioChannels::TopCenter => 11,
            VSAudioChannels::TopFrontLeft => 12,
            VSAudioChannels::TopFrontCenter => 13,
            VSAudioChannels::TopFrontRight => 14,
            VSAudioChannels::TopBackLeft => 15,
            VSAudioChannels::TopBackCenter => 16,
            VSAudioChannels::TopBackRight => 17,
            VSAudioChannels::StereoLeft => 29,
            VSAudioChannels::StereoRight => 30,
            VSAudioChannels::WideLeft => 31,
            VSAudioChannels::WideRight => 32,
            VSAudioChannels::SurroundDirectLeft => 33,
            VSAudioChannels::SurroundDirectRight => 34,
            VSAudioChannels::LowFrequency2 => 35,
        }
    }
}

} // verus!
