//! The core: the builder, the reference-counted handle model, frames and
//! format queries.

use vapoursynth4_rs::api::Api;
use vapoursynth4_rs::utils::{
    add_rational, int64_to_int_s, is_constant_video_format, is_same_video_format, muldiv_rational,
    reduce_rational, vs_make_version,
};
use vapoursynth4_rs::utils::{are_valid_dimensions, bitblt};
use vapoursynth4_rs::vs::{
    vs_make_video_id, VSAudioChannels, VSAudioInfo, VSColorFamily, VSPresetVideoFormat,
    VSSampleType, VSVideoInfo, VAPOURSYNTH_API_VERSION,
};
use vapoursynth4_rs::vscore::{Core, CoreBuilder};

fn test_core() -> Core {
    let api = Api::new(4, 0).unwrap();
    CoreBuilder::new().api(&api).build()
}

#[test]
fn builder() {
    let api = Api::new(4, 0).unwrap();
    let core = CoreBuilder::new()
        .api(&api)
        .enable_graph_inspection()
        .disable_auto_loading()
        .disable_library_unloading()
        .max_cache_size(1024)
        .thread_count(4)
        .build();
    assert_eq!(core.get_info().max_framebuffer_size, 1024);
    assert_eq!(core.get_info().num_threads, 4);
    assert_eq!(core.get_info().api, VAPOURSYNTH_API_VERSION);
}

#[test]
fn api_versions() {
    assert!(Api::new(4, 0).is_ok());
    assert!(Api::new(4, 1).is_err());
    assert!(Api::new(3, 0).is_err());
    assert_eq!(vs_make_version(4, 0), 4 * 0x10000);
}

#[test]
fn clone_then_two_drops_keeps_the_count() {
    let mut core = test_core();
    let f = core.create_function();
    let id = f.id();
    assert_eq!(core.ref_count(id), 1);

    let c = core.clone_function(&f);
    assert_eq!(core.ref_count(id), 2);
    core.free_function(c);
    assert_eq!(core.ref_count(id), 1);
    core.free_function(f);
    assert_eq!(core.ref_count(id), 0);
}

#[test]
fn frame_handles_share_one_count() {
    let mut core = test_core();
    let fmt = core.query_video_format(VSColorFamily::Gray, VSSampleType::Integer, 8, 0, 0);
    let f = core.new_video_frame(&fmt, 4, 2);
    let id = f.id();
    assert_eq!(core.ref_count(id), 1);
    let c1 = core.clone_frame(&f);
    let c2 = core.clone_frame(&f);
    assert_eq!(core.ref_count(id), 3);
    core.free_frame(c1);
    core.free_frame(c2);
    assert_eq!(core.ref_count(id), 1);
    core.free_frame(f);
    assert_eq!(core.ref_count(id), 0);
}

#[test]
fn new_frame_geometry() {
    let mut core = test_core();
    let fmt = core.query_video_format(VSColorFamily::YUV, VSSampleType::Integer, 8, 1, 1);
    assert_eq!(fmt.num_planes, 3);
    assert_eq!(fmt.bytes_per_sample, 1);
    let f = core.new_video_frame(&fmt, 8, 4);
    assert_eq!(core.frame_width(&f, 0), 8);
    assert_eq!(core.frame_height(&f, 0), 4);
    assert_eq!(core.frame_width(&f, 1), 4);
    assert_eq!(core.frame_height(&f, 1), 2);
    assert_eq!(core.stride(&f, 0), 8);
    assert_eq!(core.plane_data(&f, 0).unwrap().len(), 32);
    assert_eq!(core.plane_data(&f, 1).unwrap().len(), 8);
    assert!(core.plane_data(&f, 3).is_none());
    let copy = core.copy_frame(&f).unwrap();
    assert_eq!(core.plane_data(&copy, 0).unwrap(), core.plane_data(&f, 0).unwrap());
    core.free_frame(copy);
    core.free_frame(f);
}

#[test]
fn format_queries() {
    let core = test_core();
    let bad = core.query_video_format(VSColorFamily::Undefined, VSSampleType::Integer, 8, 0, 0);
    assert_eq!(bad.num_planes, 0);
    let bad2 = core.query_video_format(VSColorFamily::Gray, VSSampleType::Integer, 8, 1, 0);
    assert_eq!(bad2.num_planes, 0);
    let g16 = core.query_video_format(VSColorFamily::Gray, VSSampleType::Integer, 16, 0, 0);
    assert_eq!(g16.bytes_per_sample, 2);
    assert!(is_constant_video_format(&VSVideoInfo {
        format: g16,
        fps_num: 30,
        fps_den: 1,
        width: 4,
        height: 4,
        num_frames: 1,
    }));
    assert!(is_same_video_format(&g16, &g16));
    let id = core.query_video_format_id(VSColorFamily::Gray, VSSampleType::Integer, 8, 0, 0);
    assert_eq!(id as i32, vs_make_video_id(VSColorFamily::Gray, VSSampleType::Integer, 8, 0, 0));
    assert_eq!(id, 0x1008_0000);
    assert_eq!(
        core.query_video_format_id(VSColorFamily::Undefined, VSSampleType::Integer, 8, 0, 0),
        0
    );
}

#[test]
fn rational_arithmetic() {
    let mut num: i64 = 30000;
    let mut den: i64 = 1001;
    muldiv_rational(&mut num, &mut den, 2, 1);
    assert_eq!((num, den), (60000, 1001));

    let mut num: i64 = 4;
    let mut den: i64 = 8;
    reduce_rational(&mut num, &mut den);
    assert_eq!((num, den), (1, 2));

    let mut num: i64 = 1;
    let mut den: i64 = 4;
    add_rational(&mut num, &mut den, 1, 4);
    assert_eq!((num, den), (2, 4));

    let mut num: i64 = 1;
    let mut den: i64 = 6;
    add_rational(&mut num, &mut den, 1, 3);
    assert_eq!((num, den), (1, 2));

    let mut num: i64 = 5;
    let mut den: i64 = 0;
    muldiv_rational(&mut num, &mut den, 7, 3);
    assert_eq!((num, den), (5, 0));

    assert_eq!(int64_to_int_s(i64::MAX), i32::MAX);
    assert_eq!(int64_to_int_s(i64::MIN), i32::MIN);
    assert_eq!(int64_to_int_s(-7), -7);
}

#[test]
fn core_log() {
    let mut core = test_core();
    core.log(vapoursynth4_rs::vs::VSMessageType::Information, "hello");
    core.set_max_cache_size(42);
    assert_eq!(core.get_info().max_framebuffer_size, 42);
    core.set_thread_count(2);
    assert_eq!(core.get_info().num_threads, 2);
}

#[test]
fn preset_format_ids() {
    assert_eq!(VSPresetVideoFormat::NoFormat.id(), 0);
    assert_eq!(VSPresetVideoFormat::Gray8.id(), 0x1008_0000);
    assert_eq!(VSPresetVideoFormat::YUV420P8.id(), 0x3008_0101);
    assert_eq!(VSPresetVideoFormat::RGBS.id(), 0x2120_0000);
}

#[test]
fn audio_format_and_nodes() {
    let mut core = test_core();
    let layout: u64 =
        (1 << VSAudioChannels::FrontLeft.code()) | (1 << VSAudioChannels::FrontRight.code());
    let fmt = core.query_audio_format(VSSampleType::Integer, 16, layout);
    assert_eq!(fmt.num_channels, 2);
    assert_eq!(fmt.bytes_per_sample, 2);
    let bad = core.query_audio_format(VSSampleType::Integer, 8, layout);
    assert_eq!(bad.num_channels, 0);
    let info = VSAudioInfo { format: fmt, sample_rate: 48000, num_samples: 6144, num_frames: 2 };
    let node = core.create_source_audio_node(&info);
    assert_eq!(core.audio_node_info(&node).unwrap().sample_rate, 48000);
    let frame = core.new_audio_frame(&fmt, 3072);
    assert_eq!(core.frame_length(&frame), 3072);
    let c = core.clone_audio_frame(&frame);
    assert_eq!(core.ref_count(frame.id()), 2);
    core.free_audio_frame(c);
    core.free_audio_frame(frame);
    core.free_audio_node(node);
}

#[test]
fn bitblt_copies_rows() {
    let src: Vec<u8> = (0..12).collect();
    let mut dst: Vec<u8> = vec![99; 12];
    // Copy two rows of three bytes from stride-four source rows into
    // stride-six destination rows.
    bitblt(&mut dst, 6, &src, 4, 3, 2);
    assert_eq!(dst, vec![0, 1, 2, 99, 99, 99, 4, 5, 6, 99, 99, 99]);
}

#[test]
fn dimension_checks() {
    let core = test_core();
    let f = core.query_video_format(VSColorFamily::YUV, VSSampleType::Integer, 8, 1, 1);
    assert!(are_valid_dimensions(&f, 8, 4));
    assert!(!are_valid_dimensions(&f, 7, 4));
}
