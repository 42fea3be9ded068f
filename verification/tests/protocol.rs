//! The activation protocol, driven end to end over the in-process host:
//! ordering of the two phases, panic-payload containment at the trampoline
//! decision, optional-argument defaults, and splicing.

use vapoursynth4_rs::api::Api;
use vapoursynth4_rs::filters::{DitherFilter, DumbFilter, SpliceFilter};
use vapoursynth4_rs::host::{
    apply_create_outcome, apply_get_frame_outcome, CallOutcome, FrameContext, Host,
};
use vapoursynth4_rs::key::Key;
use vapoursynth4_rs::map::{AppendMode, Value, VsMap};
use vapoursynth4_rs::node::VideoNode;
use vapoursynth4_rs::vs::{VSActivationReason, VSColorFamily, VSSampleType, VSVideoInfo};
use vapoursynth4_rs::vscore::{Core, CoreBuilder};

fn test_core() -> Core {
    let api = Api::new(4, 0).unwrap();
    CoreBuilder::new().api(&api).build()
}

/// A gray 8-bit source node whose single plane is filled with `fill`,
/// one frame per fill byte.
fn gray_source<F>(host: &mut Host<F>, width: i32, height: i32, fills: &[u8]) -> VideoNode {
    let fmt = host
        .core_mut()
        .query_video_format(VSColorFamily::Gray, VSSampleType::Integer, 8, 0, 0);
    let mut frames = Vec::new();
    for &fill in fills {
        let f = host.core_mut().new_video_frame(&fmt, width, height);
        let size = host.core_ref().plane_data(&f, 0).unwrap().len();
        assert!(host.core_mut().put_plane_data(&f, 0, vec![fill; size]));
        frames.push(f);
    }
    let info = VSVideoInfo {
        format: fmt,
        fps_num: 30,
        fps_den: 1,
        width,
        height,
        num_frames: fills.len() as i32,
    };
    host.core_mut().create_source_video_node(&info, frames)
}

#[test]
fn invert_end_to_end_with_phase_ordering() {
    let core = test_core();
    let mut host: Host<DumbFilter> = Host::new(core, "com.example.invert", "invert", "Inverter", 1);
    host.register_function();
    assert_eq!(host.function_arguments(0), "clip:vnode;enabled:int:opt;");

    let src = gray_source(&mut host, 4, 2, &[10]);
    let clip_key = Key::from_str("clip").unwrap();
    let mut args = VsMap::new();
    args.consume_node(&clip_key, src, AppendMode::Replace).unwrap();

    let out = host.invoke("Filter", &args, None);
    assert!(out.get_error().is_none());
    let node = out.get_video_node(&clip_key, 0, host.core_mut()).unwrap();

    let frame = host.get_frame(&node, 0).unwrap();
    let bytes = host.core_ref().plane_data(&frame, 0).unwrap().clone();
    assert_eq!(bytes, vec![245u8; 8]);

    // The filter is entered with the result-producing phase only after its
    // request-issuing phase, and every logged activation of this node keeps
    // that order.
    let log = host.call_log();
    let node_id = node.id();
    let calls: Vec<_> = log.iter().filter(|e| e.0 == node_id).collect();
    assert_eq!(calls.len(), 2);
    assert_eq!(calls[0].1, 0);
    assert!(matches!(calls[0].2, VSActivationReason::Initial));
    assert_eq!(calls[1].1, 0);
    assert!(matches!(calls[1].2, VSActivationReason::AllFramesReady));
}

#[test]
fn stacked_filters_order_upstream_first() {
    let core = test_core();
    let mut host: Host<DumbFilter> = Host::new(core, "com.example.invert", "invert", "Inverter", 1);
    host.register_function();

    let src = gray_source(&mut host, 4, 2, &[100]);
    let clip_key = Key::from_str("clip").unwrap();
    let mut args = VsMap::new();
    args.consume_node(&clip_key, src, AppendMode::Replace).unwrap();
    let out1 = host.invoke("Filter", &args, None);
    let inner = out1.get_video_node(&clip_key, 0, host.core_mut()).unwrap();

    let mut args2 = VsMap::new();
    args2.consume_node(&clip_key, inner, AppendMode::Replace).unwrap();
    let out2 = host.invoke("Filter", &args2, None);
    let outer = out2.get_video_node(&clip_key, 0, host.core_mut()).unwrap();

    let frame = host.get_frame(&outer, 0).unwrap();
    let bytes = host.core_ref().plane_data(&frame, 0).unwrap().clone();
    assert_eq!(bytes, vec![100u8; 8], "two inversions give the source back");

    // The inner node's whole activation lies between the outer node's
    // request phase and its production phase: the outer filter is entered
    // with `AllFramesReady` only after its requested frame was produced.
    let log = host.call_log();
    let outer_id = outer.id();
    let pos = |node: u64, reason_ready: bool| {
        log.iter().position(|e| {
            e.0 == node
                && matches!(e.2, VSActivationReason::AllFramesReady) == reason_ready
                && (reason_ready || matches!(e.2, VSActivationReason::Initial))
        })
    };
    let inner_id = out1
        .get_video_node(&clip_key, 0, host.core_mut())
        .unwrap()
        .id();
    let outer_initial = pos(outer_id, false).unwrap();
    let inner_initial = pos(inner_id, false).unwrap();
    let inner_ready = pos(inner_id, true).unwrap();
    let outer_ready = pos(outer_id, true).unwrap();
    assert!(outer_initial < inner_initial);
    assert!(inner_initial < inner_ready);
    assert!(inner_ready < outer_ready);
}

#[test]
fn disabled_filter_reports_frame_errors() {
    let core = test_core();
    let mut host: Host<DumbFilter> = Host::new(core, "com.example.invert", "invert", "Inverter", 1);
    host.register_function();

    let src = gray_source(&mut host, 4, 2, &[10]);
    let clip_key = Key::from_str("clip").unwrap();
    let enabled_key = Key::from_str("enabled").unwrap();
    let mut args = VsMap::new();
    args.consume_node(&clip_key, src, AppendMode::Replace).unwrap();
    args.set(&enabled_key, Value::Int(0), AppendMode::Replace).unwrap();

    let out = host.invoke("Filter", &args, None);
    assert!(out.get_error().is_none());
    let node = out.get_video_node(&clip_key, 0, host.core_mut()).unwrap();
    let err = host.get_frame(&node, 0).unwrap_err();
    assert_eq!(err, "Not enabled");
}

#[test]
fn trampoline_turns_panics_into_frame_errors() {
    // The decision the trampoline applies after catching a panic: the
    // payload becomes a per-frame error on the context, and no frame is
    // handed onward.
    let mut ctx = FrameContext::empty();
    let r = apply_get_frame_outcome(&mut ctx, CallOutcome::Panicked("Not enabled".to_string()));
    assert!(r.is_none());
    assert_eq!(ctx.error_message().unwrap(), "Not enabled");

    // A returned failure takes the same path.
    let mut ctx2 = FrameContext::empty();
    let r2 = apply_get_frame_outcome(
        &mut ctx2,
        CallOutcome::Returned(Err("boom".to_string())),
    );
    assert!(r2.is_none());
    assert_eq!(ctx2.error_message().unwrap(), "boom");

    // On the create side, a caught panic poisons the output map.
    let mut out = VsMap::new();
    let key = Key::from_str("k").unwrap();
    out.set(&key, Value::Int(1), AppendMode::Replace).unwrap();
    apply_create_outcome(&mut out, CallOutcome::Panicked("create panicked".to_string()));
    assert_eq!(out.get_error().unwrap(), "create panicked");
    assert_eq!(out.len(), 0);

    let mut out2 = VsMap::new();
    apply_create_outcome(&mut out2, CallOutcome::Returned(Ok(())));
    assert!(out2.get_error().is_none());
}

#[test]
fn optional_argument_uses_documented_default() {
    let core = test_core();
    let mut host: Host<DitherFilter> = Host::new(core, "com.example.depth", "depth", "Depth", 1);
    host.register_function();
    assert_eq!(host.function_arguments(0), "clip:vnode;bits:int:opt;");

    let src = gray_source(&mut host, 4, 2, &[7]);
    let clip_key = Key::from_str("clip").unwrap();
    let mut args = VsMap::new();
    args.consume_node(&clip_key, src, AppendMode::Replace).unwrap();

    // Only `clip` is bound: the filter must fall back to sixteen bits.
    let out = host.invoke("Depth", &args, None);
    assert!(out.get_error().is_none(), "{:?}", out.get_error());
    let node = out.get_video_node(&clip_key, 0, host.core_mut()).unwrap();
    let info = host.core_ref().video_node_info(&node).unwrap();
    assert_eq!(info.format.bits_per_sample, 16);
    assert_eq!(info.format.bytes_per_sample, 2);

    // An explicit depth is honoured.
    let src2 = gray_source(&mut host, 4, 2, &[7]);
    let bits_key = Key::from_str("bits").unwrap();
    let mut args2 = VsMap::new();
    args2.consume_node(&clip_key, src2, AppendMode::Replace).unwrap();
    args2.set(&bits_key, Value::Int(10), AppendMode::Replace).unwrap();
    let out2 = host.invoke("Depth", &args2, None);
    assert!(out2.get_error().is_none());
    let node2 = out2.get_video_node(&clip_key, 0, host.core_mut()).unwrap();
    let info2 = host.core_ref().video_node_info(&node2).unwrap();
    assert_eq!(info2.format.bits_per_sample, 10);
}

#[test]
fn invoke_validates_the_signature() {
    let core = test_core();
    let mut host: Host<DitherFilter> = Host::new(core, "com.example.depth", "depth", "Depth", 1);
    host.register_function();

    // A missing required argument is refused before the filter runs.
    let args = VsMap::new();
    let out = host.invoke("Depth", &args, None);
    assert!(out.get_error().is_some());

    // An undeclared key is refused.
    let src = gray_source(&mut host, 4, 2, &[7]);
    let clip_key = Key::from_str("clip").unwrap();
    let extra_key = Key::from_str("extra").unwrap();
    let mut args2 = VsMap::new();
    args2.consume_node(&clip_key, src, AppendMode::Replace).unwrap();
    args2.set(&extra_key, Value::Int(1), AppendMode::Replace).unwrap();
    let out2 = host.invoke("Depth", &args2, None);
    assert!(out2.get_error().is_some());

    // A declared argument of the wrong tag is refused.
    let src3 = gray_source(&mut host, 4, 2, &[7]);
    let bits_key = Key::from_str("bits").unwrap();
    let mut args3 = VsMap::new();
    args3.consume_node(&clip_key, src3, AppendMode::Replace).unwrap();
    args3
        .set(&bits_key, Value::Utf8("ten".to_string()), AppendMode::Replace)
        .unwrap();
    let out3 = host.invoke("Depth", &args3, None);
    assert!(out3.get_error().is_some());

    // An unknown function name is refused.
    let out4 = host.invoke("Nope", &VsMap::new(), None);
    assert!(out4.get_error().is_some());
}

#[test]
fn splice_maps_frames_onto_inputs() {
    let core = test_core();
    let mut host: Host<SpliceFilter> = Host::new(core, "com.example.splice", "splice", "Splicer", 1);
    host.register_function();
    assert_eq!(host.function_arguments(0), "clips:vnode[];");

    let a = gray_source(&mut host, 2, 2, &[1, 2]);
    let b = gray_source(&mut host, 2, 2, &[3, 4, 5]);
    let clips_key = Key::from_str("clips").unwrap();
    let clip_key = Key::from_str("clip").unwrap();
    let mut args = VsMap::new();
    args.consume_node(&clips_key, a, AppendMode::Append).unwrap();
    args.consume_node(&clips_key, b, AppendMode::Append).unwrap();

    let out = host.invoke("Splice", &args, None);
    assert!(out.get_error().is_none(), "{:?}", out.get_error());
    let node = out.get_video_node(&clip_key, 0, host.core_mut()).unwrap();
    let info = host.core_ref().video_node_info(&node).unwrap();
    assert_eq!(info.num_frames, 5);

    for (n, fill) in [(0, 1u8), (1, 2), (2, 3), (3, 4), (4, 5)] {
        let frame = host.get_frame(&node, n).unwrap();
        let bytes = host.core_ref().plane_data(&frame, 0).unwrap().clone();
        assert_eq!(bytes, vec![fill; 4], "frame {} came from the wrong clip", n);
        let f = frame;
        host.core_mut().free_frame(f);
    }

    let err = host.get_frame(&node, 5).unwrap_err();
    assert!(!err.is_empty());
}

#[test]
fn readiness_is_checkable_before_the_production_phase() {
    let core = test_core();
    let mut host: Host<DumbFilter> = Host::new(core, "com.example.invert", "invert", "Inverter", 1);
    let src = gray_source(&mut host, 4, 2, &[1]);

    let mut ctx = FrameContext::empty();
    assert!(ctx.all_ready(), "no requests means nothing is missing");
    ctx.request_frame_filter(0, &src);
    assert!(
        !ctx.all_ready(),
        "an unanswered request must be visible before the production phase"
    );
    host.core_mut().free_node(src);
}
