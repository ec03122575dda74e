use voiceroom::graph::{ConstructReason, GraphState, Link, PipelineGraph};
use voiceroom::room::{Participant, Room, mix_descriptors, mix_link_plan, source_descriptors};
use voiceroom::stage::{EncodingTag, MediaFormat, OptionKey, OptionValue, StageDescriptor,
    StageKind, StageOption};

fn all_kinds() -> Vec<StageKind> {
    vec![
        StageKind::NetworkReceive,
        StageKind::FormatFilter,
        StageKind::Depacketize,
        StageKind::Decode,
        StageKind::EncodeFilter,
        StageKind::BusPublish,
        StageKind::BusSubscribe,
        StageKind::Mixer,
        StageKind::DeviceOutput,
    ]
}

fn participant(id: u32, port: u16) -> Participant {
    Participant { id, network_port: port }
}

fn channel_text(d: &StageDescriptor) -> String {
    match d.option_value(OptionKey::Channel) {
        Some(OptionValue::Text(t)) => t.clone(),
        _ => panic!("stage carries no channel option"),
    }
}

#[test]
fn valid_source_sequence_builds_and_links() {
    let descs = source_descriptors(&participant(1, 5100), None);
    assert_eq!(descs.len(), 5);
    let mut g = PipelineGraph::build(&all_kinds(), descs).expect("construction must succeed");
    g.link_linear().expect("linking must succeed");
    assert_eq!(g.state, GraphState::Built);
    assert_eq!(g.stage_count(), 5);
    assert_eq!(g.links.len(), 4);
}

#[test]
fn valid_mix_sequence_builds_and_links() {
    let room = Room::new(
        String::from("room-1"),
        vec![participant(1, 5100), participant(2, 5101)],
    )
    .expect("two distinct participants make a valid room");
    let descs = mix_descriptors(&room);
    assert_eq!(descs.len(), 6);
    let plan = mix_link_plan(2);
    let mut g = PipelineGraph::build(&all_kinds(), descs).expect("construction must succeed");
    g.link_plan(&plan).expect("mixer linking must succeed");
    assert_eq!(g.state, GraphState::Built);
    assert_eq!(g.links.len(), 5);
}

#[test]
fn unsupported_kind_fails_construction() {
    // An engine without a depacketizer cannot build a source pipeline.
    let supported = vec![
        StageKind::NetworkReceive,
        StageKind::FormatFilter,
        StageKind::Decode,
        StageKind::BusPublish,
    ];
    let descs = source_descriptors(&participant(1, 5100), None);
    let err = PipelineGraph::build(&supported, descs).err().expect("construction must fail");
    assert_eq!(err.stage_index, 2);
    assert_eq!(err.reason, ConstructReason::UnsupportedKind);
}

#[test]
fn rejected_option_fails_construction() {
    // A decode stage takes no channel option: rejected at bind time.
    let descs = vec![StageDescriptor {
        kind: StageKind::Decode,
        options: vec![StageOption {
            key: OptionKey::Channel,
            value: OptionValue::Text(String::from("nowhere")),
        }],
    }];
    let err = PipelineGraph::build(&all_kinds(), descs).err().expect("construction must fail");
    assert_eq!(err.stage_index, 0);
    assert_eq!(err.reason, ConstructReason::RejectedOption { option_index: 0 });
}

#[test]
fn out_of_range_port_fails_construction() {
    let descs = vec![StageDescriptor {
        kind: StageKind::NetworkReceive,
        options: vec![StageOption { key: OptionKey::Port, value: OptionValue::Number(70000) }],
    }];
    let err = PipelineGraph::build(&all_kinds(), descs).err().expect("construction must fail");
    assert_eq!(err.stage_index, 0);
    assert_eq!(err.reason, ConstructReason::RejectedOption { option_index: 0 });
}

#[test]
fn incompatible_formats_fail_linking_and_no_link_exists() {
    // Decoded raw audio cannot enter a depacketizer.
    let descs = vec![
        StageDescriptor { kind: StageKind::Decode, options: Vec::new() },
        StageDescriptor { kind: StageKind::Depacketize, options: Vec::new() },
    ];
    let mut g = PipelineGraph::build(&all_kinds(), descs).expect("construction must succeed");
    let err = g.link_linear().err().expect("linking must fail");
    assert_eq!(err.from, 0);
    assert_eq!(err.to, 1);
    // No partial topology: no frames can ever flow between the pair.
    assert_eq!(g.links.len(), 0);
    assert_eq!(g.state, GraphState::Built);
}

#[test]
fn network_stage_without_filter_cannot_feed_depacketizer() {
    let descs = vec![
        StageDescriptor { kind: StageKind::NetworkReceive, options: Vec::new() },
        StageDescriptor { kind: StageKind::Depacketize, options: Vec::new() },
    ];
    let mut g = PipelineGraph::build(&all_kinds(), descs).expect("construction must succeed");
    let err = g.link_linear().err().expect("an unconstrained stream must be rejected");
    assert_eq!((err.from, err.to), (0, 1));
}

#[test]
fn mix_plan_shape_two_branches() {
    let plan = mix_link_plan(2);
    let expect = vec![
        Link { from: 0, to: 1 },
        Link { from: 1, to: 4 },
        Link { from: 2, to: 3 },
        Link { from: 3, to: 4 },
        Link { from: 4, to: 5 },
    ];
    assert_eq!(plan, expect);
}

#[test]
fn publish_and_subscribe_sides_meet_on_same_name() {
    let p1 = participant(1, 5100);
    let p2 = participant(2, 5101);
    let src1 = source_descriptors(&p1, None);
    let src2 = source_descriptors(&p2, None);
    let room = Room::new(String::from("room-1"), vec![p1, p2]).expect("valid room");
    let mix = mix_descriptors(&room);
    assert_eq!(channel_text(&src1[4]), "user-1-stream");
    assert_eq!(channel_text(&src2[4]), "user-2-stream");
    assert_eq!(channel_text(&mix[0]), channel_text(&src1[4]));
    assert_eq!(channel_text(&mix[2]), channel_text(&src2[4]));
}

#[test]
fn mix_branches_are_mono_with_left_and_right_masks() {
    let room = Room::new(
        String::from("room-1"),
        vec![participant(1, 5100), participant(2, 5101)],
    )
    .expect("valid room");
    let mix = mix_descriptors(&room);
    let caps1 = match mix[1].option_value(OptionKey::Caps) {
        Some(OptionValue::Format(f)) => *f,
        _ => panic!("branch filter carries no caps"),
    };
    let caps2 = match mix[3].option_value(OptionKey::Caps) {
        Some(OptionValue::Format(f)) => *f,
        _ => panic!("branch filter carries no caps"),
    };
    assert_eq!(caps1, MediaFormat::RawAudio { channels: 1, channel_mask: 0x1 });
    assert_eq!(caps2, MediaFormat::RawAudio { channels: 1, channel_mask: 0x2 });
}

#[test]
fn source_filter_carries_transport_profile() {
    let descs = source_descriptors(&participant(7, 6000), None);
    let caps = match descs[1].option_value(OptionKey::Caps) {
        Some(OptionValue::Format(f)) => *f,
        _ => panic!("transport filter carries no caps"),
    };
    assert_eq!(
        caps,
        MediaFormat::Rtp { payload: 96, clock_rate: 48000, encoding: EncodingTag::OpusDraft }
    );
}

#[test]
fn bind_address_is_kept_when_given() {
    let descs = source_descriptors(&participant(1, 5100), Some(String::from("10.0.0.8")));
    match descs[0].option_value(OptionKey::BindAddress) {
        Some(OptionValue::Text(t)) => assert_eq!(t, "10.0.0.8"),
        _ => panic!("bind address option missing"),
    }
    match descs[0].option_value(OptionKey::Port) {
        Some(OptionValue::Number(n)) => assert_eq!(*n, 5100),
        _ => panic!("port option missing"),
    }
}

#[test]
fn room_rejects_duplicate_participant_ids() {
    let r = Room::new(String::from("room-1"), vec![participant(1, 5100), participant(1, 5101)]);
    assert!(r.is_none());
}

#[test]
fn room_rejects_more_branches_than_mask_bits() {
    let mut members = Vec::new();
    for i in 0..33u32 {
        members.push(participant(i, 5000 + i as u16));
    }
    assert!(Room::new(String::from("room-big"), members).is_none());
}

#[test]
fn stop_twice_is_a_quiet_no_op() {
    let descs = source_descriptors(&participant(1, 5100), None);
    let mut g = PipelineGraph::build(&all_kinds(), descs).expect("construction must succeed");
    g.link_linear().expect("linking must succeed");
    g.play(true).expect("play must succeed on a built graph");
    g.stop();
    assert_eq!(g.state, GraphState::Stopped);
    g.stop();
    assert_eq!(g.state, GraphState::Stopped);
}

#[test]
fn play_on_stopped_graph_is_refused() {
    let descs = source_descriptors(&participant(1, 5100), None);
    let mut g = PipelineGraph::build(&all_kinds(), descs).expect("construction must succeed");
    g.link_linear().expect("linking must succeed");
    g.stop();
    assert!(g.play(true).is_err());
    assert_eq!(g.state, GraphState::Stopped);
}

#[test]
fn engine_refusal_leaves_graph_built() {
    let descs = source_descriptors(&participant(1, 5100), None);
    let mut g = PipelineGraph::build(&all_kinds(), descs).expect("construction must succeed");
    g.link_linear().expect("linking must succeed");
    assert!(g.play(false).is_err());
    assert_eq!(g.state, GraphState::Built);
}
