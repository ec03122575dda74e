use voiceroom::bus::AudioBus;
use voiceroom::graph::{EngineEvent, GraphState, PipelineGraph, StreamError, TerminalOutcome};
use voiceroom::name::channel_name;
use voiceroom::room::{Participant, Room, mix_descriptors, mix_link_plan, source_descriptors};
use voiceroom::stage::{MediaFormat, StageKind};
use voiceroom::supervisor::{RunReport, deliver_event, run_events, supervise};

fn all_kinds() -> Vec<StageKind> {
    vec![
        StageKind::NetworkReceive,
        StageKind::FormatFilter,
        StageKind::Depacketize,
        StageKind::Decode,
        StageKind::EncodeFilter,
        StageKind::BusPublish,
        StageKind::BusSubscribe,
        StageKind::Mixer,
        StageKind::DeviceOutput,
    ]
}

fn participant(id: u32, port: u16) -> Participant {
    Participant { id, network_port: port }
}

fn built_source(id: u32, port: u16) -> PipelineGraph {
    let descs = source_descriptors(&participant(id, port), None);
    let mut g = PipelineGraph::build(&all_kinds(), descs).expect("source construction");
    g.link_linear().expect("source linking");
    g
}

fn built_mix(room: &Room) -> PipelineGraph {
    let descs = mix_descriptors(room);
    let n = (descs.len() - 2) / 2;
    let plan = mix_link_plan(n);
    let mut g = PipelineGraph::build(&all_kinds(), descs).expect("mix construction");
    g.link_plan(&plan).expect("mix linking");
    g
}

fn decode_error() -> StreamError {
    StreamError {
        source_path: String::from("pipeline-1/decode"),
        message: String::from("decoder lost sync"),
        debug_info: None,
    }
}

#[test]
fn channel_names_follow_the_convention() {
    assert_eq!(channel_name(1), "user-1-stream");
    assert_eq!(channel_name(2), "user-2-stream");
    assert_eq!(channel_name(0), "user-0-stream");
    assert_eq!(channel_name(407), "user-407-stream");
    assert_eq!(channel_name(u32::MAX), "user-4294967295-stream");
}

#[test]
fn one_pipeline_error_leaves_the_others_running() {
    // Participant 1's decode fails; participant 2 and the room mix keep
    // going and still reach their own end-of-stream.
    let room = Room::new(
        String::from("room-1"),
        vec![participant(1, 5100), participant(2, 5101)],
    )
    .expect("valid room");
    let mut graphs = vec![built_source(1, 5100), built_source(2, 5101), built_mix(&room)];
    for g in graphs.iter_mut() {
        g.play(true).expect("engine accepts play");
    }
    let r = deliver_event(&mut graphs, 0, EngineEvent::Error(decode_error()));
    assert_eq!(r, Some(TerminalOutcome::Errored(decode_error())));
    assert_eq!(graphs[0].state, GraphState::Errored);
    assert_eq!(graphs[1].state, GraphState::Playing);
    assert_eq!(graphs[2].state, GraphState::Playing);
    let r = deliver_event(&mut graphs, 1, EngineEvent::EndOfStream);
    assert_eq!(r, Some(TerminalOutcome::Eos));
    let r = deliver_event(&mut graphs, 2, EngineEvent::EndOfStream);
    assert_eq!(r, Some(TerminalOutcome::Eos));
}

#[test]
fn room_scenario_both_participants_feed_the_mix() {
    // Two participants on ports 5100 and 5101; the mix subscribes to
    // both channels and each branch carries its own frames in order.
    let room = Room::new(
        String::from("room-1"),
        vec![participant(1, 5100), participant(2, 5101)],
    )
    .expect("valid room");
    let mut s1 = built_source(1, 5100);
    let mut s2 = built_source(2, 5101);
    let mut mix = built_mix(&room);
    s1.play(true).expect("play 1");
    s2.play(true).expect("play 2");
    mix.play(true).expect("play mix");

    let mono = MediaFormat::RawAudio { channels: 1, channel_mask: 0 };
    let mut bus = AudioBus::new();
    bus.attach_publisher(1, mono).expect("publisher 1");
    bus.attach_publisher(2, mono).expect("publisher 2");
    bus.attach_subscriber(1, mono).expect("mix branch 1");
    bus.attach_subscriber(2, mono).expect("mix branch 2");
    for t in 0..5u64 {
        bus.publish(1, 10 + t);
        bus.publish(2, 20 + t);
    }
    for t in 0..5u64 {
        let left = bus.pull(1).expect("left branch frame");
        let right = bus.pull(2).expect("right branch frame");
        assert_eq!(left, 10 + t);
        assert_eq!(right, 20 + t);
    }
    assert_eq!(s1.state, GraphState::Playing);
    assert_eq!(s2.state, GraphState::Playing);
    assert_eq!(mix.state, GraphState::Playing);
}

#[test]
fn silent_port_keeps_its_pipeline_playing() {
    // No packets ever arrive for participant 2: its pipeline sees no
    // terminal event and stays in playing; participant 1 and the mix
    // wind down normally, with silence on the unfed branch.
    let room = Room::new(
        String::from("room-1"),
        vec![participant(1, 5100), participant(2, 5101)],
    )
    .expect("valid room");
    let mut graphs = vec![built_source(1, 5100), built_source(2, 5101), built_mix(&room)];
    for g in graphs.iter_mut() {
        g.play(true).expect("engine accepts play");
    }
    assert_eq!(deliver_event(&mut graphs, 0, EngineEvent::Other), None);
    assert_eq!(deliver_event(&mut graphs, 0, EngineEvent::EndOfStream), Some(TerminalOutcome::Eos));
    assert_eq!(deliver_event(&mut graphs, 2, EngineEvent::EndOfStream), Some(TerminalOutcome::Eos));
    assert_eq!(graphs[1].state, GraphState::Playing);

    let mono = MediaFormat::RawAudio { channels: 1, channel_mask: 0 };
    let mut bus = AudioBus::new();
    bus.attach_subscriber(2, mono).expect("mix branch 2");
    assert_eq!(bus.pull(2), None);
}

#[test]
fn run_events_stops_at_first_terminal_event() {
    let mut g = built_source(1, 5100);
    g.play(true).expect("play");
    let events = vec![
        EngineEvent::Other,
        EngineEvent::Other,
        EngineEvent::EndOfStream,
        EngineEvent::Error(decode_error()),
    ];
    let out = run_events(&mut g, events);
    assert_eq!(out, Some(TerminalOutcome::Eos));
    assert_eq!(g.state, GraphState::Eos);
}

#[test]
fn run_events_without_terminal_event_keeps_playing() {
    let mut g = built_source(1, 5100);
    g.play(true).expect("play");
    let out = run_events(&mut g, vec![EngineEvent::Other, EngineEvent::Other]);
    assert_eq!(out, None);
    assert_eq!(g.state, GraphState::Playing);
}

#[test]
fn supervised_run_ends_stopped_whatever_happened() {
    let mut g = built_source(1, 5100);
    let report = supervise(&mut g, true, vec![EngineEvent::Other, EngineEvent::EndOfStream]);
    assert_eq!(report, RunReport::Completed(TerminalOutcome::Eos));
    assert_eq!(g.state, GraphState::Stopped);

    let mut g = built_source(1, 5100);
    let report = supervise(&mut g, true, vec![EngineEvent::Error(decode_error())]);
    assert_eq!(report, RunReport::Completed(TerminalOutcome::Errored(decode_error())));
    assert_eq!(g.state, GraphState::Stopped);

    let mut g = built_source(1, 5100);
    let report = supervise(&mut g, false, Vec::new());
    assert!(matches!(report, RunReport::NeverPlayed(_)));
    assert_eq!(g.state, GraphState::Stopped);

    let mut g = built_source(1, 5100);
    let report = supervise(&mut g, true, vec![EngineEvent::Other]);
    assert_eq!(report, RunReport::ForcedStop);
    assert_eq!(g.state, GraphState::Stopped);
}
