use voiceroom::bus::{AudioBus, BusError, BUS_CHANNEL_CAPACITY};
use voiceroom::stage::MediaFormat;

fn mono() -> MediaFormat {
    MediaFormat::RawAudio { channels: 1, channel_mask: 0 }
}

fn stereo() -> MediaFormat {
    MediaFormat::RawAudio { channels: 2, channel_mask: 0x3 }
}

#[test]
fn publish_before_any_subscriber_never_blocks() {
    // The publisher side springs the channel into existence and keeps
    // publishing with nobody listening; attaching a subscriber later
    // finds the buffered frames in publish order.
    let mut bus = AudioBus::new();
    bus.attach_publisher(1, mono()).expect("fresh channel must accept its publisher");
    for frame in 0..10u64 {
        bus.publish(1, frame);
    }
    bus.attach_subscriber(1, mono()).expect("subscribe after publish must succeed");
    for expect in 0..10u64 {
        assert_eq!(bus.pull(1), Some(expect));
    }
    assert_eq!(bus.pull(1), None);
}

#[test]
fn full_channel_drops_oldest_frame() {
    let mut bus = AudioBus::new();
    bus.attach_publisher(1, mono()).expect("fresh channel must accept its publisher");
    let total = (BUS_CHANNEL_CAPACITY + 3) as u64;
    for frame in 0..total {
        bus.publish(1, frame);
    }
    bus.attach_subscriber(1, mono()).expect("subscribe after publish must succeed");
    // The three oldest frames were dropped, never blocking the publisher.
    assert_eq!(bus.pull(1), Some(3));
    assert_eq!(bus.pull(1), Some(4));
}

#[test]
fn subscriber_may_attach_first() {
    let mut bus = AudioBus::new();
    bus.attach_subscriber(2, mono()).expect("subscribe side may create the channel");
    bus.attach_publisher(2, mono()).expect("publisher attaches to the waiting channel");
    assert_eq!(bus.pull(2), None);
    bus.publish(2, 41);
    assert_eq!(bus.pull(2), Some(41));
}

#[test]
fn mismatched_formats_cannot_share_a_channel() {
    let mut bus = AudioBus::new();
    bus.attach_publisher(1, mono()).expect("fresh channel must accept its publisher");
    assert_eq!(bus.attach_subscriber(1, stereo()), Err(BusError::FormatMismatch));
}

#[test]
fn second_publisher_is_refused() {
    let mut bus = AudioBus::new();
    bus.attach_publisher(1, mono()).expect("fresh channel must accept its publisher");
    assert_eq!(bus.attach_publisher(1, mono()), Err(BusError::PublisherTaken));
}

#[test]
fn channels_are_independent() {
    // Two participants publish on their own channels; each branch pulls
    // only its own frames, in its own order.
    let mut bus = AudioBus::new();
    bus.attach_publisher(1, mono()).expect("channel 1 publisher");
    bus.attach_publisher(2, mono()).expect("channel 2 publisher");
    bus.attach_subscriber(1, mono()).expect("channel 1 subscriber");
    bus.attach_subscriber(2, mono()).expect("channel 2 subscriber");
    bus.publish(1, 100);
    bus.publish(2, 200);
    bus.publish(1, 101);
    assert_eq!(bus.pull(2), Some(200));
    assert_eq!(bus.pull(1), Some(100));
    assert_eq!(bus.pull(1), Some(101));
    assert_eq!(bus.pull(2), None);
}
