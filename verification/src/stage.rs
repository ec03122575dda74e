//! Declarative descriptions of media-processing stages: their kinds, their
//! configuration options, and the format each stage consumes and produces.
//! A descriptor is pure data; the media engine instantiates it.

use vstd::prelude::*;

verus! {

/// The closed set of processing capabilities a stage can have.
#[derive(Clone, Copy, PartialEq, Eq, Structural, Debug)]
pub enum StageKind {
    /// Receives transport packets from the network.
    NetworkReceive,
    /// Constrains (and, for raw audio, converts) the stream to a fixed format.
    FormatFilter,
    /// Extracts encoded audio payload from transport packet framing.
    Depacketize,
    /// Decodes compressed audio to raw frames.
    Decode,
    /// Encodes raw audio frames.
    EncodeFilter,
    /// Publishes raw frames into a named bus channel.
    BusPublish,
    /// Pulls raw frames out of a named bus channel.
    BusSubscribe,
    /// Collects N mono branches into one interleaved stream.
    Mixer,
    /// Plays audio out on the platform device.
    DeviceOutput,
}

/// Encoding identifiers understood by this deployment's transport profile.
#[derive(Clone, Copy, PartialEq, Eq, Structural, Debug)]
pub enum EncodingTag {
    /// The vendor-specific draft Opus RTP encoding tag.
    OpusDraft,
}

/// The format flowing across a link between two stages.
#[derive(Clone, Copy, PartialEq, Eq, Structural, Debug)]
pub enum MediaFormat {
    /// A source that does not constrain its output; fixed downstream.
    Unconstrained,
    /// Real-time transport packets carrying encoded audio.
    Rtp { payload: u8, clock_rate: u32, encoding: EncodingTag },
    /// Encoded audio after depacketizing.
    EncodedAudio { clock_rate: u32, encoding: EncodingTag },
    /// Raw audio frames with a channel count and a position mask.
    RawAudio { channels: u8, channel_mask: u32 },
    /// The mixer's interleaved multichannel output.
    Interleaved,
}

/// Keys a stage option can have; each is meaningful only for some kinds.
#[derive(Clone, Copy, PartialEq, Eq, Structural, Debug)]
pub enum OptionKey {
    /// Local address a network-receive stage binds to.
    BindAddress,
    /// UDP port a network-receive stage listens on.
    Port,
    /// The fixed format a format-filter stage enforces.
    Caps,
    /// The bus channel name a publish or subscribe stage attaches to.
    Channel,
    /// A diagnostic name for the mixer stage.
    MixerName,
}

/// A configuration value; its shape must fit the option's key.
#[derive(Clone, PartialEq, Eq, Debug)]
pub enum OptionValue {
    Text(String),
    Number(i64),
    Format(MediaFormat),
}

/// One configuration option of a stage.
#[derive(Clone, Debug)]
pub struct StageOption {
    pub key: OptionKey,
    pub value: OptionValue,
}

/// A declarative description of one processing stage: pure data,
/// instantiated by the media engine.
#[derive(Clone, Debug)]
pub struct StageDescriptor {
    pub kind: StageKind,
    pub options: Vec<StageOption>,
}

/// Whether an option key is meaningful for a stage kind. An option whose
/// key is not meaningful for its stage's kind is a construction error.
pub open spec fn key_allowed(kind: StageKind, key: OptionKey) -> bool {
    match kind {
        StageKind::NetworkReceive => key is BindAddress || key is Port,
        StageKind::FormatFilter => key is Caps,
        StageKind::BusPublish => key is Channel,
        StageKind::BusSubscribe => key is Channel,
        StageKind::Mixer => key is MixerName,
        _ => false,
    }
}

/// Whether a value has the shape its key demands; a port must also fit
/// the 16-bit range the transport allows.
pub open spec fn value_fits(key: OptionKey, value: OptionValue) -> bool {
    match key {
        OptionKey::BindAddress => value is Text,
        OptionKey::Port => value matches OptionValue::Number(n) && 0 <= n < 65536,
        OptionKey::Caps => value is Format,
        OptionKey::Channel => value is Text,
        OptionKey::MixerName => value is Text,
    }
}

/// An option binds successfully iff its key fits the kind and its value
/// fits its key.
pub open spec fn option_ok(kind: StageKind, opt: StageOption) -> bool {
    key_allowed(kind, opt.key) && value_fits(opt.key, opt.value)
}

/// All options of a descriptor would bind successfully.
pub open spec fn options_ok(d: StageDescriptor) -> bool {
    forall|i: int| 0 <= i < d.options@.len() ==> option_ok(d.kind, #[trigger] d.options@[i])
}

/// The first option value stored under `key`, if any.
pub open spec fn find_option(opts: Seq<StageOption>, key: OptionKey) -> Option<OptionValue>
    decreases opts.len(),
{
    if opts.len() == 0 {
        None
    } else if opts[0].key == key {
        Some(opts[0].value)
    } else {
        find_option(opts.drop_first(), key)
    }
}

/// The format a format-filter stage enforces: its caps option, or no
/// constraint at all when it carries none.
pub open spec fn filter_caps(d: StageDescriptor) -> MediaFormat {
    match find_option(d.options@, OptionKey::Caps) {
        Some(OptionValue::Format(f)) => f,
        _ => MediaFormat::Unconstrained,
    }
}

/// The format a stage offers on its output side; `None` for a stage with
/// no output (a sink).
pub open spec fn produces(d: StageDescriptor) -> Option<MediaFormat> {
    match d.kind {
        StageKind::NetworkReceive => Some(MediaFormat::Unconstrained),
        StageKind::FormatFilter => Some(filter_caps(d)),
        StageKind::Depacketize => Some(
            MediaFormat::EncodedAudio { clock_rate: 48000, encoding: EncodingTag::OpusDraft },
        ),
        StageKind::Decode => Some(MediaFormat::RawAudio { channels: 1, channel_mask: 0 }),
        StageKind::EncodeFilter => Some(
            MediaFormat::EncodedAudio { clock_rate: 48000, encoding: EncodingTag::OpusDraft },
        ),
        StageKind::BusPublish => None,
        StageKind::BusSubscribe => Some(MediaFormat::Unconstrained),
        StageKind::Mixer => Some(MediaFormat::Interleaved),
        StageKind::DeviceOutput => None,
    }
}

/// Whether a stage accepts `f` on its input side. A depacketizer insists
/// on fully fixed transport caps, which is why a source pipeline needs a
/// format filter between the network stage and the depacketizer.
pub open spec fn accepts(d: StageDescriptor, f: MediaFormat) -> bool {
    match d.kind {
        StageKind::NetworkReceive => false,
        StageKind::FormatFilter => match filter_caps(d) {
            // A raw-audio filter also converts, so any raw layout may enter.
            MediaFormat::RawAudio { .. } => f is Unconstrained || f is RawAudio,
            caps => f is Unconstrained || f == caps,
        },
        StageKind::Depacketize => f matches MediaFormat::Rtp { payload: _, clock_rate, encoding }
            && clock_rate == 48000 && encoding is OpusDraft,
        StageKind::Decode => f matches MediaFormat::EncodedAudio { clock_rate: _, encoding }
            && encoding is OpusDraft,
        StageKind::EncodeFilter => f is RawAudio,
        StageKind::BusPublish => f is RawAudio,
        StageKind::BusSubscribe => false,
        StageKind::Mixer => f matches MediaFormat::RawAudio { channels, channel_mask: _ }
            && channels == 1,
        StageKind::DeviceOutput => f is Interleaved || f is RawAudio,
    }
}

/// Whether the upstream stage's output can flow into the downstream
/// stage: the link the media engine would accept.
pub open spec fn compatible(up: StageDescriptor, down: StageDescriptor) -> bool {
    match produces(up) {
        Some(f) => accepts(down, f),
        None => false,
    }
}

impl StageDescriptor {
    /// Looks up the first option stored under `key`.
    pub fn option_value(&self, key: OptionKey) -> (r: Option<&OptionValue>)
        ensures
            match r {
                Some(v) => find_option(self.options@, key) == Some(*v),
                None => find_option(self.options@, key) is None,
            },
    {
        let n = self.options.len();
        let mut i: usize = 0;
        proof {
            assert(self.options@.skip(0) =~= self.options@);
        }
        while i < n
            invariant
                n == self.options@.len(),
                i <= n,
                find_option(self.options@, key) == find_option(self.options@.skip(i as int), key),
            decreases n - i,
        {
            proof {
                assert(self.options@.skip(i as int).drop_first() =~= self.options@.skip(
                    i as int + 1,
                ));
            }
            if self.options[i].key == key {
                return Some(&self.options[i].value);
            }
            i = i + 1;
        }
        None
    }
}

/// Executable test of `option_ok`.
pub fn check_option(kind: StageKind, opt: &StageOption) -> (r: bool)
    ensures
        r == option_ok(kind, *opt),
{
    let key_fits = match kind {
        StageKind::NetworkReceive => matches!(opt.key, OptionKey::BindAddress | OptionKey::Port),
        StageKind::FormatFilter => matches!(opt.key, OptionKey::Caps),
        StageKind::BusPublish => matches!(opt.key, OptionKey::Channel),
        StageKind::BusSubscribe => matches!(opt.key, OptionKey::Channel),
        StageKind::Mixer => matches!(opt.key, OptionKey::MixerName),
        _ => false,
    };
    let value_fits = match opt.key {
        OptionKey::BindAddress => matches!(opt.value, OptionValue::Text(_)),
        OptionKey::Port => match opt.value {
            OptionValue::Number(n) => 0 <= n && n < 65536,
            _ => false,
        },
        OptionKey::Caps => matches!(opt.value, OptionValue::Format(_)),
        OptionKey::Channel => matches!(opt.value, OptionValue::Text(_)),
        OptionKey::MixerName => matches!(opt.value, OptionValue::Text(_)),
    };
    key_fits && value_fits
}

/// Executable test of `options_ok`: returns the index of the first option
/// that would be rejected at bind time, if any.
pub fn check_options(d: &StageDescriptor) -> (r: Option<usize>)
    ensures
        r is None <==> options_ok(*d),
        r matches Some(i) ==> i < d.options@.len() && !option_ok(d.kind, d.options@[i as int])
            && forall|k: int| 0 <= k < i ==> option_ok(d.kind, #[trigger] d.options@[k]),
{
    let n = d.options.len();
    let mut i: usize = 0;
    while i < n
        invariant
            n == d.options@.len(),
            i <= n,
            forall|k: int| 0 <= k < i ==> option_ok(d.kind, #[trigger] d.options@[k]),
        decreases n - i,
    {
        if !check_option(d.kind, &d.options[i]) {
            return Some(i);
        }
        i = i + 1;
    }
    None
}

/// Executable test of `compatible`: whether the engine would link `up`
/// into `down`.
pub fn check_compatible(up: &StageDescriptor, down: &StageDescriptor) -> (r: bool)
    ensures
        r == compatible(*up, *down),
{
    let out: MediaFormat = match up.kind {
        StageKind::NetworkReceive => MediaFormat::Unconstrained,
        StageKind::FormatFilter => filter_caps_exec(up),
        StageKind::Depacketize => MediaFormat::EncodedAudio {
            clock_rate: 48000,
            encoding: EncodingTag::OpusDraft,
        },
        StageKind::Decode => MediaFormat::RawAudio { channels: 1, channel_mask: 0 },
        StageKind::EncodeFilter => MediaFormat::EncodedAudio {
            clock_rate: 48000,
            encoding: EncodingTag::OpusDraft,
        },
        StageKind::BusPublish => {
            return false;
        },
        StageKind::BusSubscribe => MediaFormat::Unconstrained,
        StageKind::Mixer => MediaFormat::Interleaved,
        StageKind::DeviceOutput => {
            return false;
        },
    };
    match down.kind {
        StageKind::NetworkReceive => false,
        StageKind::FormatFilter => match filter_caps_exec(down) {
            MediaFormat::RawAudio { .. } => matches!(
                out,
                MediaFormat::Unconstrained | MediaFormat::RawAudio { .. }
            ),
            caps => matches!(out, MediaFormat::Unconstrained) || out == caps,
        },
        StageKind::Depacketize => match out {
            MediaFormat::Rtp { payload: _, clock_rate, encoding } => clock_rate == 48000
                && matches!(encoding, EncodingTag::OpusDraft),
            _ => false,
        },
        StageKind::Decode => match out {
            MediaFormat::EncodedAudio { clock_rate: _, encoding } => matches!(
                encoding,
                EncodingTag::OpusDraft
            ),
            _ => false,
        },
        StageKind::EncodeFilter => matches!(out, MediaFormat::RawAudio { .. }),
        StageKind::BusPublish => matches!(out, MediaFormat::RawAudio { .. }),
        StageKind::BusSubscribe => false,
        StageKind::Mixer => match out {
            MediaFormat::RawAudio { channels, channel_mask: _ } => channels == 1,
            _ => false,
        },
        StageKind::DeviceOutput => matches!(
            out,
            MediaFormat::Interleaved | MediaFormat::RawAudio { .. }
        ),
    }
}

/// Executable counterpart of `filter_caps`.
pub fn filter_caps_exec(d: &StageDescriptor) -> (r: MediaFormat)
    ensures
        r == filter_caps(*d),
{
    match d.option_value(OptionKey::Caps) {
        Some(OptionValue::Format(f)) => *f,
        _ => MediaFormat::Unconstrained,
    }
}

} // verus!
