//! Room setup: participants, the fixed transport profile, and the
//! builders that lay out each participant's source pipeline and the one
//! room mix pipeline as stage descriptor sequences whose construction
//! and linking are proved to succeed.

use vstd::prelude::*;

use crate::graph::{Link, seq_constructible, linear_links_ok, plan_ok, link_ok,
    stage_constructible};
use crate::name::{channel_name, channel_name_seq};
use crate::stage::{EncodingTag, MediaFormat, OptionKey, OptionValue, StageDescriptor, StageKind,
    StageOption, accepts, compatible, filter_caps, find_option, option_ok, options_ok, produces};

verus! {

/// The RTP payload type of this deployment's transport profile.
pub const RTP_PAYLOAD_TYPE: u8 = 96;

/// The RTP clock rate of this deployment's transport profile.
pub const RTP_CLOCK_RATE: u32 = 48000;

/// The most branches one mixer accepts: each branch owns one bit of the
/// 32-bit output channel mask.
pub const MAX_BRANCHES: usize = 32;

/// One conference participant; immutable for the room's duration.
#[derive(Clone, Copy, PartialEq, Eq, Structural, Debug)]
pub struct Participant {
    pub id: u32,
    pub network_port: u16,
}

/// A room: a name and its fixed participant set. The room owns one mix
/// pipeline and is fed, through the bus, by one source pipeline per
/// participant.
pub struct Room {
    pub name: String,
    pub participants: Vec<Participant>,
}

/// The transport packet format every participant sends.
pub open spec fn transport_profile() -> MediaFormat {
    MediaFormat::Rtp {
        payload: RTP_PAYLOAD_TYPE,
        clock_rate: RTP_CLOCK_RATE,
        encoding: EncodingTag::OpusDraft,
    }
}

/// The normalized per-branch layout the mixer requires of branch `i`:
/// mono, positioned at channel-mask bit `i`.
pub open spec fn branch_layout(i: int) -> MediaFormat {
    MediaFormat::RawAudio { channels: 1, channel_mask: 1u32 << i as u32 }
}

/// Participant ids must be pairwise distinct: each participant occupies
/// a distinct bus channel, so no two publishers ever contend for a name.
pub open spec fn distinct_ids(parts: Seq<Participant>) -> bool {
    forall|i: int, j: int| 0 <= i < j < parts.len() ==> (#[trigger] parts[i].id) != (
    #[trigger] parts[j].id)
}

impl Room {
    /// A valid room: distinct participant ids, and few enough branches
    /// for each to own one bit of the mixer's output mask.
    pub open spec fn wf(self) -> bool {
        distinct_ids(self.participants@) && self.participants@.len() <= MAX_BRANCHES
    }

    /// Assembles a room, rejecting a participant set with a duplicated
    /// id or with more members than the mixer has mask bits.
    pub fn new(name: String, participants: Vec<Participant>) -> (r: Option<Room>)
        ensures
            r is Some <==> (distinct_ids(participants@) && participants@.len() <= MAX_BRANCHES),
            r matches Some(room) ==> room.wf() && room.participants@ == participants@
                && room.name@ == name@,
    {
        let n = participants.len();
        if n > MAX_BRANCHES {
            return None;
        }
        let mut i: usize = 0;
        while i < n
            invariant
                n == participants@.len(),
                i <= n,
                forall|a: int, b: int| 0 <= a < b < n && a < i ==> (
                #[trigger] participants@[a].id) != (#[trigger] participants@[b].id),
            decreases n - i,
        {
            let mut j: usize = i + 1;
            while j < n
                invariant
                    n == participants@.len(),
                    i < j <= n || (i >= n && j == i + 1),
                    i < n,
                    forall|b: int| i < b < j ==> (#[trigger] participants@[b].id)
                        != participants@[i as int].id,
                decreases n - j,
            {
                if participants[j].id == participants[i].id {
                    return None;
                }
                j = j + 1;
            }
            i = i + 1;
        }
        Some(Room { name, participants })
    }
}

/// The shape of a participant source pipeline's descriptor sequence:
/// network receive -> transport format filter -> depacketize -> decode
/// -> bus publish, with the options each stage needs. `bind` is the
/// optional local bind address handed down from the environment.
pub open spec fn is_source_descs(
    s: Seq<StageDescriptor>,
    p: Participant,
    bind: Option<Seq<char>>,
) -> bool {
    &&& s.len() == 5
    &&& s[0].kind is NetworkReceive
    &&& s[0].options@.len() == if bind is Some {
        2int
    } else {
        1int
    }
    &&& find_option(s[0].options@, OptionKey::Port) == Some(
        OptionValue::Number(p.network_port as i64),
    )
    &&& match bind {
        Some(b) => find_option(s[0].options@, OptionKey::BindAddress) matches Some(
            OptionValue::Text(t),
        ) && t@ == b,
        None => find_option(s[0].options@, OptionKey::BindAddress) is None,
    }
    &&& s[1].kind is FormatFilter
    &&& s[1].options@.len() == 1
    &&& find_option(s[1].options@, OptionKey::Caps) == Some(
        OptionValue::Format(transport_profile()),
    )
    &&& s[2].kind is Depacketize
    &&& s[2].options@.len() == 0
    &&& s[3].kind is Decode
    &&& s[3].options@.len() == 0
    &&& s[4].kind is BusPublish
    &&& s[4].options@.len() == 1
    &&& find_option(s[4].options@, OptionKey::Channel) matches Some(OptionValue::Text(t))
        && t@ == channel_name_seq(p.id as nat)
    &&& forall|i: int| 0 <= i < s.len() ==> options_ok(#[trigger] s[i])
}

/// The shape of the room mix pipeline's descriptor sequence: per
/// participant one branch of bus subscribe -> normalizing format
/// filter, then the shared mixer, then the device output.
pub open spec fn is_mix_descs(s: Seq<StageDescriptor>, parts: Seq<Participant>) -> bool {
    &&& s.len() == 2 * parts.len() + 2
    &&& parts.len() <= MAX_BRANCHES
    &&& forall|i: int| 0 <= i < parts.len() ==> {
        &&& (#[trigger] s[2 * i]).kind is BusSubscribe
        &&& s[2 * i].options@.len() == 1
        &&& find_option(s[2 * i].options@, OptionKey::Channel) matches Some(
            OptionValue::Text(t),
        ) && t@ == channel_name_seq(parts[i].id as nat)
        &&& s[2 * i + 1].kind is FormatFilter
        &&& s[2 * i + 1].options@.len() == 1
        &&& find_option(s[2 * i + 1].options@, OptionKey::Caps) == Some(
            OptionValue::Format(branch_layout(i)),
        )
    }
    &&& s[2 * (parts.len() as int)].kind is Mixer
    &&& s[2 * (parts.len() as int) + 1].kind is DeviceOutput
    &&& s[2 * (parts.len() as int) + 1].options@.len() == 0
    &&& forall|i: int| 0 <= i < s.len() ==> options_ok(#[trigger] s[i])
}

/// The link plan of the mix topology over `n` branches: each branch
/// pair in order, each branch's filter into the mixer as one more
/// input, and the mixer into the output stage.
pub open spec fn mix_plan_seq(n: int) -> Seq<Link> {
    Seq::new(
        (2 * n + 1) as nat,
        |k: int|
            if k < 2 * n {
                if k % 2 == 0 {
                    Link { from: k as usize, to: (k + 1) as usize }
                } else {
                    Link { from: k as usize, to: (2 * n) as usize }
                }
            } else {
                Link { from: (2 * n) as usize, to: (2 * n + 1) as usize }
            },
    )
}

/// Builds the descriptor sequence of one participant's source pipeline.
pub fn source_descriptors(p: &Participant, bind_address: Option<String>) -> (r: Vec<
    StageDescriptor,
>)
    ensures
        is_source_descs(
            r@,
            *p,
            match bind_address {
                Some(b) => Some(b@),
                None => None,
            },
        ),
{
    let ghost bind_view: Option<Seq<char>> = match &bind_address {
        Some(b) => Some(b@),
        None => None,
    };
    let mut receive_opts: Vec<StageOption> = Vec::new();
    match bind_address {
        Some(addr) => {
            receive_opts.push(
                StageOption { key: OptionKey::BindAddress, value: OptionValue::Text(addr) },
            );
        },
        None => {},
    }
    receive_opts.push(
        StageOption { key: OptionKey::Port, value: OptionValue::Number(p.network_port as i64) },
    );
    let mut filter_opts: Vec<StageOption> = Vec::new();
    filter_opts.push(
        StageOption {
            key: OptionKey::Caps,
            value: OptionValue::Format(
                MediaFormat::Rtp {
                    payload: RTP_PAYLOAD_TYPE,
                    clock_rate: RTP_CLOCK_RATE,
                    encoding: EncodingTag::OpusDraft,
                },
            ),
        },
    );
    let mut publish_opts: Vec<StageOption> = Vec::new();
    publish_opts.push(
        StageOption { key: OptionKey::Channel, value: OptionValue::Text(channel_name(p.id)) },
    );
    let mut descs: Vec<StageDescriptor> = Vec::new();
    descs.push(StageDescriptor { kind: StageKind::NetworkReceive, options: receive_opts });
    descs.push(StageDescriptor { kind: StageKind::FormatFilter, options: filter_opts });
    descs.push(StageDescriptor { kind: StageKind::Depacketize, options: Vec::new() });
    descs.push(StageDescriptor { kind: StageKind::Decode, options: Vec::new() });
    descs.push(StageDescriptor { kind: StageKind::BusPublish, options: publish_opts });
    proof {
        let s = descs@;
        let o0 = s[0].options@;
        if bind_view is Some {
            assert(o0.len() == 2);
            assert(o0.drop_first() =~= seq![o0[1]]);
            assert(find_option(o0.drop_first(), OptionKey::Port) == Some(
                OptionValue::Number(p.network_port as i64),
            ));
            assert(find_option(o0, OptionKey::Port) == Some(
                OptionValue::Number(p.network_port as i64),
            ));
        } else {
            assert(o0.len() == 1);
            assert(o0.drop_first().len() == 0);
            assert(find_option(o0.drop_first(), OptionKey::BindAddress) is None);
            assert(find_option(o0, OptionKey::BindAddress) is None);
        }
        assert forall|i: int| 0 <= i < s.len() implies options_ok(#[trigger] s[i]) by {
            assert(i == 0 || i == 1 || i == 2 || i == 3 || i == 4);
            assert(forall|j: int| 0 <= j < o0.len() ==> option_ok(s[0].kind, #[trigger] o0[j]));
            assert(forall|j: int| 0 <= j < s[1].options@.len() ==> option_ok(
                s[1].kind,
                #[trigger] s[1].options@[j],
            ));
            assert(forall|j: int| 0 <= j < s[4].options@.len() ==> option_ok(
                s[4].kind,
                #[trigger] s[4].options@[j],
            ));
        }
        assert(is_source_descs(s, *p, bind_view));
    }
    descs
}

/// Builds the descriptor sequence of the room mix pipeline.
pub fn mix_descriptors(room: &Room) -> (r: Vec<StageDescriptor>)
    requires
        room.wf(),
    ensures
        is_mix_descs(r@, room.participants@),
{
    let n = room.participants.len();
    let mut descs: Vec<StageDescriptor> = Vec::new();
    let mut i: usize = 0;
    while i < n
        invariant
            n == room.participants@.len(),
            n <= MAX_BRANCHES,
            i <= n,
            descs@.len() == 2 * i,
            forall|k: int| 0 <= k < i ==> {
                &&& (#[trigger] descs@[2 * k]).kind is BusSubscribe
                &&& descs@[2 * k].options@.len() == 1
                &&& find_option(descs@[2 * k].options@, OptionKey::Channel) matches Some(
                    OptionValue::Text(t),
                ) && t@ == channel_name_seq(room.participants@[k].id as nat)
                &&& descs@[2 * k + 1].kind is FormatFilter
                &&& descs@[2 * k + 1].options@.len() == 1
                &&& find_option(descs@[2 * k + 1].options@, OptionKey::Caps) == Some(
                    OptionValue::Format(branch_layout(k)),
                )
            },
            forall|k: int| 0 <= k < descs@.len() ==> options_ok(#[trigger] descs@[k]),
        decreases n - i,
    {
        let mut subscribe_opts: Vec<StageOption> = Vec::new();
        subscribe_opts.push(
            StageOption {
                key: OptionKey::Channel,
                value: OptionValue::Text(channel_name(room.participants[i].id)),
            },
        );
        let mut convert_opts: Vec<StageOption> = Vec::new();
        let mask: u32 = 1u32 << (i as u32);
        convert_opts.push(
            StageOption {
                key: OptionKey::Caps,
                value: OptionValue::Format(
                    MediaFormat::RawAudio { channels: 1, channel_mask: mask },
                ),
            },
        );
        descs.push(StageDescriptor { kind: StageKind::BusSubscribe, options: subscribe_opts });
        descs.push(StageDescriptor { kind: StageKind::FormatFilter, options: convert_opts });
        i = i + 1;
    }
    let mut mixer_opts: Vec<StageOption> = Vec::new();
    mixer_opts.push(
        StageOption { key: OptionKey::MixerName, value: OptionValue::Text(String::new()) },
    );
    descs.push(StageDescriptor { kind: StageKind::Mixer, options: mixer_opts });
    descs.push(StageDescriptor { kind: StageKind::DeviceOutput, options: Vec::new() });
    descs
}

/// Builds the link plan of the mix topology over `n` branches.
pub fn mix_link_plan(n: usize) -> (r: Vec<Link>)
    requires
        n <= MAX_BRANCHES,
    ensures
        r@ == mix_plan_seq(n as int),
{
    let mut plan: Vec<Link> = Vec::new();
    let mut i: usize = 0;
    while i < n
        invariant
            n <= MAX_BRANCHES,
            i <= n,
            plan@.len() == 2 * i,
            forall|k: int| 0 <= k < plan@.len() ==> plan@[k] == mix_plan_seq(n as int)[k],
        decreases n - i,
    {
        plan.push(Link { from: 2 * i, to: 2 * i + 1 });
        plan.push(Link { from: 2 * i + 1, to: 2 * n });
        i = i + 1;
    }
    plan.push(Link { from: 2 * n, to: 2 * n + 1 });
    proof {
        assert(plan@ =~= mix_plan_seq(n as int));
    }
    plan
}

/// A source pipeline's stages always construct (against an engine
/// supporting its five kinds) and always link in order: adjacent
/// formats match by construction.
pub proof fn lemma_source_pipeline_valid(
    sup: Seq<StageKind>,
    s: Seq<StageDescriptor>,
    p: Participant,
    bind: Option<Seq<char>>,
)
    requires
        is_source_descs(s, p, bind),
        sup.contains(StageKind::NetworkReceive),
        sup.contains(StageKind::FormatFilter),
        sup.contains(StageKind::Depacketize),
        sup.contains(StageKind::Decode),
        sup.contains(StageKind::BusPublish),
    ensures
        seq_constructible(sup, s),
        linear_links_ok(s),
{
    assert forall|i: int| 0 <= i < s.len() implies stage_constructible(sup, #[trigger] s[i]) by {
        assert(options_ok(s[i]));
    }
    assert(filter_caps(s[1]) == transport_profile());
    assert(compatible(s[0], s[1]));
    assert(compatible(s[1], s[2]));
    assert(compatible(s[2], s[3]));
    assert(compatible(s[3], s[4]));
    assert forall|i: int| 0 <= i < s.len() - 1 implies compatible(#[trigger] s[i], s[i + 1]) by {
        assert(i == 0 || i == 1 || i == 2 || i == 3);
    }
}

/// The mix pipeline's stages always construct (against an engine
/// supporting its four kinds) and its whole link plan is accepted:
/// every branch enters the mixer as one more mono input.
pub proof fn lemma_mix_pipeline_valid(
    sup: Seq<StageKind>,
    s: Seq<StageDescriptor>,
    parts: Seq<Participant>,
)
    requires
        is_mix_descs(s, parts),
        sup.contains(StageKind::BusSubscribe),
        sup.contains(StageKind::FormatFilter),
        sup.contains(StageKind::Mixer),
        sup.contains(StageKind::DeviceOutput),
    ensures
        seq_constructible(sup, s),
        plan_ok(s, mix_plan_seq(parts.len() as int)),
{
    let n = parts.len() as int;
    assert forall|i: int| 0 <= i < s.len() implies stage_constructible(sup, #[trigger] s[i]) by {
        assert(options_ok(s[i]));
        if i < 2 * n {
            let k = i / 2;
            if i % 2 == 0 {
                assert(i == 2 * k);
                assert(s[2 * k].kind is BusSubscribe);
            } else {
                assert(i == 2 * k + 1);
                assert(s[2 * k + 1].kind is FormatFilter);
            }
        }
    }
    assert forall|k: int| 0 <= k < mix_plan_seq(n).len() implies link_ok(
        s,
        #[trigger] mix_plan_seq(n)[k],
    ) by {
        let l = mix_plan_seq(n)[k];
        if k < 2 * n {
            let i = k / 2;
            if k % 2 == 0 {
                assert(k == 2 * i);
                assert(s[2 * i].kind is BusSubscribe);
                assert(s[2 * i + 1].kind is FormatFilter);
                assert(filter_caps(s[2 * i + 1]) == branch_layout(i));
                assert(compatible(s[k], s[k + 1]));
            } else {
                assert(k == 2 * i + 1);
                assert(s[2 * i + 1].kind is FormatFilter);
                assert(filter_caps(s[2 * i + 1]) == branch_layout(i));
                assert(produces(s[2 * i + 1]) == Some(branch_layout(i)));
                assert(s[2 * n].kind is Mixer);
                assert(accepts(s[2 * n], branch_layout(i)));
                assert(compatible(s[k], s[2 * n]));
            }
        } else {
            assert(k == 2 * n);
            assert(compatible(s[2 * n], s[2 * n + 1]));
        }
    }
}

/// The rendezvous contract: the publish stage of participant `p`'s
/// source pipeline and the subscribe stage of `p`'s branch in the mix
/// pipeline carry the identical channel name — the sole coupling
/// between the two independently owned pipelines.
pub proof fn lemma_channel_rendezvous(
    src: Seq<StageDescriptor>,
    mix: Seq<StageDescriptor>,
    parts: Seq<Participant>,
    p: Participant,
    bind: Option<Seq<char>>,
    i: int,
)
    requires
        is_source_descs(src, p, bind),
        is_mix_descs(mix, parts),
        0 <= i < parts.len(),
        parts[i] == p,
    ensures
        find_option(src[4].options@, OptionKey::Channel) matches Some(OptionValue::Text(a))
            && find_option(mix[2 * i].options@, OptionKey::Channel) matches Some(
            OptionValue::Text(b),
        ) && a@ == b@,
{
}

} // verus!
