//! The signal model: channel roles, stream specifications and decoded audio
//! buffers, plus the mapping of channel roles to PulseAudio positions that
//! the blocking-write backend negotiates at open time.

use vstd::prelude::*;

verus! {

/// A channel role a decoded stream can carry.  The order of the variants is
/// the interleaving order of a layout: a well-formed layout lists its roles
/// strictly ascending in this order.
#[derive(Clone, Copy, Debug, PartialEq, Eq, Structural)]
pub enum Channel {
    FrontLeft,
    FrontRight,
    FrontCentre,
    Lfe1,
    RearLeft,
    RearRight,
    FrontLeftCentre,
    FrontRightCentre,
    RearCentre,
    SideLeft,
    SideRight,
    TopCentre,
    TopFrontLeft,
    TopFrontCentre,
    TopFrontRight,
    TopRearLeft,
    TopRearCentre,
    TopRearRight,
    RearLeftCentre,
    RearRightCentre,
    Lfe2,
}

/// The rank of a role in the interleaving order.
pub open spec fn channel_rank(c: Channel) -> int {
    match c {
        Channel::FrontLeft => 0,
        Channel::FrontRight => 1,
        Channel::FrontCentre => 2,
        Channel::Lfe1 => 3,
        Channel::RearLeft => 4,
        Channel::RearRight => 5,
        Channel::FrontLeftCentre => 6,
        Channel::FrontRightCentre => 7,
        Channel::RearCentre => 8,
        Channel::SideLeft => 9,
        Channel::SideRight => 10,
        Channel::TopCentre => 11,
        Channel::TopFrontLeft => 12,
        Channel::TopFrontCentre => 13,
        Channel::TopFrontRight => 14,
        Channel::TopRearLeft => 15,
        Channel::TopRearCentre => 16,
        Channel::TopRearRight => 17,
        Channel::RearLeftCentre => 18,
        Channel::RearRightCentre => 19,
        Channel::Lfe2 => 20,
    }
}

/// An ordered set of channel roles: the channel layout of one stream.
pub struct ChannelLayout {
    pub roles: Vec<Channel>,
}

impl ChannelLayout {
    /// The roles are pairwise distinct and listed in interleaving order.
    pub open spec fn wf(self) -> bool {
        forall|i: int, j: int|
            0 <= i < j < self.roles@.len() ==> channel_rank(self.roles@[i]) < channel_rank(
                self.roles@[j],
            )
    }

    pub open spec fn count_spec(self) -> nat {
        self.roles@.len()
    }

    /// The number of channels in the layout.
    pub fn count(&self) -> (r: usize)
        ensures
            r == self.count_spec(),
    {
        self.roles.len()
    }
}

/// The immutable description of one opened stream: its sample rate in Hz and
/// its channel layout.  Fixed for the stream's lifetime; determines buffer
/// sizing and channel-map negotiation.
pub struct SignalSpec {
    pub rate: u32,
    pub channels: ChannelLayout,
}

impl SignalSpec {
    pub open spec fn wf(self) -> bool {
        &&& self.rate >= 1
        &&& 1 <= self.channels.count_spec() <= 64
        &&& self.channels.wf()
    }
}

/// A block of decoded, non-interleaved audio: one plane of samples per
/// channel, all planes of the same length (the frame count, possibly zero).
/// Owned by the decode pipeline and borrowed by the output for a write.
pub struct DecodedBuffer<S> {
    pub planes: Vec<Vec<S>>,
}

impl<S> DecodedBuffer<S> {
    pub open spec fn wf(self) -> bool {
        forall|c: int|
            0 <= c < self.planes@.len() ==> (#[trigger] self.planes@[c])@.len()
                == self.frames_spec()
    }

    pub open spec fn frames_spec(self) -> nat {
        if self.planes@.len() == 0 {
            0
        } else {
            self.planes@[0]@.len()
        }
    }

    /// The number of frames in the buffer.
    pub fn frames(&self) -> (r: usize)
        ensures
            r == self.frames_spec(),
    {
        if self.planes.len() == 0 {
            0
        } else {
            self.planes[0].len()
        }
    }
}

/// The interleaving of `ch` planes of `frames` samples each: consecutive
/// values belong to successive channels of the same frame.
pub open spec fn interleaved_spec<S>(planes: Seq<Seq<S>>, frames: int, ch: int) -> Seq<S>
    recommends
        ch >= 1,
{
    Seq::new((frames * ch) as nat, |i: int| planes[i % ch][i / ch])
}

/// Converts a decoded (planar) buffer into one interleaved sample vector,
/// frame by frame in channel order.
pub fn interleave<S: Copy>(decoded: &DecodedBuffer<S>) -> (r: Vec<S>)
    requires
        decoded.wf(),
        decoded.planes@.len() >= 1,
        decoded.frames_spec() * decoded.planes@.len() <= usize::MAX,
    ensures
        r@ == interleaved_spec(
            decoded.planes@.map_values(|p: Vec<S>| p@),
            decoded.frames_spec() as int,
            decoded.planes@.len() as int,
        ),
{
    let ch = decoded.planes.len();
    let frames = decoded.frames();
    let ghost ps = decoded.planes@.map_values(|p: Vec<S>| p@);
    let ghost target = interleaved_spec(ps, frames as int, ch as int);
    let mut out: Vec<S> = Vec::new();
    let mut f: usize = 0;
    while f < frames
        invariant
            f <= frames,
            ch == decoded.planes@.len(),
            ch >= 1,
            frames == decoded.frames_spec(),
            decoded.wf(),
            frames * ch <= usize::MAX,
            ps == decoded.planes@.map_values(|p: Vec<S>| p@),
            target == interleaved_spec(ps, frames as int, ch as int),
            out@.len() == f * ch,
            forall|i: int| 0 <= i < f * ch ==> out@[i] == target[i],
        decreases frames - f,
    {
        let mut c: usize = 0;
        proof {
            assert((f + 1) * ch == f * ch + ch) by (nonlinear_arith);
            assert(f * ch + ch <= frames * ch) by (nonlinear_arith)
                requires
                    f < frames,
                    ch >= 1,
            ;
        }
        while c < ch
            invariant
                c <= ch,
                f < frames,
                ch == decoded.planes@.len(),
                ch >= 1,
                frames == decoded.frames_spec(),
                decoded.wf(),
                f * ch + ch <= frames * ch,
                frames * ch <= usize::MAX,
                ps == decoded.planes@.map_values(|p: Vec<S>| p@),
                target == interleaved_spec(ps, frames as int, ch as int),
                out@.len() == f * ch + c,
                forall|i: int| 0 <= i < f * ch + c ==> out@[i] == target[i],
            decreases ch - c,
        {
            proof {
                vstd::arithmetic::div_mod::lemma_fundamental_div_mod_converse(
                    f * ch + c,
                    ch as int,
                    f as int,
                    c as int,
                );
            }
            out.push(decoded.planes[c][f]);
            c += 1;
        }
        f += 1;
    }
    proof {
        assert(out@ =~= target);
    }
    out
}

/// A PulseAudio channel position, the target of the channel-map negotiation.
#[derive(Clone, Copy, Debug, PartialEq, Eq, Structural)]
pub enum PaPosition {
    Mono,
    FrontLeft,
    FrontRight,
    FrontCenter,
    RearLeft,
    RearCenter,
    RearRight,
    Lfe,
    FrontLeftOfCenter,
    FrontRightOfCenter,
    SideLeft,
    SideRight,
    TopCenter,
    TopFrontLeft,
    TopFrontCenter,
    TopFrontRight,
    TopRearLeft,
    TopRearCenter,
    TopRearRight,
}

/// The PulseAudio position a role maps to, if it has one.  In a one-channel
/// layout the front-left role plays as mono.
pub open spec fn pa_position_of(c: Channel, is_mono: bool) -> Option<PaPosition> {
    match c {
        Channel::FrontLeft => if is_mono {
            Some(PaPosition::Mono)
        } else {
            Some(PaPosition::FrontLeft)
        },
        Channel::FrontRight => Some(PaPosition::FrontRight),
        Channel::FrontCentre => Some(PaPosition::FrontCenter),
        Channel::RearLeft => Some(PaPosition::RearLeft),
        Channel::RearCentre => Some(PaPosition::RearCenter),
        Channel::RearRight => Some(PaPosition::RearRight),
        Channel::Lfe1 => Some(PaPosition::Lfe),
        Channel::FrontLeftCentre => Some(PaPosition::FrontLeftOfCenter),
        Channel::FrontRightCentre => Some(PaPosition::FrontRightOfCenter),
        Channel::SideLeft => Some(PaPosition::SideLeft),
        Channel::SideRight => Some(PaPosition::SideRight),
        Channel::TopCentre => Some(PaPosition::TopCenter),
        Channel::TopFrontLeft => Some(PaPosition::TopFrontLeft),
        Channel::TopFrontCentre => Some(PaPosition::TopFrontCenter),
        Channel::TopFrontRight => Some(PaPosition::TopFrontRight),
        Channel::TopRearLeft => Some(PaPosition::TopRearLeft),
        Channel::TopRearCentre => Some(PaPosition::TopRearCenter),
        Channel::TopRearRight => Some(PaPosition::TopRearRight),
        Channel::RearLeftCentre => None,
        Channel::RearRightCentre => None,
        Channel::Lfe2 => None,
    }
}

/// Whether every role of the layout has a PulseAudio position.
pub open spec fn layout_mappable(layout: ChannelLayout) -> bool {
    forall|i: int|
        0 <= i < layout.roles@.len() ==> pa_position_of(
            #[trigger] layout.roles@[i],
            layout.roles@.len() == 1,
        ) is Some
}

/// The exec counterpart of [`pa_position_of`].
fn pa_position_for(c: Channel, is_mono: bool) -> (r: Option<PaPosition>)
    ensures
        r == pa_position_of(c, is_mono),
{
    match c {
        Channel::FrontLeft => if is_mono {
            Some(PaPosition::Mono)
        } else {
            Some(PaPosition::FrontLeft)
        },
        Channel::FrontRight => Some(PaPosition::FrontRight),
        Channel::FrontCentre => Some(PaPosition::FrontCenter),
        Channel::RearLeft => Some(PaPosition::RearLeft),
        Channel::RearCentre => Some(PaPosition::RearCenter),
        Channel::RearRight => Some(PaPosition::RearRight),
        Channel::Lfe1 => Some(PaPosition::Lfe),
        Channel::FrontLeftCentre => Some(PaPosition::FrontLeftOfCenter),
        Channel::FrontRightCentre => Some(PaPosition::FrontRightOfCenter),
        Channel::SideLeft => Some(PaPosition::SideLeft),
        Channel::SideRight => Some(PaPosition::SideRight),
        Channel::TopCentre => Some(PaPosition::TopCenter),
        Channel::TopFrontLeft => Some(PaPosition::TopFrontLeft),
        Channel::TopFrontCentre => Some(PaPosition::TopFrontCenter),
        Channel::TopFrontRight => Some(PaPosition::TopFrontRight),
        Channel::TopRearLeft => Some(PaPosition::TopRearLeft),
        Channel::TopRearCentre => Some(PaPosition::TopRearCenter),
        Channel::TopRearRight => Some(PaPosition::TopRearRight),
        Channel::RearLeftCentre => None,
        Channel::RearRightCentre => None,
        Channel::Lfe2 => None,
    }
}

/// Maps a channel layout to a PulseAudio channel map, position by position in
/// interleaving order.  A layout with a role that has no PulseAudio
/// equivalent is unrepresentable: the whole map is refused, so that the
/// backend fails to open rather than dropping or reordering channels.
pub fn map_channels_to_pa_channelmap(channels: &ChannelLayout) -> (r: Option<Vec<PaPosition>>)
    ensures
        r is Some <==> layout_mappable(*channels),
        r matches Some(map) ==> {
            &&& map@.len() == channels.roles@.len()
            &&& forall|i: int|
                0 <= i < map@.len() ==> Some(#[trigger] map@[i]) == pa_position_of(
                    channels.roles@[i],
                    channels.roles@.len() == 1,
                )
        },
{
    let is_mono = channels.roles.len() == 1;
    let mut map: Vec<PaPosition> = Vec::new();
    let mut i: usize = 0;
    while i < channels.roles.len()
        invariant
            0 <= i <= channels.roles@.len(),
            is_mono == (channels.roles@.len() == 1),
            map@.len() == i,
            forall|k: int|
                0 <= k < i ==> Some(#[trigger] map@[k]) == pa_position_of(
                    channels.roles@[k],
                    channels.roles@.len() == 1,
                ),
            forall|k: int|
                0 <= k < i ==> pa_position_of(#[trigger] channels.roles@[k], is_mono) is Some,
        decreases channels.roles@.len() - i,
    {
        match pa_position_for(channels.roles[i], is_mono) {
            Some(p) => {
                map.push(p);
            },
            None => {
                return None;
            },
        }
        i += 1;
    }
    Some(map)
}

} // verus!
