//! What a run is asked to do: the operating mode and the values it is made
//! of. All of them are fixed before the run starts and never change.

use vstd::prelude::*;

verus! {

/// Nanoseconds in one second.
pub const NANOS_PER_SEC: u32 = 1_000_000_000;

/// Seconds between two signal-quality readings.
pub const POLL_INTERVAL_SECS: u64 = 1;

/// A span of time: whole seconds and the nanoseconds beyond them.
#[derive(Clone, Copy, Debug, PartialEq, Eq)]
pub struct TimeSpan {
    secs: u64,
    nanos: u32,
}

impl TimeSpan {
    #[verifier::type_invariant]
    spec fn well_formed(self) -> bool {
        self.nanos < NANOS_PER_SEC
    }

    /// The whole seconds of the span.
    pub closed spec fn spec_secs(self) -> u64 {
        self.secs
    }

    /// The nanoseconds beyond the whole seconds.
    pub closed spec fn spec_subsec_nanos(self) -> u32 {
        self.nanos
    }

    /// The span in nanoseconds.
    pub open spec fn total_nanos(self) -> nat {
        (self.spec_secs() * NANOS_PER_SEC + self.spec_subsec_nanos()) as nat
    }

    /// The span of `secs` seconds and `nanos` nanoseconds, or `None` where
    /// `nanos` is a whole second or more.
    pub fn new(secs: u64, nanos: u32) -> (span: Option<TimeSpan>)
        ensures
            span.is_some() <==> nanos < NANOS_PER_SEC,
            span matches Some(s) ==> s.spec_secs() == secs && s.spec_subsec_nanos() == nanos,
    {
        if nanos < NANOS_PER_SEC {
            Some(TimeSpan { secs, nanos })
        } else {
            None
        }
    }

    /// A span of whole seconds.
    pub fn from_secs(secs: u64) -> (span: TimeSpan)
        ensures
            span.spec_secs() == secs,
            span.spec_subsec_nanos() == 0,
    {
        TimeSpan { secs, nanos: 0 }
    }

    pub fn secs(&self) -> (n: u64)
        ensures
            n == self.spec_secs(),
    {
        self.secs
    }

    pub fn subsec_nanos(&self) -> (n: u32)
        ensures
            n == self.spec_subsec_nanos(),
            n < NANOS_PER_SEC,
    {
        proof {
            use_type_invariant(self);
        }
        self.nanos
    }
}

/// The network a channel belongs to.
#[derive(Clone, Copy, Debug, PartialEq, Eq)]
pub enum ChannelType {
    Terrestrial,
    BS,
    CS,
    /// The channel string names no known network. Such a channel is never
    /// handed to a tuner.
    Undefined,
}

/// A channel as the operator wrote it, with the network it was recognised as.
#[derive(Clone, Debug, PartialEq, Eq)]
pub struct ChannelSpec {
    pub raw_string: String,
    pub channel_type: ChannelType,
}

impl ChannelSpec {
    /// Whether a tuner may be asked for this channel.
    pub open spec fn tunable(self) -> bool {
        !(self.channel_type is Undefined)
    }

    /// Whether a tuner may be asked for this channel: its type is defined.
    pub fn is_tunable(&self) -> (ok: bool)
        ensures
            ok == self.tunable(),
    {
        match self.channel_type {
            ChannelType::Undefined => false,
            _ => true,
        }
    }
}

/// The two halves of a working key.
#[derive(Clone, Copy, Debug, PartialEq, Eq)]
pub struct KeyPair {
    pub key0: u64,
    pub key1: u64,
}

/// Power fed to the antenna's converter.
#[derive(Clone, Copy, Debug, PartialEq, Eq)]
pub enum LnbPower {
    Low,
    Volts11,
    Volts15,
}

/// Number of rounds that the descrambler is run with.
pub const DECODER_ROUNDS: u32 = 4;

/// How the descrambling stage is set up.
#[derive(Clone, Copy, Debug, PartialEq, Eq)]
pub struct DecoderSettings {
    /// The working key, where one is in use.
    pub working_key: Option<KeyPair>,
    pub round: u32,
    pub strip: bool,
    pub emm: bool,
    pub simd: bool,
    pub verbose: bool,
}

/// The settings every run uses: four rounds, null packets stripped, EMM
/// processing on, and neither SIMD nor verbose output.
pub open spec fn standard_settings(key_pair: Option<KeyPair>) -> DecoderSettings {
    DecoderSettings {
        working_key: key_pair,
        round: DECODER_ROUNDS,
        strip: true,
        emm: true,
        simd: false,
        verbose: false,
    }
}

impl DecoderSettings {
    /// The settings of a run with the given working key.
    pub fn standard(key_pair: Option<KeyPair>) -> (settings: DecoderSettings)
        ensures
            settings == standard_settings(key_pair),
    {
        DecoderSettings {
            working_key: key_pair,
            round: DECODER_ROUNDS,
            strip: true,
            emm: true,
            simd: false,
            verbose: false,
        }
    }
}

/// What one run of the program does.
#[derive(Clone, Debug, PartialEq, Eq)]
pub enum OperatingMode {
    /// Tune to a channel and record the stream.
    Record {
        device: String,
        channel: ChannelSpec,
        duration: Option<TimeSpan>,
        decode_enabled: bool,
        output: String,
        lnb: Option<LnbPower>,
        key_pair: Option<KeyPair>,
    },
    /// Descramble a recorded stream.
    Decode { source: String, key_pair: Option<KeyPair>, output: String },
    /// Tune to a channel and report the signal quality until interrupted.
    CheckSignal { device: String, channel: ChannelSpec },
}

/// One line of what a run says about itself before it opens anything.
#[derive(Clone, Debug, PartialEq, Eq)]
pub enum BannerLine {
    /// The tuner device in use.
    Tuner(String),
    /// The channel, as written and as recognised.
    Channel { raw_string: String, channel_type: ChannelType },
    /// Whether the stream is descrambled.
    Decode { enabled: bool },
    /// The recording duration; `None` is a recording without end.
    Duration(Option<TimeSpan>),
    /// The source file.
    Source(String),
}

pub enum BannerLineView {
    Tuner(Seq<char>),
    Channel { raw_string: Seq<char>, channel_type: ChannelType },
    Decode { enabled: bool },
    Duration(Option<TimeSpan>),
    Source(Seq<char>),
}

impl View for BannerLine {
    type V = BannerLineView;

    open spec fn view(&self) -> BannerLineView {
        match *self {
            BannerLine::Tuner(device) => BannerLineView::Tuner(device@),
            BannerLine::Channel { raw_string, channel_type } => BannerLineView::Channel {
                raw_string: raw_string@,
                channel_type,
            },
            BannerLine::Decode { enabled } => BannerLineView::Decode { enabled },
            BannerLine::Duration(limit) => BannerLineView::Duration(limit),
            BannerLine::Source(path) => BannerLineView::Source(path@),
        }
    }
}

/// The lines a mode announces, in order: a recording names tuner, channel,
/// decoding and duration; a signal watch names tuner and channel; decoding a
/// file names the file.
pub open spec fn banner_of(mode: OperatingMode) -> Seq<BannerLineView> {
    match mode {
        OperatingMode::Record { device, channel, duration, decode_enabled, .. } => seq![
            BannerLineView::Tuner(device@),
            BannerLineView::Channel {
                raw_string: channel.raw_string@,
                channel_type: channel.channel_type,
            },
            BannerLineView::Decode { enabled: decode_enabled },
            BannerLineView::Duration(duration),
        ],
        OperatingMode::Decode { source, .. } => seq![BannerLineView::Source(source@)],
        OperatingMode::CheckSignal { device, channel } => seq![
            BannerLineView::Tuner(device@),
            BannerLineView::Channel {
                raw_string: channel.raw_string@,
                channel_type: channel.channel_type,
            },
        ],
    }
}

impl OperatingMode {
    /// Whether the mode names a channel whose type is undefined.
    pub open spec fn channel_rejected(self) -> bool {
        match self {
            OperatingMode::Record { channel, .. } => !channel.tunable(),
            OperatingMode::CheckSignal { channel, .. } => !channel.tunable(),
            OperatingMode::Decode { .. } => false,
        }
    }

    /// Whether the source is a tuner, as opposed to a file.
    pub open spec fn uses_tuner(self) -> bool {
        !(self is Decode)
    }

    /// Whether the stream passes through the descrambling stage.
    pub open spec fn decodes(self) -> bool {
        match self {
            OperatingMode::Record { decode_enabled, .. } => decode_enabled,
            OperatingMode::Decode { .. } => true,
            OperatingMode::CheckSignal { .. } => false,
        }
    }

    /// The duration after which the run stops by itself, if any.
    pub open spec fn time_limit(self) -> Option<TimeSpan> {
        match self {
            OperatingMode::Record { duration, .. } => duration,
            _ => None,
        }
    }

    /// The working key of the mode, if any.
    pub open spec fn working_key(self) -> Option<KeyPair> {
        match self {
            OperatingMode::Record { key_pair, .. } => key_pair,
            OperatingMode::Decode { key_pair, .. } => key_pair,
            OperatingMode::CheckSignal { .. } => None,
        }
    }

    /// What the run announces before it opens anything.
    pub fn banner(&self) -> (lines: Vec<BannerLine>)
        ensures
            lines@.len() == banner_of(*self).len(),
            forall|i: int| 0 <= i < lines@.len() ==> (#[trigger] lines@[i])@ == banner_of(*self)[i],
    {
        let mut lines: Vec<BannerLine> = Vec::new();
        match self {
            OperatingMode::Record { device, channel, duration, decode_enabled, .. } => {
                lines.push(BannerLine::Tuner(device.clone()));
                lines.push(
                    BannerLine::Channel {
                        raw_string: channel.raw_string.clone(),
                        channel_type: channel.channel_type,
                    },
                );
                lines.push(BannerLine::Decode { enabled: *decode_enabled });
                lines.push(BannerLine::Duration(*duration));
            },
            OperatingMode::Decode { source, .. } => {
                lines.push(BannerLine::Source(source.clone()));
            },
            OperatingMode::CheckSignal { device, channel } => {
                lines.push(BannerLine::Tuner(device.clone()));
                lines.push(
                    BannerLine::Channel {
                        raw_string: channel.raw_string.clone(),
                        channel_type: channel.channel_type,
                    },
                );
            },
        }
        lines
    }

    /// Whether the mode names a channel that no tuner may be asked for.
    pub fn has_rejected_channel(&self) -> (rejected: bool)
        ensures
            rejected == self.channel_rejected(),
    {
        match self {
            OperatingMode::Record { channel, .. } => !channel.is_tunable(),
            OperatingMode::CheckSignal { channel, .. } => !channel.is_tunable(),
            OperatingMode::Decode { .. } => false,
        }
    }

    /// Whether the source is a tuner.
    pub fn needs_tuner(&self) -> (tuner: bool)
        ensures
            tuner == self.uses_tuner(),
    {
        match self {
            OperatingMode::Decode { .. } => false,
            _ => true,
        }
    }

    /// Whether the mode only watches the signal and moves no data.
    pub fn is_check_signal(&self) -> (check: bool)
        ensures
            check == (*self is CheckSignal),
    {
        match self {
            OperatingMode::CheckSignal { .. } => true,
            _ => false,
        }
    }

    /// Whether the stream passes through the descrambling stage: always when
    /// decoding a file, and when recording unless decoding was switched off.
    pub fn wants_decoder(&self) -> (decode: bool)
        ensures
            decode == self.decodes(),
    {
        match self {
            OperatingMode::Record { decode_enabled, .. } => *decode_enabled,
            OperatingMode::Decode { .. } => true,
            OperatingMode::CheckSignal { .. } => false,
        }
    }

    /// The duration after which the run stops by itself. Only a recording
    /// can have one.
    pub fn duration(&self) -> (limit: Option<TimeSpan>)
        ensures
            limit == self.time_limit(),
    {
        match self {
            OperatingMode::Record { duration, .. } => *duration,
            _ => None,
        }
    }

    /// The working key that the descrambling stage is given.
    pub fn key_pair(&self) -> (key: Option<KeyPair>)
        ensures
            key == self.working_key(),
    {
        match self {
            OperatingMode::Record { key_pair, .. } => *key_pair,
            OperatingMode::Decode { key_pair, .. } => *key_pair,
            OperatingMode::CheckSignal { .. } => None,
        }
    }
}

} // verus!
