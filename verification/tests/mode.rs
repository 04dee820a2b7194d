use recisdb::mode::BannerLine;
use recisdb::mode::ChannelSpec;
use recisdb::mode::ChannelType;
use recisdb::mode::DecoderSettings;
use recisdb::mode::KeyPair;
use recisdb::mode::LnbPower;
use recisdb::mode::OperatingMode;
use recisdb::mode::TimeSpan;
use recisdb::mode::DECODER_ROUNDS;
use recisdb::mode::NANOS_PER_SEC;
use recisdb::mode::POLL_INTERVAL_SECS;

fn channel_of(raw: &str, channel_type: ChannelType) -> ChannelSpec {
    ChannelSpec { raw_string: raw.to_string(), channel_type }
}

fn record_mode(channel_type: ChannelType, decode_enabled: bool) -> OperatingMode {
    OperatingMode::Record {
        device: "/dev/px4video0".to_string(),
        channel: channel_of("T18", channel_type),
        duration: TimeSpan::new(30, 500_000_000),
        decode_enabled,
        output: "out.ts".to_string(),
        lnb: Some(LnbPower::Volts15),
        key_pair: Some(KeyPair { key0: 1, key1: 2 }),
    }
}

#[test]
fn time_span_keeps_seconds_and_nanoseconds() {
    let span = TimeSpan::new(2, 999_999_999).unwrap();
    assert_eq!(span.secs(), 2);
    assert_eq!(span.subsec_nanos(), 999_999_999);
    let zero = TimeSpan::new(0, 0).unwrap();
    assert_eq!(zero.secs(), 0);
    assert_eq!(zero.subsec_nanos(), 0);
    assert_eq!(zero, TimeSpan::from_secs(0));
    let most = TimeSpan::new(u64::MAX, 999_999_999).unwrap();
    assert_eq!(most.secs(), u64::MAX);
}

#[test]
fn time_span_rejects_a_whole_second_of_nanoseconds() {
    assert_eq!(NANOS_PER_SEC, 1_000_000_000);
    assert!(TimeSpan::new(0, 1_000_000_000).is_none());
    assert!(TimeSpan::new(5, u32::MAX).is_none());
    assert!(TimeSpan::new(5, 999_999_999).is_some());
}

#[test]
fn whole_seconds_have_no_nanoseconds() {
    let span = TimeSpan::from_secs(2);
    assert_eq!(span.secs(), 2);
    assert_eq!(span.subsec_nanos(), 0);
    assert_eq!(Some(span), TimeSpan::new(2, 0));
    assert_eq!(POLL_INTERVAL_SECS, 1);
}

#[test]
fn only_an_undefined_channel_is_not_tunable() {
    assert!(channel_of("T18", ChannelType::Terrestrial).is_tunable());
    assert!(channel_of("BS15_0", ChannelType::BS).is_tunable());
    assert!(channel_of("CS2", ChannelType::CS).is_tunable());
    assert!(!channel_of("X", ChannelType::Undefined).is_tunable());
    assert!(!channel_of("", ChannelType::Undefined).is_tunable());
}

#[test]
fn standard_settings_are_fixed_but_for_the_key() {
    let key = KeyPair { key0: 0x0123_4567_89ab_cdef, key1: 42 };
    let with_key = DecoderSettings::standard(Some(key));
    assert_eq!(
        with_key,
        DecoderSettings {
            working_key: Some(key),
            round: 4,
            strip: true,
            emm: true,
            simd: false,
            verbose: false,
        }
    );
    assert_eq!(DECODER_ROUNDS, 4);
    let without = DecoderSettings::standard(None);
    assert_eq!(without.working_key, None);
    assert_eq!(without.round, 4);
    assert!(without.strip && without.emm && !without.simd && !without.verbose);
}

#[test]
fn record_mode_reads_its_own_fields() {
    let mode = record_mode(ChannelType::Terrestrial, true);
    assert!(!mode.has_rejected_channel());
    assert!(mode.needs_tuner());
    assert!(!mode.is_check_signal());
    assert!(mode.wants_decoder());
    assert_eq!(mode.duration(), TimeSpan::new(30, 500_000_000));
    assert_eq!(mode.key_pair(), Some(KeyPair { key0: 1, key1: 2 }));
    let plain = record_mode(ChannelType::BS, false);
    assert!(!plain.wants_decoder());
    assert!(record_mode(ChannelType::Undefined, true).has_rejected_channel());
}

#[test]
fn decode_mode_always_decodes_and_has_no_channel() {
    let mode = OperatingMode::Decode {
        source: "in.m2ts".to_string(),
        key_pair: None,
        output: "out.ts".to_string(),
    };
    assert!(!mode.has_rejected_channel());
    assert!(!mode.needs_tuner());
    assert!(!mode.is_check_signal());
    assert!(mode.wants_decoder());
    assert_eq!(mode.duration(), None);
    assert_eq!(mode.key_pair(), None);
    let keyed = OperatingMode::Decode {
        source: "in.m2ts".to_string(),
        key_pair: Some(KeyPair { key0: 7, key1: 8 }),
        output: "out.ts".to_string(),
    };
    assert_eq!(keyed.key_pair(), Some(KeyPair { key0: 7, key1: 8 }));
}

#[test]
fn check_signal_mode_moves_no_data() {
    let mode = OperatingMode::CheckSignal {
        device: "/dev/px4video0".to_string(),
        channel: channel_of("T18", ChannelType::Terrestrial),
    };
    assert!(!mode.has_rejected_channel());
    assert!(mode.needs_tuner());
    assert!(mode.is_check_signal());
    assert!(!mode.wants_decoder());
    assert_eq!(mode.duration(), None);
    assert_eq!(mode.key_pair(), None);
    let bad = OperatingMode::CheckSignal {
        device: "/dev/px4video0".to_string(),
        channel: channel_of("??", ChannelType::Undefined),
    };
    assert!(bad.has_rejected_channel());
}

#[test]
fn a_recording_announces_tuner_channel_decoding_and_duration() {
    let lines = record_mode(ChannelType::Terrestrial, true).banner();
    assert_eq!(
        lines,
        vec![
            BannerLine::Tuner("/dev/px4video0".to_string()),
            BannerLine::Channel {
                raw_string: "T18".to_string(),
                channel_type: ChannelType::Terrestrial,
            },
            BannerLine::Decode { enabled: true },
            BannerLine::Duration(TimeSpan::new(30, 500_000_000)),
        ]
    );
    let plain = record_mode(ChannelType::CS, false).banner();
    assert_eq!(plain[2], BannerLine::Decode { enabled: false });
    assert_eq!(plain.len(), 4);
}

#[test]
fn decoding_announces_its_source() {
    let mode = OperatingMode::Decode {
        source: "in.m2ts".to_string(),
        key_pair: None,
        output: "out.ts".to_string(),
    };
    assert_eq!(mode.banner(), vec![BannerLine::Source("in.m2ts".to_string())]);
}

#[test]
fn a_signal_watch_announces_tuner_and_channel() {
    let mode = OperatingMode::CheckSignal {
        device: "/dev/px4video1".to_string(),
        channel: channel_of("BS15_0", ChannelType::BS),
    };
    assert_eq!(
        mode.banner(),
        vec![
            BannerLine::Tuner("/dev/px4video1".to_string()),
            BannerLine::Channel { raw_string: "BS15_0".to_string(), channel_type: ChannelType::BS },
        ]
    );
}
