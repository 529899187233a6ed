use crossbeam_channel::unbounded;
use synth::config::{
    BufferSize, ConfigError, OutputConfigRange, StreamConfig, SupportedBufferSize,
    SupportedConfigs, SupportedSampleFormat, Synth,
};
use synth::notes::Note;
use synth::waves::{Wave, Waveform};

fn envelope() -> SupportedConfigs {
    SupportedConfigs {
        max_channels: 2,
        sample_rate_range: (44100, 48000),
        buffer_size_range: Some((64, 2048)),
        supported_sample_formats: vec![SupportedSampleFormat::F32],
    }
}

fn proposed() -> StreamConfig {
    StreamConfig { channels: 1, sample_rate: 44100, buffer_size: BufferSize::Default }
}

fn range(
    channels: u16,
    rates: (u32, u32),
    buffer_size: SupportedBufferSize,
    sample_format: SupportedSampleFormat,
) -> OutputConfigRange {
    OutputConfigRange {
        channels,
        min_sample_rate: rates.0,
        max_sample_rate: rates.1,
        buffer_size,
        sample_format,
    }
}

#[test]
fn channel_count_must_be_below_the_maximum() {
    let refused = Synth::new(envelope(), proposed()).channels(2);
    assert_eq!(refused.err(), Some(ConfigError::UnsupportedChannelCount { max_channels: 2 }));
    let refused = Synth::new(envelope(), proposed()).channels(3);
    assert_eq!(refused.err(), Some(ConfigError::UnsupportedChannelCount { max_channels: 2 }));
}

#[test]
fn channel_count_of_zero_is_refused() {
    let refused = Synth::new(envelope(), proposed()).channels(0);
    assert_eq!(refused.err(), Some(ConfigError::UnsupportedChannelCount { max_channels: 2 }));
    let none = SupportedConfigs { max_channels: 0, ..envelope() };
    let refused = Synth::new(none, proposed()).channels(0);
    assert_eq!(refused.err(), Some(ConfigError::UnsupportedChannelCount { max_channels: 0 }));
    let one = SupportedConfigs { max_channels: 1, ..envelope() };
    let refused = Synth::new(one, proposed()).channels(1);
    assert_eq!(refused.err(), Some(ConfigError::UnsupportedChannelCount { max_channels: 1 }));
}

#[test]
fn channel_count_below_the_maximum_is_set() {
    let start = StreamConfig { channels: 0, ..proposed() };
    let synth = Synth::new(envelope(), start).channels(1).ok().unwrap();
    assert_eq!(synth.config(), StreamConfig { channels: 1, ..start });
}

#[test]
fn sample_rate_at_the_lower_bound_is_set() {
    let start = StreamConfig { sample_rate: 8000, ..proposed() };
    let synth = Synth::new(envelope(), start).sample_rate(44100).ok().unwrap();
    assert_eq!(synth.config(), StreamConfig { sample_rate: 44100, ..start });
    let synth = Synth::new(envelope(), start).sample_rate(47999).ok().unwrap();
    assert_eq!(synth.config().sample_rate, 47999);
}

#[test]
fn sample_rate_at_the_upper_bound_is_refused() {
    let refused = Synth::new(envelope(), proposed()).sample_rate(48000);
    assert_eq!(
        refused.err(),
        Some(ConfigError::UnsupportedSampleRate { min: 44100, max: 48000 })
    );
    let refused = Synth::new(envelope(), proposed()).sample_rate(44099);
    assert_eq!(
        refused.err(),
        Some(ConfigError::UnsupportedSampleRate { min: 44100, max: 48000 })
    );
}

#[test]
fn buffer_size_outside_the_bounds_is_refused() {
    let refused = Synth::new(envelope(), proposed()).buffer_size(4096);
    assert_eq!(refused.err(), Some(ConfigError::UnsupportedBufferSize { min: 64, max: 2048 }));
    let refused = Synth::new(envelope(), proposed()).buffer_size(2048);
    assert_eq!(refused.err(), Some(ConfigError::UnsupportedBufferSize { min: 64, max: 2048 }));
    let refused = Synth::new(envelope(), proposed()).buffer_size(63);
    assert_eq!(refused.err(), Some(ConfigError::UnsupportedBufferSize { min: 64, max: 2048 }));
}

#[test]
fn buffer_size_inside_the_bounds_is_set() {
    let synth = Synth::new(envelope(), proposed()).buffer_size(512).ok().unwrap();
    assert_eq!(synth.config(), StreamConfig { buffer_size: BufferSize::Fixed(512), ..proposed() });
    let synth = Synth::new(envelope(), proposed()).buffer_size(64).ok().unwrap();
    assert_eq!(synth.config().buffer_size, BufferSize::Fixed(64));
}

#[test]
fn buffer_size_without_known_bounds_is_refused() {
    let supported = SupportedConfigs { buffer_size_range: None, ..envelope() };
    let refused = Synth::new(supported, proposed()).buffer_size(512);
    assert_eq!(refused.err(), Some(ConfigError::UnknownBufferSizeRange));
}

#[test]
fn requests_chain_and_keep_the_envelope() {
    let supported = SupportedConfigs { max_channels: 3, ..envelope() };
    let synth = Synth::new(supported, proposed())
        .channels(2)
        .and_then(|s| s.buffer_size(512))
        .and_then(|s| s.sample_rate(44100))
        .ok()
        .unwrap();
    assert_eq!(
        synth.config(),
        StreamConfig { channels: 2, sample_rate: 44100, buffer_size: BufferSize::Fixed(512) }
    );
    assert_eq!(synth.supported().max_channels, 3);
    assert_eq!(synth.supported().sample_rate_range, (44100, 48000));
    assert_eq!(synth.supported().buffer_size_range, Some((64, 2048)));
}

#[test]
fn envelope_of_no_configuration_is_empty() {
    let supported = SupportedConfigs::new(&[]);
    assert_eq!(supported.max_channels, 0);
    assert_eq!(supported.sample_rate_range, (0, 0));
    assert_eq!(supported.buffer_size_range, None);
    assert!(supported.supported_sample_formats.is_empty());
    let default = SupportedConfigs::default();
    assert_eq!(default.max_channels, 0);
    assert_eq!(default.sample_rate_range, (0, 0));
    assert_eq!(default.buffer_size_range, None);
    assert!(default.supported_sample_formats.is_empty());
}

#[test]
fn envelope_folds_the_configurations_in_order() {
    let configs = [
        range(
            2,
            (8000, 96000),
            SupportedBufferSize::Range { min: 32, max: 4096 },
            SupportedSampleFormat::I16,
        ),
        range(
            8,
            (44100, 44100),
            SupportedBufferSize::Range { min: 64, max: 2048 },
            SupportedSampleFormat::F32,
        ),
        range(1, (44100, 48000), SupportedBufferSize::Unknown, SupportedSampleFormat::I16),
    ];
    let supported = SupportedConfigs::new(&configs);
    assert_eq!(supported.max_channels, 8);
    assert_eq!(supported.sample_rate_range, (44100, 48000));
    assert_eq!(supported.buffer_size_range, Some((64, 2048)));
    assert_eq!(
        supported.supported_sample_formats,
        vec![SupportedSampleFormat::I16, SupportedSampleFormat::F32]
    );
}

#[test]
fn envelope_without_any_bounded_buffer_size_has_none() {
    let configs = [
        range(2, (44100, 48000), SupportedBufferSize::Unknown, SupportedSampleFormat::U8),
        range(2, (22050, 44100), SupportedBufferSize::Unknown, SupportedSampleFormat::U8),
    ];
    let supported = SupportedConfigs::new(&configs);
    assert_eq!(supported.max_channels, 2);
    assert_eq!(supported.sample_rate_range, (22050, 44100));
    assert_eq!(supported.buffer_size_range, None);
    assert_eq!(supported.supported_sample_formats, vec![SupportedSampleFormat::U8]);
}

#[test]
fn envelope_keeps_a_format_without_a_name_apart() {
    let configs = [
        range(2, (44100, 48000), SupportedBufferSize::Unknown, SupportedSampleFormat::Other),
        range(2, (44100, 48000), SupportedBufferSize::Unknown, SupportedSampleFormat::F32),
        range(2, (44100, 48000), SupportedBufferSize::Unknown, SupportedSampleFormat::Other),
    ];
    let supported = SupportedConfigs::new(&configs);
    assert_eq!(
        supported.supported_sample_formats,
        vec![SupportedSampleFormat::Other, SupportedSampleFormat::F32]
    );
}

#[test]
fn write_data_fills_one_frame_from_one_sample() {
    let mut frame = [0i32; 2];
    Synth::write_data(&mut frame, &[9], 2);
    assert_eq!(frame, [9, 9]);
    let mut short = [0i32; 1];
    Synth::write_data(&mut short, &[4], 2);
    assert_eq!(short, [4]);
}

#[test]
fn clone_of_an_envelope_holds_the_same() {
    let supported = envelope();
    let copy = supported.clone();
    assert_eq!(copy.max_channels, supported.max_channels);
    assert_eq!(copy.sample_rate_range, supported.sample_rate_range);
    assert_eq!(copy.buffer_size_range, supported.buffer_size_range);
    assert_eq!(copy.supported_sample_formats, supported.supported_sample_formats);
}

#[test]
fn oscilator_of_a_stream_runs_at_its_sample_rate() {
    let synth = Synth::new(envelope(), proposed()).sample_rate(46000).ok().unwrap();
    let wave = Wave::new(Waveform::Sin, Note::A4, 30);
    let mut osc = synth.new_oscilator(wave);
    assert_eq!(osc.sample_rate(), 46000);
    assert_eq!(osc.wave(), wave);
    assert_eq!(osc.poll(), wave);
}

#[test]
fn oscilator_with_a_channel_takes_its_updates() {
    let synth = Synth::new(envelope(), proposed());
    let wave = Wave::new(Waveform::Sin, Note::A4, 30);
    let update = Wave::new(Waveform::Sin, Note::B4b, 30);
    let (tx, rx) = unbounded();
    let mut osc = synth.new_oscilator_chan(wave, rx);
    assert_eq!(osc.sample_rate(), 44100);
    assert_eq!(osc.wave(), wave);
    tx.send(update).unwrap();
    assert_eq!(osc.poll(), update);
}

#[test]
fn frames_round_up_to_cover_a_short_last_frame() {
    assert_eq!(Synth::frames(0, 2), 0);
    assert_eq!(Synth::frames(6, 2), 3);
    assert_eq!(Synth::frames(5, 2), 3);
    assert_eq!(Synth::frames(7, 1), 7);
    assert_eq!(Synth::frames(1, 8), 1);
    assert_eq!(Synth::frames(usize::MAX, 2), usize::MAX / 2 + 1);
}

#[test]
fn write_data_gives_every_channel_of_a_frame_the_same_sample() {
    let mut output = [0i16; 6];
    Synth::write_data(&mut output, &[10, 20, 30], 2);
    assert_eq!(output, [10, 10, 20, 20, 30, 30]);
}

#[test]
fn write_data_fills_a_short_last_frame() {
    let mut output = [0u8; 5];
    Synth::write_data(&mut output, &[1, 2, 3], 2);
    assert_eq!(output, [1, 1, 2, 2, 3]);
    let mut mono = [0u8; 3];
    Synth::write_data(&mut mono, &[7, 8, 9, 10], 1);
    assert_eq!(mono, [7, 8, 9]);
}

#[test]
fn write_data_on_floats_fans_out_too() {
    let mut output = [0.0f32; 4];
    Synth::write_data(&mut output, &[0.25, -0.5], 2);
    assert_eq!(output, [0.25, 0.25, -0.5, -0.5]);
}
