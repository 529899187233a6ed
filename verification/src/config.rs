//! What an output device can do, and the stream configuration that is checked
//! against it before a stream is opened.

use crate::waves::{Oscilator, Wave};
use crossbeam_channel::Receiver;
use vstd::prelude::*;

verus! {

/// The sample formats that a device may offer.
#[derive(Debug, Clone, Copy, PartialEq, Eq, Hash, Structural)]
pub enum SupportedSampleFormat {
    I8,
    I16,
    I32,
    I64,
    U8,
    U16,
    U32,
    U64,
    F32,
    F64,
    /// A format that has no name here.
    Other,
}

/// The buffer sizes of one configuration, in frames.
#[derive(Debug, Clone, Copy, PartialEq, Eq, Structural)]
pub enum SupportedBufferSize {
    Range { min: u32, max: u32 },
    /// The device does not say.
    Unknown,
}

/// One configuration that a device offers for output.
#[derive(Debug, Clone, Copy, PartialEq, Eq, Structural)]
pub struct OutputConfigRange {
    pub channels: u16,
    pub min_sample_rate: u32,
    pub max_sample_rate: u32,
    pub buffer_size: SupportedBufferSize,
    pub sample_format: SupportedSampleFormat,
}

/// The buffer size of a stream, in frames.
#[derive(Debug, Clone, Copy, PartialEq, Eq, Structural)]
pub enum BufferSize {
    /// Whatever the device picks.
    Default,
    Fixed(u32),
}

/// The configuration of one stream.
#[derive(Debug, Clone, Copy, PartialEq, Eq, Structural)]
pub struct StreamConfig {
    pub channels: u16,
    pub sample_rate: u32,
    pub buffer_size: BufferSize,
}

/// Why a request was refused. Each variant carries the bounds that the
/// request was held against.
#[derive(Debug, Clone, Copy, PartialEq, Eq, Structural)]
pub enum ConfigError {
    /// The channel count is not in `1..max_channels`.
    UnsupportedChannelCount { max_channels: u16 },
    /// The sample rate is not in `min..max`.
    UnsupportedSampleRate { min: u32, max: u32 },
    /// The device gave no bounds for its buffer size.
    UnknownBufferSizeRange,
    /// The buffer size is not in `min..max`.
    UnsupportedBufferSize { min: u32, max: u32 },
}

/// `m` is the largest channel count among `configs`, and 0 where there are none.
pub open spec fn is_max_channels(configs: Seq<OutputConfigRange>, m: u16) -> bool {
    &&& forall|i: int| 0 <= i < configs.len() ==> (#[trigger] configs[i]).channels <= m
    &&& configs.len() == 0 ==> m == 0
    &&& configs.len() > 0 ==> exists|i: int|
        0 <= i < configs.len() && (#[trigger] configs[i]).channels == m
}

/// The sample rates of the last of `configs`, and `(0, 0)` where there are none.
pub open spec fn last_sample_rates(configs: Seq<OutputConfigRange>) -> (u32, u32) {
    if configs.len() == 0 {
        (0u32, 0u32)
    } else {
        (configs.last().min_sample_rate, configs.last().max_sample_rate)
    }
}

/// `range` holds the bounds of the last of `configs` that has bounds for its
/// buffer size, and is `None` where none has.
pub open spec fn is_last_bounded(
    configs: Seq<OutputConfigRange>,
    range: Option<(u32, u32)>,
) -> bool {
    match range {
        None => forall|i: int|
            0 <= i < configs.len() ==> (#[trigger] configs[i]).buffer_size is Unknown,
        Some((min, max)) => exists|i: int|
            {
                &&& 0 <= i < configs.len()
                &&& (#[trigger] configs[i]).buffer_size == (SupportedBufferSize::Range {
                    min,
                    max,
                })
                &&& forall|j: int|
                    i < j < configs.len() ==> (#[trigger] configs[j]).buffer_size is Unknown
            },
    }
}

/// The sample formats of `configs`, each once, in the order in which they
/// first occur.
pub open spec fn distinct_formats(configs: Seq<OutputConfigRange>) -> Seq<SupportedSampleFormat>
    decreases configs.len(),
{
    if configs.len() == 0 {
        Seq::empty()
    } else {
        let earlier = distinct_formats(configs.drop_last());
        if earlier.contains(configs.last().sample_format) {
            earlier
        } else {
            earlier.push(configs.last().sample_format)
        }
    }
}

/// Whether one of `configs` has the sample format `format`.
pub open spec fn offers_format(
    configs: Seq<OutputConfigRange>,
    format: SupportedSampleFormat,
) -> bool {
    exists|i: int| 0 <= i < configs.len() && (#[trigger] configs[i]).sample_format == format
}

/// `distinct_formats` lists exactly the sample formats that occur in
/// `configs`, and none of them twice.
pub proof fn lemma_distinct_formats(configs: Seq<OutputConfigRange>)
    ensures
        distinct_formats(configs).no_duplicates(),
        forall|format: SupportedSampleFormat| #[trigger]
            distinct_formats(configs).contains(format) <==> offers_format(configs, format),
    decreases configs.len(),
{
    if configs.len() > 0 {
        let earlier = configs.drop_last();
        let last = configs.last().sample_format;
        lemma_distinct_formats(earlier);
        let listed = distinct_formats(earlier);
        assert forall|format: SupportedSampleFormat| #[trigger]
            distinct_formats(configs).contains(format) <==> offers_format(
                configs,
                format,
            ) by {
            if distinct_formats(configs).contains(format) {
                if listed.contains(format) {
                    assert(offers_format(earlier, format));
                    let i = choose|i: int|
                        0 <= i < earlier.len() && (#[trigger] earlier[i]).sample_format
                            == format;
                    assert(configs[i].sample_format == format);
                } else {
                    let k = choose|k: int|
                        0 <= k < distinct_formats(configs).len() && distinct_formats(configs)[k]
                            == format;
                    if k < listed.len() {
                        assert(listed[k] == format);
                    }
                    assert(format == last);
                    assert(configs[configs.len() - 1].sample_format == format);
                }
            }
            if offers_format(configs, format) {
                let i = choose|i: int|
                    0 <= i < configs.len() && (#[trigger] configs[i]).sample_format == format;
                if i < earlier.len() {
                    assert(earlier[i].sample_format == format);
                    assert(offers_format(earlier, format));
                    assert(listed.contains(format));
                    let k = choose|k: int| 0 <= k < listed.len() && listed[k] == format;
                    assert(distinct_formats(configs)[k] == format);
                } else {
                    assert(format == last);
                    if listed.contains(last) {
                    } else {
                        assert(distinct_formats(configs)[listed.len() as int] == last);
                    }
                }
            }
        }
    }
}

/// What a device can do, folded from the configurations that it offers.
#[derive(Debug)]
pub struct SupportedConfigs {
    /// The largest channel count of any configuration.
    pub max_channels: u16,
    /// The lowest and highest sample rate of the configuration that the device
    /// listed last. The bounds of the others are not merged in.
    pub sample_rate_range: (u32, u32),
    /// The bounds of the last configuration that has bounds for its buffer size.
    pub buffer_size_range: Option<(u32, u32)>,
    /// The sample formats of all configurations, each once.
    pub supported_sample_formats: Vec<SupportedSampleFormat>,
}

impl SupportedConfigs {
    /// No sample format is listed twice.
    pub open spec fn wf(&self) -> bool {
        self.supported_sample_formats@.no_duplicates()
    }

    /// Folds the configurations that a device offers, in the order in which
    /// it lists them.
    pub fn new(configs: &[OutputConfigRange]) -> (supported: Self)
        ensures
            supported.wf(),
            is_max_channels(configs@, supported.max_channels),
            supported.sample_rate_range == last_sample_rates(configs@),
            is_last_bounded(configs@, supported.buffer_size_range),
            supported.supported_sample_formats@ == distinct_formats(configs@),
            forall|format: SupportedSampleFormat| #[trigger]
                supported.supported_sample_formats@.contains(format) <==> offers_format(
                    configs@,
                    format,
                ),
    {
        let mut max_channels: u16 = 0;
        let mut sample_rate_range: (u32, u32) = (0, 0);
        let mut buffer_size_range: Option<(u32, u32)> = None;
        let mut formats: Vec<SupportedSampleFormat> = Vec::new();
        let mut i: usize = 0;
        proof {
            assert(configs@.take(0) =~= Seq::empty());
        }
        while i < configs.len()
            invariant
                i <= configs@.len(),
                is_max_channels(configs@.take(i as int), max_channels),
                sample_rate_range == last_sample_rates(configs@.take(i as int)),
                is_last_bounded(configs@.take(i as int), buffer_size_range),
                formats@ == distinct_formats(configs@.take(i as int)),
                formats@.no_duplicates(),
            decreases configs@.len() - i,
        {
            let config = configs[i];
            let ghost before = configs@.take(i as int);
            let ghost after = configs@.take(i + 1);
            proof {
                assert(after.drop_last() =~= before);
                assert(after.last() == config);
                assert(forall|k: int| 0 <= k < i ==> after[k] == before[k]);
            }
            let ghost old_max = max_channels;
            if config.channels > max_channels {
                max_channels = config.channels;
            }
            proof {
                if before.len() > 0 && config.channels <= old_max {
                    let w = choose|w: int| 0 <= w < before.len() && before[w].channels == old_max;
                    assert(after[w].channels == max_channels);
                } else {
                    assert(after[i as int].channels == max_channels);
                }
                assert(is_max_channels(after, max_channels));
            }
            sample_rate_range = (config.min_sample_rate, config.max_sample_rate);
            let ghost old_range = buffer_size_range;
            match config.buffer_size {
                SupportedBufferSize::Range { min, max } => {
                    buffer_size_range = Some((min, max));
                    proof {
                        assert(after[i as int].buffer_size == (SupportedBufferSize::Range {
                            min,
                            max,
                        }));
                    }
                },
                SupportedBufferSize::Unknown => {
                    proof {
                        if let Some((min, max)) = old_range {
                            let w = choose|w: int|
                                {
                                    &&& 0 <= w < before.len()
                                    &&& (#[trigger] before[w]).buffer_size == (
                                    SupportedBufferSize::Range { min, max })
                                    &&& forall|j: int|
                                        w < j < before.len() ==> (
                                        #[trigger] before[j]).buffer_size is Unknown
                                };
                            assert(after[w].buffer_size == (SupportedBufferSize::Range {
                                min,
                                max,
                            }));
                            assert forall|j: int| w < j < after.len() implies (
                            #[trigger] after[j]).buffer_size is Unknown by {
                                if j < i {
                                    assert(before[j].buffer_size is Unknown);
                                }
                            }
                        } else {
                            assert forall|j: int| 0 <= j < after.len() implies (
                            #[trigger] after[j]).buffer_size is Unknown by {
                                if j < i {
                                    assert(before[j].buffer_size is Unknown);
                                }
                            }
                        }
                    }
                },
            }
            proof {
                assert(is_last_bounded(after, buffer_size_range));
            }
            if !lists_format(&formats, config.sample_format) {
                formats.push(config.sample_format);
            }
            i += 1;
        }
        proof {
            assert(configs@.take(i as int) =~= configs@);
            lemma_distinct_formats(configs@);
        }
        Self {
            max_channels,
            sample_rate_range,
            buffer_size_range,
            supported_sample_formats: formats,
        }
    }
}

impl Clone for SupportedConfigs {
    fn clone(&self) -> (copy: Self)
        ensures
            copy.max_channels == self.max_channels,
            copy.sample_rate_range == self.sample_rate_range,
            copy.buffer_size_range == self.buffer_size_range,
            copy.supported_sample_formats@ == self.supported_sample_formats@,
    {
        Self {
            max_channels: self.max_channels,
            sample_rate_range: self.sample_rate_range,
            buffer_size_range: self.buffer_size_range,
            supported_sample_formats: self.supported_sample_formats.clone(),
        }
    }
}

impl Default for SupportedConfigs {
    /// What a device without any configuration can do.
    fn default() -> (supported: Self)
        ensures
            supported.wf(),
            supported.max_channels == 0,
            supported.sample_rate_range == (0u32, 0u32),
            supported.buffer_size_range is None,
            supported.supported_sample_formats@.len() == 0,
    {
        Self {
            max_channels: 0,
            sample_rate_range: (0, 0),
            buffer_size_range: None,
            supported_sample_formats: Vec::new(),
        }
    }
}

/// Why `supported` refuses a stream of `channels` channels, if it does: a
/// stream has at least one channel, and the count must be below the largest
/// that the device offers.
pub open spec fn channels_refusal(supported: SupportedConfigs, channels: u16) -> Option<
    ConfigError,
> {
    if 1 <= channels < supported.max_channels {
        None
    } else {
        Some(ConfigError::UnsupportedChannelCount { max_channels: supported.max_channels })
    }
}

/// Why `supported` refuses the sample rate, if it does: the rate must be at
/// least the lower bound and below the upper one.
pub open spec fn sample_rate_refusal(supported: SupportedConfigs, sample_rate: u32) -> Option<
    ConfigError,
> {
    let (min, max) = supported.sample_rate_range;
    if min <= sample_rate < max {
        None
    } else {
        Some(ConfigError::UnsupportedSampleRate { min, max })
    }
}

/// Why `supported` refuses the buffer size, if it does: the bounds must be
/// known, and the size at least the lower bound and below the upper one.
pub open spec fn buffer_size_refusal(supported: SupportedConfigs, buffer_size: u32) -> Option<
    ConfigError,
> {
    match supported.buffer_size_range {
        None => Some(ConfigError::UnknownBufferSizeRange),
        Some((min, max)) => if min <= buffer_size < max {
            None
        } else {
            Some(ConfigError::UnsupportedBufferSize { min, max })
        },
    }
}

/// A stream configuration in the making, together with what the device can
/// do. Each request either changes one setting or is refused, and a refused
/// request gives the builder up.
pub struct Synth {
    supported: SupportedConfigs,
    config: StreamConfig,
}

impl Synth {
    /// What the device can do.
    pub closed spec fn capabilities(&self) -> SupportedConfigs {
        self.supported
    }

    /// The configuration as it stands.
    pub closed spec fn settings(&self) -> StreamConfig {
        self.config
    }

    /// Starts from the configuration that the device proposes.
    pub fn new(supported: SupportedConfigs, config: StreamConfig) -> (synth: Self)
        ensures
            synth.capabilities() == supported,
            synth.settings() == config,
    {
        Self { supported, config }
    }

    pub fn supported(&self) -> (supported: &SupportedConfigs)
        ensures
            *supported == self.capabilities(),
    {
        &self.supported
    }

    pub fn config(&self) -> (config: StreamConfig)
        ensures
            config == self.settings(),
    {
        self.config
    }

    /// Asks for `channels` channels.
    pub fn channels(self, channels: u16) -> (result: Result<Self, ConfigError>)
        ensures
            match result {
                Ok(synth) => {
                    &&& channels_refusal(self.capabilities(), channels) is None
                    &&& synth.capabilities() == self.capabilities()
                    &&& synth.settings() == (StreamConfig { channels, ..self.settings() })
                },
                Err(error) => channels_refusal(self.capabilities(), channels) == Some(error),
            },
    {
        let mut synth = self;
        let max_channels: u16 = synth.supported.max_channels;
        if 1 <= channels && channels < max_channels {
            synth.config.channels = channels;
            Ok(synth)
        } else {
            Err(ConfigError::UnsupportedChannelCount { max_channels })
        }
    }

    /// Asks for `sample_rate` samples per second.
    pub fn sample_rate(self, sample_rate: u32) -> (result: Result<Self, ConfigError>)
        ensures
            match result {
                Ok(synth) => {
                    &&& sample_rate_refusal(self.capabilities(), sample_rate) is None
                    &&& synth.capabilities() == self.capabilities()
                    &&& synth.settings() == (StreamConfig { sample_rate, ..self.settings() })
                },
                Err(error) => sample_rate_refusal(self.capabilities(), sample_rate) == Some(
                    error,
                ),
            },
    {
        let mut synth = self;
        let (min, max) = synth.supported.sample_rate_range;
        if min <= sample_rate && sample_rate < max {
            synth.config.sample_rate = sample_rate;
            Ok(synth)
        } else {
            Err(ConfigError::UnsupportedSampleRate { min, max })
        }
    }

    /// Asks for buffers of `buffer_size` frames.
    pub fn buffer_size(self, buffer_size: u32) -> (result: Result<Self, ConfigError>)
        ensures
            match result {
                Ok(synth) => {
                    &&& buffer_size_refusal(self.capabilities(), buffer_size) is None
                    &&& synth.capabilities() == self.capabilities()
                    &&& synth.settings() == (StreamConfig {
                        buffer_size: BufferSize::Fixed(buffer_size),
                        ..self.settings()
                    })
                },
                Err(error) => buffer_size_refusal(self.capabilities(), buffer_size) == Some(
                    error,
                ),
            },
    {
        let mut synth = self;
        match synth.supported.buffer_size_range {
            None => Err(ConfigError::UnknownBufferSizeRange),
            Some((min, max)) => {
                if min <= buffer_size && buffer_size < max {
                    synth.config.buffer_size = BufferSize::Fixed(buffer_size);
                    Ok(synth)
                } else {
                    Err(ConfigError::UnsupportedBufferSize { min, max })
                }
            },
        }
    }
}

/// The number of frames that `len` interleaved samples make where a frame
/// has `channels` samples; the last frame may be short.
pub open spec fn frame_count(len: int, channels: int) -> int {
    if len % channels == 0 {
        len / channels
    } else {
        len / channels + 1
    }
}

impl Synth {
    /// The oscillator of a stream with this configuration that starts with
    /// `wave` and takes no updates.
    pub fn new_oscilator(&self, wave: Wave) -> (oscilator: Oscilator)
        ensures
            oscilator.rate() == self.settings().sample_rate,
            oscilator.playing() == wave,
            oscilator.receiver() is None,
    {
        Oscilator::new(self.config.sample_rate, wave)
    }

    /// The oscillator of a stream with this configuration that starts with
    /// `wave` and takes its updates from `rx`.
    pub fn new_oscilator_chan(&self, wave: Wave, rx: Receiver<Wave>) -> (oscilator: Oscilator)
        ensures
            oscilator.rate() == self.settings().sample_rate,
            oscilator.playing() == wave,
            oscilator.receiver() == Some(rx),
    {
        let mut oscilator = Oscilator::new(self.config.sample_rate, wave);
        oscilator.add_receiver(rx);
        oscilator
    }

    /// The number of frames in a buffer of `len` interleaved samples.
    pub fn frames(len: usize, channels: u16) -> (count: usize)
        requires
            channels > 0,
        ensures
            count == frame_count(len as int, channels as int),
    {
        let per_frame: usize = channels as usize;
        if len % per_frame == 0 {
            len / per_frame
        } else {
            assert(len / per_frame < len) by (nonlinear_arith)
                requires
                    per_frame > 0,
                    len % per_frame != 0,
            ;
            len / per_frame + 1
        }
    }

    /// Fans the rendered samples out into the interleaved buffer: every
    /// sample of frame `k` becomes `rendered[k]`, whatever its channel.
    pub fn write_data<T: Copy>(output: &mut [T], rendered: &[T], channels: u16)
        requires
            channels > 0,
            rendered@.len() >= frame_count(old(output)@.len() as int, channels as int),
        ensures
            final(output)@.len() == old(output)@.len(),
            forall|i: int|
                0 <= i < final(output)@.len() ==> final(output)@[i] == rendered@[i / (
                channels as int)],
    {
        let per_frame: usize = channels as usize;
        let mut i: usize = 0;
        while i < output.len()
            invariant
                per_frame == channels,
                per_frame > 0,
                output@.len() == old(output)@.len(),
                i <= output@.len(),
                rendered@.len() >= frame_count(output@.len() as int, channels as int),
                forall|k: int| 0 <= k < i ==> output@[k] == rendered@[k / (channels as int)],
            decreases output@.len() - i,
        {
            let frame: usize = i / per_frame;
            proof {
                lemma_frame_in_bounds(i as int, output@.len() as int, channels as int);
            }
            output[i] = rendered[frame];
            i += 1;
        }
    }
}

/// Sample `i` of a buffer of `len` samples lies in one of its frames.
proof fn lemma_frame_in_bounds(i: int, len: int, channels: int)
    requires
        0 <= i < len,
        channels > 0,
    ensures
        0 <= i / channels < frame_count(len, channels),
{
    assert(0 <= i / channels <= len / channels) by (nonlinear_arith)
        requires
            0 <= i < len,
            channels > 0,
    ;
    if len % channels == 0 {
        assert(i / channels < len / channels) by (nonlinear_arith)
            requires
                0 <= i < len,
                channels > 0,
                len % channels == 0,
        ;
    }
}

/// Whether `format` stands in `formats`.
fn lists_format(formats: &Vec<SupportedSampleFormat>, format: SupportedSampleFormat) -> (found:
    bool)
    ensures
        found == formats@.contains(format),
{
    let mut i: usize = 0;
    while i < formats.len()
        invariant
            i <= formats@.len(),
            forall|k: int| 0 <= k < i ==> formats@[k] != format,
        decreases formats@.len() - i,
    {
        if formats[i] == format {
            return true;
        }
        i += 1;
    }
    false
}

} // verus!
