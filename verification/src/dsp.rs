//! DSP graph sources and the trusted boundary to the audio crates.
//!
//! A graph network is an opaque processing unit built by the `fundsp` crate;
//! the library reads only two plain facts about it — its global input and
//! output channel counts — and otherwise drives it through a small set of
//! trusted wrappers.  Rendering yields a wave whose 16-bit image is given a
//! name, and the wave container bytes produced by the renderer are pinned to
//! the verified container layout of [`crate::wav`].

use vstd::prelude::*;

use crate::wav::{WaveModel, wav16_encode, wav16_parse};

verus! {

#[verifier::external_type_specification]
#[verifier::external_body]
pub struct ExNet(fundsp::net::Net32);

#[verifier::external_type_specification]
#[verifier::external_body]
pub struct ExWave(fundsp::wave::Wave32);

#[verifier::external_type_specification]
#[verifier::external_body]
pub struct ExStaticSoundData(kira::sound::static_sound::StaticSoundData);

#[verifier::external_type_specification]
#[verifier::external_body]
pub struct ExStaticSoundSettings(kira::sound::static_sound::StaticSoundSettings);

#[verifier::external_type_specification]
#[verifier::external_body]
pub struct ExFromFileError(kira::sound::FromFileError);

/// The number of global input channels of a graph network.
pub uninterp spec fn inputs_of(n: fundsp::net::Net32) -> nat;

/// The number of global output channels of a graph network.
pub uninterp spec fn outputs_of(n: fundsp::net::Net32) -> nat;

/// The sample rate a rendered wave was rendered at.
pub uninterp spec fn wave_rate_of(w: fundsp::wave::Wave32) -> u32;

/// The number of channels of a rendered wave.
pub uninterp spec fn wave_channels_of(w: fundsp::wave::Wave32) -> nat;

/// The interleaved 16-bit image of a rendered wave: each sample clipped to
/// -1...1 and scaled to 16 bits, in file order (frame by frame).
pub uninterp spec fn wave_samples16_of(w: fundsp::wave::Wave32) -> Seq<i16>;

/// The waveform model a rendered wave stands for under its 16-bit image.
pub open spec fn wave_model_of(w: fundsp::wave::Wave32) -> WaveModel {
    WaveModel {
        sample_rate: wave_rate_of(w),
        channels: wave_channels_of(w) as u16,
        samples: wave_samples16_of(w),
    }
}

/// Relies on fundsp's `AudioUnit32::inputs` for `Net32`: the number of
/// global input channels, a fixed property of the network's shape.
#[verifier::external_body]
pub(crate) fn net_inputs(n: &fundsp::net::Net32) -> (r: usize)
    ensures
        r as nat == inputs_of(*n),
{
    fundsp::audiounit::AudioUnit32::inputs(n)
}

/// Relies on fundsp's `AudioUnit32::outputs` for `Net32`: the number of
/// global output channels, a fixed property of the network's shape.
#[verifier::external_body]
pub(crate) fn net_channels(n: &fundsp::net::Net32) -> (r: usize)
    ensures
        r as nat == outputs_of(*n),
{
    fundsp::audiounit::AudioUnit32::outputs(n)
}

/// Relies on fundsp's `Wave32::render`: resets the generator, then pulls
/// exactly `round(duration * sample_rate)` frames — for whole-second
/// durations, `secs * rate` frames — of `outputs` channels each.  The
/// network's shape (its channel counts) is left unchanged.
#[verifier::external_body]
pub(crate) fn render_net(n: &mut fundsp::net::Net32, secs: u32, rate: u32) -> (w:
    fundsp::wave::Wave32)
    requires
        inputs_of(*old(n)) == 0,
        outputs_of(*old(n)) >= 1,
        1 <= rate <= 384000,
        secs <= 3600,
    ensures
        inputs_of(*final(n)) == inputs_of(*old(n)),
        outputs_of(*final(n)) == outputs_of(*old(n)),
        wave_rate_of(w) == rate,
        wave_channels_of(w) == outputs_of(*old(n)),
        wave_samples16_of(w).len() == (secs as int) * (rate as int) * (outputs_of(*old(n)) as int),
{
    fundsp::wave::Wave32::render(rate.into(), secs.into(), n)
}

/// Relies on fundsp's `Wave32::write_wav16`: writes the wave as a 16-bit
/// wave container in the canonical layout, each sample clipped to -1...1
/// and scaled to 16 bits; writing into a byte buffer cannot fail.
#[verifier::external_body]
pub(crate) fn wave_to_wav16(w: &fundsp::wave::Wave32) -> (r: Vec<u8>)
    requires
        wave_model_of(*w).wf(),
    ensures
        r@ == wav16_encode(wave_model_of(*w)),
{
    let mut buf: Vec<u8> = Vec::new();
    w.write_wav16(&mut buf).unwrap();
    buf
}

/// Relies on kira's `StaticSoundData::from_cursor`: decodes an encoded
/// audio byte buffer into playable sound data, or reports a structured
/// file error.
#[verifier::external_body]
pub(crate) fn kira_sound_from_bytes(
    bytes: Vec<u8>,
    settings: kira::sound::static_sound::StaticSoundSettings,
) -> Result<kira::sound::static_sound::StaticSoundData, kira::sound::FromFileError> {
    kira::sound::static_sound::StaticSoundData::from_cursor(std::io::Cursor::new(bytes), settings)
}

/// Relies on kira's `StaticSoundSettings::default`: the neutral playback
/// configuration.
#[verifier::external_body]
pub(crate) fn default_sound_settings() -> kira::sound::static_sound::StaticSoundSettings {
    kira::sound::static_sound::StaticSoundSettings::default()
}

/// An error of the render-to-asset pipeline.
#[derive(Debug)]
pub enum DspError {
    /// The graph reads global inputs, so it cannot be rendered on its own.
    GraphHasInputs,
    /// The graph produces no output channels.
    NoOutputs,
    /// More channels than the 16-bit wave container can carry.
    TooManyChannels,
    /// The rendered waveform would not fit the container's 32-bit sizes.
    TooLarge,
    /// The sample rate is outside the renderable range.
    UnsupportedSampleRate,
    /// The audio backend rejected the wave container.
    Decode(kira::sound::FromFileError),
}

/// A source of one renderable DSP graph: a constructed graph network
/// together with its target duration.
pub struct DspSource {
    graph: fundsp::net::Net32,
    duration_secs: u32,
}

impl DspSource {
    /// The graph this source renders.
    pub closed spec fn graph_spec(self) -> fundsp::net::Net32 {
        self.graph
    }

    /// The target duration, in whole seconds.
    pub closed spec fn duration_spec(self) -> u32 {
        self.duration_secs
    }

    /// The target duration, in whole seconds.
    pub fn duration_secs(&self) -> (r: u32)
        ensures
            r == self.duration_spec(),
    {
        self.duration_secs
    }

    /// Creates a new DSP data source from the given graph and its length
    /// in whole seconds.
    pub fn new(graph: fundsp::net::Net32, duration_secs: u32) -> (r: Self)
        ensures
            r.graph_spec() == graph,
            r.duration_spec() == duration_secs,
    {
        DspSource { graph, duration_secs }
    }

    /// Creates a new DSP data source from a heap-held graph network.
    pub fn from_boxed(graph: Box<fundsp::net::Net32>, duration_secs: u32) -> (r: Self)
        ensures
            r.graph_spec() == *graph,
            r.duration_spec() == duration_secs,
    {
        DspSource { graph: *graph, duration_secs }
    }

    /// Whether the graph and the sizes involved admit rendering into the
    /// wave container at `rate`.
    pub open spec fn renderable_at(self, rate: u32) -> bool {
        &&& inputs_of(self.graph_spec()) == 0
        &&& 1 <= outputs_of(self.graph_spec()) <= 0x7FFF
        &&& 1 <= rate <= 384000
        &&& self.duration_spec() <= 3600
        &&& 2 * (self.duration_spec() as int) * (rate as int) * (outputs_of(self.graph_spec()) as int)
            + 44 <= 0xFFFF_FFFF
        &&& 2 * (rate as int) * (outputs_of(self.graph_spec()) as int) <= 0xFFFF_FFFF
    }

    /// What a rendered buffer of this source encodes: a wave container
    /// carrying exactly `duration * rate` frames of one sample per output
    /// channel, at sample rate `rate`.
    pub open spec fn rendered_bytes_ok(self, rate: u32, b: Seq<u8>) -> bool {
        match wav16_parse(b) {
            Some(m) => {
                &&& m.wf()
                &&& m.sample_rate == rate
                &&& m.channels as nat == outputs_of(self.graph_spec())
                &&& m.frames() == (self.duration_spec() as int) * (rate as int)
            },
            None => false,
        }
    }

    /// Render the whole graph at once and encode the waveform as a 16-bit
    /// wave container.  Inputs on which the encoding could not be produced
    /// are excluded by contract; [`DspSource::try_raw_bytes`] screens them
    /// instead.
    pub fn generate_raw_bytes(self, sample_rate: u32) -> (r: Vec<u8>)
        requires
            self.renderable_at(sample_rate),
        ensures
            self.rendered_bytes_ok(sample_rate, r@),
    {
        let DspSource { graph: mut net, duration_secs } = self;
        let ghost g0 = net;
        let wave = render_net(&mut net, duration_secs, sample_rate);
        proof {
            let m = wave_model_of(wave);
            let s = duration_secs as int;
            let rt = sample_rate as int;
            let c = outputs_of(g0) as int;
            assert(m.channels as int == c);
            assert(m.samples.len() == s * rt * c);
            assert((s * rt * c) % c == 0 && (s * rt * c) / c == s * rt && s * rt * c >= 0 && 2 * (
            s * rt * c) == 2 * s * rt * c) by (nonlinear_arith)
                requires
                    c >= 1,
                    s >= 0,
                    rt >= 0,
            ;
            assert(m.wf());
            crate::wav::lemma_wav16_round_trip(m);
        }
        wave_to_wav16(&wave)
    }

    /// Render the graph if it can be rendered at `rate`; report why not
    /// otherwise.  Succeeds exactly on the sources and rates that
    /// [`DspSource::renderable_at`] admits.
    pub fn try_raw_bytes(self, sample_rate: u32) -> (r: Result<Vec<u8>, DspError>)
        ensures
            match r {
                Ok(b) => self.renderable_at(sample_rate) && self.rendered_bytes_ok(
                    sample_rate,
                    b@,
                ),
                Err(_) => !self.renderable_at(sample_rate),
            },
            r matches Err(DspError::UnsupportedSampleRate) ==> !(1 <= sample_rate <= 384000),
            r matches Err(DspError::GraphHasInputs) ==> inputs_of(self.graph_spec()) != 0,
            r matches Err(DspError::NoOutputs) ==> outputs_of(self.graph_spec()) == 0,
            r matches Err(DspError::TooManyChannels) ==> outputs_of(self.graph_spec()) > 0x7FFF,
            r matches Err(DspError::Decode(_)) ==> false,
    {
        if sample_rate < 1 || sample_rate > 384000 {
            return Err(DspError::UnsupportedSampleRate);
        }
        if self.duration_secs > 3600 {
            return Err(DspError::TooLarge);
        }
        let ins = net_inputs(&self.graph);
        if ins != 0 {
            return Err(DspError::GraphHasInputs);
        }
        let outs = net_channels(&self.graph);
        if outs == 0 {
            return Err(DspError::NoOutputs);
        }
        if outs > 0x7FFF {
            return Err(DspError::TooManyChannels);
        }
        proof {
            let s = self.duration_secs as int;
            let rt = sample_rate as int;
            let c = outputs_of(self.graph) as int;
            assert(0 <= s * rt <= 0x7FFFFFFFFFFF && 0 <= 2 * (s * rt) * c <= 0x7FFFFFFFFFFFFFFF
                && 2 * (s * rt) * c == 2 * s * rt * c && 0 <= 2 * rt * c <= 0x7FFFFFFFFFFF)
                by (nonlinear_arith)
                requires
                    0 <= s <= 3600,
                    1 <= rt <= 384000,
                    1 <= c <= 0x7FFF,
            ;
        }
        let frames: u64 = (self.duration_secs as u64) * (sample_rate as u64);
        let total: u64 = 2 * frames * (outs as u64) + 44;
        if total > 0xFFFF_FFFF {
            return Err(DspError::TooLarge);
        }
        let byte_rate: u64 = 2 * (sample_rate as u64) * (outs as u64);
        if byte_rate > 0xFFFF_FFFF {
            return Err(DspError::TooLarge);
        }
        Ok(self.generate_raw_bytes(sample_rate))
    }

    /// Returns decodable sound data for the audio backend, rendering the
    /// graph and handing the encoded wave container to the backend's
    /// decoder.  The one recoverable outcome at the backend boundary is a
    /// decode rejection, reported as [`DspError::Decode`].
    pub fn into_kira_sound_data(
        self,
        sample_rate: u32,
        settings: kira::sound::static_sound::StaticSoundSettings,
    ) -> (r: Result<kira::sound::static_sound::StaticSoundData, DspError>)
        ensures
            r matches Ok(_) ==> self.renderable_at(sample_rate),
            self.renderable_at(sample_rate) ==> (r matches Ok(_) || r matches Err(
                DspError::Decode(_),
            )),
            !self.renderable_at(sample_rate) ==> (r matches Err(e) && !(e matches
            DspError::Decode(_))),
    {
        match self.try_raw_bytes(sample_rate) {
            Ok(bytes) => match kira_sound_from_bytes(bytes, settings) {
                Ok(sound) => Ok(sound),
                Err(e) => Err(DspError::Decode(e)),
            },
            Err(e) => Err(e),
        }
    }
}

} // verus!
