//! Codec

use vstd::prelude::*;

verus! {

/// Output video format; each is encoded with the matching NVENC encoder.
#[allow(missing_docs)]
#[derive(Debug, Clone, Copy, PartialEq, Eq, Structural)]
pub enum VFormat {
    H264,
    HEVC,
    AV1,
}

/// Output audio format.
#[allow(missing_docs)]
#[derive(Debug, Clone, Copy, PartialEq, Eq, Structural)]
pub enum AFormat {
    AAC,
    FLAC,
}

/// Video Codec Config
#[derive(Debug, Clone, Copy)]
pub struct VConf {
    /// output bitrate, the same as input if None
    pub(crate) bitrate: Option<i64>,
    /// output (width, height), the same as input if None
    ///
    /// # Notice
    /// the `width:height` should equel to the source `width:height`,
    /// or the output will be buggy since no padding is done.
    pub(crate) size: Option<(i32, i32)>,
    /// output gop, the default value is decided by FFmpeg, depending on the encoder.
    pub(crate) gop: Option<i32>,
    /// output video format
    pub(crate) format: Option<VFormat>,
}

/// Audio Codec Config
#[derive(Debug, Clone, Copy)]
pub struct AConf {
    /// output number of channels, the same as input if None
    pub(crate) nb_channels: Option<i32>,
    /// output sample rate, the same as input if None
    pub(crate) sample_rate: Option<i32>,
    /// output audio format
    pub(crate) format: Option<AFormat>,
}

/// Codec Config
#[derive(Debug, Clone, Copy)]
pub struct CodecConfig {
    pub(crate) vconf: VConf,
    pub(crate) aconf: AConf,
}

/// What a [`VConf`] holds, as a value of the specification.
pub struct VConfSpec {
    pub bitrate: Option<i64>,
    pub size: Option<(i32, i32)>,
    pub gop: Option<i32>,
    pub format: Option<VFormat>,
}

impl VConfSpec {
    /// The configuration that keeps every property of the source.
    pub open spec fn keep_source() -> VConfSpec {
        VConfSpec { bitrate: None, size: None, gop: None, format: None }
    }
}

impl View for VConf {
    type V = VConfSpec;

    closed spec fn view(&self) -> VConfSpec {
        VConfSpec { bitrate: self.bitrate, size: self.size, gop: self.gop, format: self.format }
    }
}

impl VConf {

    /// Starts a builder with every property unset.
    pub fn builder() -> (b: VConfBuilder)
        ensures
            b@ == VConfSpec::keep_source(),
    {
        VConfBuilder { conf: VConf { bitrate: None, size: None, gop: None, format: None } }
    }

    /// The output bitrate, if one is set.
    pub fn bitrate(&self) -> (r: Option<i64>)
        ensures
            r == self@.bitrate,
    {
        self.bitrate
    }

    /// The output `(width, height)`, if one is set.
    pub fn size(&self) -> (r: Option<(i32, i32)>)
        ensures
            r == self@.size,
    {
        self.size
    }

    /// The output gop size, if one is set.
    pub fn gop(&self) -> (r: Option<i32>)
        ensures
            r == self@.gop,
    {
        self.gop
    }

    /// The output video format, if one is set.
    pub fn format(&self) -> (r: Option<VFormat>)
        ensures
            r == self@.format,
    {
        self.format
    }
}

impl Default for VConf {
    fn default() -> (r: VConf)
        ensures
            r@ == VConfSpec::keep_source(),
    {
        VConf { bitrate: None, size: None, gop: None, format: None }
    }
}

/// Builder of a [`VConf`]; every property left unset keeps the source's.
#[derive(Debug, Clone, Copy)]
pub struct VConfBuilder {
    conf: VConf,
}

impl View for VConfBuilder {
    type V = VConfSpec;

    /// The configuration that `build` returns.
    closed spec fn view(&self) -> VConfSpec {
        self.conf@
    }
}

impl VConfBuilder {

    /// Sets the output bitrate.
    pub fn bitrate(self, value: i64) -> (b: VConfBuilder)
        ensures
            b@ == (VConfSpec { bitrate: Some(value), ..self@ }),
    {
        VConfBuilder { conf: VConf { bitrate: Some(value), ..self.conf } }
    }

    /// Sets or clears the output bitrate.
    pub fn maybe_bitrate(self, value: Option<i64>) -> (b: VConfBuilder)
        ensures
            b@ == (VConfSpec { bitrate: value, ..self@ }),
    {
        VConfBuilder { conf: VConf { bitrate: value, ..self.conf } }
    }

    /// Sets the output `(width, height)`.
    pub fn size(self, value: (i32, i32)) -> (b: VConfBuilder)
        ensures
            b@ == (VConfSpec { size: Some(value), ..self@ }),
    {
        VConfBuilder { conf: VConf { size: Some(value), ..self.conf } }
    }

    /// Sets or clears the output `(width, height)`.
    pub fn maybe_size(self, value: Option<(i32, i32)>) -> (b: VConfBuilder)
        ensures
            b@ == (VConfSpec { size: value, ..self@ }),
    {
        VConfBuilder { conf: VConf { size: value, ..self.conf } }
    }

    /// Sets the output gop size.
    pub fn gop(self, value: i32) -> (b: VConfBuilder)
        ensures
            b@ == (VConfSpec { gop: Some(value), ..self@ }),
    {
        VConfBuilder { conf: VConf { gop: Some(value), ..self.conf } }
    }

    /// Sets or clears the output gop size.
    pub fn maybe_gop(self, value: Option<i32>) -> (b: VConfBuilder)
        ensures
            b@ == (VConfSpec { gop: value, ..self@ }),
    {
        VConfBuilder { conf: VConf { gop: value, ..self.conf } }
    }

    /// Sets the output video format.
    pub fn format(self, value: VFormat) -> (b: VConfBuilder)
        ensures
            b@ == (VConfSpec { format: Some(value), ..self@ }),
    {
        VConfBuilder { conf: VConf { format: Some(value), ..self.conf } }
    }

    /// Sets or clears the output video format.
    pub fn maybe_format(self, value: Option<VFormat>) -> (b: VConfBuilder)
        ensures
            b@ == (VConfSpec { format: value, ..self@ }),
    {
        VConfBuilder { conf: VConf { format: value, ..self.conf } }
    }

    /// Finishes the configuration.
    pub fn build(self) -> (r: VConf)
        ensures
            r@ == self@,
    {
        self.conf
    }
}

/// What an [`AConf`] holds, as a value of the specification.
pub struct AConfSpec {
    pub nb_channels: Option<i32>,
    pub sample_rate: Option<i32>,
    pub format: Option<AFormat>,
}

impl AConfSpec {
    /// The configuration that keeps every property of the source.
    pub open spec fn keep_source() -> AConfSpec {
        AConfSpec { nb_channels: None, sample_rate: None, format: None }
    }
}

impl View for AConf {
    type V = AConfSpec;

    closed spec fn view(&self) -> AConfSpec {
        AConfSpec { nb_channels: self.nb_channels, sample_rate: self.sample_rate, format: self.format }
    }
}

impl AConf {
    /// Starts a builder with every property unset.
    pub fn builder() -> (b: AConfBuilder)
        ensures
            b@ == AConfSpec::keep_source(),
    {
        AConfBuilder { conf: AConf { nb_channels: None, sample_rate: None, format: None } }
    }

    /// The output number of channels, if one is set.
    pub fn nb_channels(&self) -> (r: Option<i32>)
        ensures
            r == self@.nb_channels,
    {
        self.nb_channels
    }

    /// The output sample rate, if one is set.
    pub fn sample_rate(&self) -> (r: Option<i32>)
        ensures
            r == self@.sample_rate,
    {
        self.sample_rate
    }

    /// The output audio format, if one is set.
    pub fn format(&self) -> (r: Option<AFormat>)
        ensures
            r == self@.format,
    {
        self.format
    }
}

impl Default for AConf {
    fn default() -> (r: AConf)
        ensures
            r@ == AConfSpec::keep_source(),
    {
        AConf { nb_channels: None, sample_rate: None, format: None }
    }
}

/// Builder of an [`AConf`]; every property left unset keeps the source's.
#[derive(Debug, Clone, Copy)]
pub struct AConfBuilder {
    conf: AConf,
}

impl View for AConfBuilder {
    type V = AConfSpec;

    /// The configuration that `build` returns.
    closed spec fn view(&self) -> AConfSpec {
        self.conf@
    }
}

impl AConfBuilder {
    /// Sets the output number of channels.
    pub fn nb_channels(self, value: i32) -> (b: AConfBuilder)
        ensures
            b@ == (AConfSpec { nb_channels: Some(value), ..self@ }),
    {
        AConfBuilder { conf: AConf { nb_channels: Some(value), ..self.conf } }
    }

    /// Sets or clears the output number of channels.
    pub fn maybe_nb_channels(self, value: Option<i32>) -> (b: AConfBuilder)
        ensures
            b@ == (AConfSpec { nb_channels: value, ..self@ }),
    {
        AConfBuilder { conf: AConf { nb_channels: value, ..self.conf } }
    }

    /// Sets the output sample rate.
    pub fn sample_rate(self, value: i32) -> (b: AConfBuilder)
        ensures
            b@ == (AConfSpec { sample_rate: Some(value), ..self@ }),
    {
        AConfBuilder { conf: AConf { sample_rate: Some(value), ..self.conf } }
    }

    /// Sets or clears the output sample rate.
    pub fn maybe_sample_rate(self, value: Option<i32>) -> (b: AConfBuilder)
        ensures
            b@ == (AConfSpec { sample_rate: value, ..self@ }),
    {
        AConfBuilder { conf: AConf { sample_rate: value, ..self.conf } }
    }

    /// Sets the output audio format.
    pub fn format(self, value: AFormat) -> (b: AConfBuilder)
        ensures
            b@ == (AConfSpec { format: Some(value), ..self@ }),
    {
        AConfBuilder { conf: AConf { format: Some(value), ..self.conf } }
    }

    /// Sets or clears the output audio format.
    pub fn maybe_format(self, value: Option<AFormat>) -> (b: AConfBuilder)
        ensures
            b@ == (AConfSpec { format: value, ..self@ }),
    {
        AConfBuilder { conf: AConf { format: value, ..self.conf } }
    }

    /// Finishes the configuration.
    pub fn build(self) -> (r: AConf)
        ensures
            r@ == self@,
    {
        self.conf
    }
}

/// What a [`CodecConfig`] holds, as a value of the specification.
pub struct CodecConfigSpec {
    pub vconf: VConfSpec,
    pub aconf: AConfSpec,
}

impl CodecConfigSpec {
    /// The configuration that keeps every property of both sources.
    pub open spec fn keep_source() -> CodecConfigSpec {
        CodecConfigSpec { vconf: VConfSpec::keep_source(), aconf: AConfSpec::keep_source() }
    }
}

impl View for CodecConfig {
    type V = CodecConfigSpec;

    closed spec fn view(&self) -> CodecConfigSpec {
        CodecConfigSpec { vconf: self.vconf@, aconf: self.aconf@ }
    }
}

impl CodecConfig {
    /// Starts a builder; the video and audio configurations default to
    /// keeping the source's properties.
    pub fn builder() -> (b: CodecConfigBuilder)
        ensures
            b@ == CodecConfigSpec::keep_source(),
    {
        CodecConfigBuilder { conf: CodecConfig { vconf: VConf::default(), aconf: AConf::default() } }
    }

    /// The video configuration.
    pub fn vconf(&self) -> (r: VConf)
        ensures
            r@ == self@.vconf,
    {
        self.vconf
    }

    /// The audio configuration.
    pub fn aconf(&self) -> (r: AConf)
        ensures
            r@ == self@.aconf,
    {
        self.aconf
    }
}

impl Default for CodecConfig {
    fn default() -> (r: CodecConfig)
        ensures
            r@ == CodecConfigSpec::keep_source(),
    {
        CodecConfig { vconf: VConf::default(), aconf: AConf::default() }
    }
}

/// Builder of a [`CodecConfig`].
#[derive(Debug, Clone, Copy)]
pub struct CodecConfigBuilder {
    conf: CodecConfig,
}

impl View for CodecConfigBuilder {
    type V = CodecConfigSpec;

    /// The configuration that `build` returns.
    closed spec fn view(&self) -> CodecConfigSpec {
        self.conf@
    }
}

impl CodecConfigBuilder {
    /// Sets the video configuration.
    pub fn vconf(self, value: VConf) -> (b: CodecConfigBuilder)
        ensures
            b@ == (CodecConfigSpec { vconf: value@, ..self@ }),
    {
        CodecConfigBuilder { conf: CodecConfig { vconf: value, ..self.conf } }
    }

    /// Sets the video configuration, or resets it to the default.
    pub fn maybe_vconf(self, value: Option<VConf>) -> (b: CodecConfigBuilder)
        ensures
            b@ == (CodecConfigSpec {
                vconf: match value {
                    Some(v) => v@,
                    None => VConfSpec::keep_source(),
                },
                ..self@
            }),
    {
        let vconf = match value {
            Some(v) => v,
            None => VConf::default(),
        };
        CodecConfigBuilder { conf: CodecConfig { vconf, ..self.conf } }
    }

    /// Sets the audio configuration.
    pub fn aconf(self, value: AConf) -> (b: CodecConfigBuilder)
        ensures
            b@ == (CodecConfigSpec { aconf: value@, ..self@ }),
    {
        CodecConfigBuilder { conf: CodecConfig { aconf: value, ..self.conf } }
    }

    /// Sets the audio configuration, or resets it to the default.
    pub fn maybe_aconf(self, value: Option<AConf>) -> (b: CodecConfigBuilder)
        ensures
            b@ == (CodecConfigSpec {
                aconf: match value {
                    Some(a) => a@,
                    None => AConfSpec::keep_source(),
                },
                ..self@
            }),
    {
        let aconf = match value {
            Some(a) => a,
            None => AConf::default(),
        };
        CodecConfigBuilder { conf: CodecConfig { aconf, ..self.conf } }
    }

    /// Finishes the configuration.
    pub fn build(self) -> (r: CodecConfig)
        ensures
            r@ == self@,
    {
        self.conf
    }
}

} // verus!
