use avmux::{AConf, AFormat, CodecConfig, VConf, VFormat};

#[test]
fn default_config_keeps_every_source_property() {
    let conf = CodecConfig::default();
    let v = conf.vconf();
    assert_eq!(v.bitrate(), None);
    assert_eq!(v.size(), None);
    assert_eq!(v.gop(), None);
    assert_eq!(v.format(), None);
    let a = conf.aconf();
    assert_eq!(a.nb_channels(), None);
    assert_eq!(a.sample_rate(), None);
    assert_eq!(a.format(), None);
}

#[test]
fn builder_without_setters_equals_default() {
    let conf = CodecConfig::builder().build();
    assert_eq!(conf.vconf().format(), None);
    assert_eq!(conf.aconf().format(), None);
    let v = VConf::builder().build();
    assert_eq!(v.bitrate(), None);
    let a = AConf::builder().build();
    assert_eq!(a.sample_rate(), None);
}

#[test]
fn video_builder_sets_each_property() {
    let v = VConf::builder()
        .bitrate(2_000_000)
        .size((1280, 720))
        .gop(250)
        .format(VFormat::HEVC)
        .build();
    assert_eq!(v.bitrate(), Some(2_000_000));
    assert_eq!(v.size(), Some((1280, 720)));
    assert_eq!(v.gop(), Some(250));
    assert_eq!(v.format(), Some(VFormat::HEVC));
}

#[test]
fn video_builder_maybe_setters() {
    let v = VConf::builder()
        .maybe_bitrate(Some(5))
        .maybe_size(None)
        .maybe_gop(Some(12))
        .maybe_format(Some(VFormat::AV1))
        .build();
    assert_eq!(v.bitrate(), Some(5));
    assert_eq!(v.size(), None);
    assert_eq!(v.gop(), Some(12));
    assert_eq!(v.format(), Some(VFormat::AV1));
}

#[test]
fn audio_builder_sets_each_property() {
    let a = AConf::builder().nb_channels(2).sample_rate(48000).format(AFormat::FLAC).build();
    assert_eq!(a.nb_channels(), Some(2));
    assert_eq!(a.sample_rate(), Some(48000));
    assert_eq!(a.format(), Some(AFormat::FLAC));
    let a = AConf::builder()
        .maybe_nb_channels(None)
        .maybe_sample_rate(Some(44100))
        .maybe_format(Some(AFormat::AAC))
        .build();
    assert_eq!(a.nb_channels(), None);
    assert_eq!(a.sample_rate(), Some(44100));
    assert_eq!(a.format(), Some(AFormat::AAC));
}

#[test]
fn codec_config_builder_combines_both() {
    let conf = CodecConfig::builder()
        .vconf(VConf::builder().format(VFormat::H264).build())
        .aconf(AConf::builder().format(AFormat::AAC).build())
        .build();
    assert_eq!(conf.vconf().format(), Some(VFormat::H264));
    assert_eq!(conf.aconf().format(), Some(AFormat::AAC));
    let conf = CodecConfig::builder()
        .maybe_vconf(None)
        .maybe_aconf(Some(AConf::builder().sample_rate(8000).build()))
        .build();
    assert_eq!(conf.vconf().format(), None);
    assert_eq!(conf.aconf().sample_rate(), Some(8000));
}
