use vertd::format::{Conversion, ConverterFormat};
use vertd::gpu::{ConverterGPU, HostOs};
use vertd::speed::ConversionSpeed;

const GIF_TAIL: &str =
    ",scale=800:-1:flags=lanczos,split[s0][s1];[s0]palettegen=max_colors=64[p];[s1][p]paletteuse=dither=bayer";

const ALL_FORMATS: [ConverterFormat; 10] = [
    ConverterFormat::MP4,
    ConverterFormat::WebM,
    ConverterFormat::GIF,
    ConverterFormat::AVI,
    ConverterFormat::MKV,
    ConverterFormat::WMV,
    ConverterFormat::MOV,
    ConverterFormat::MTS,
    ConverterFormat::TS,
    ConverterFormat::M2TS,
];

const ALL_SPEEDS: [ConversionSpeed; 6] = [
    ConversionSpeed::UltraFast,
    ConversionSpeed::Fast,
    ConversionSpeed::Medium,
    ConversionSpeed::Slow,
    ConversionSpeed::Slower,
    ConversionSpeed::VerySlow,
];

fn args_for(to: ConverterFormat, speed: ConversionSpeed, gpu: ConverterGPU, listing: &str) -> Vec<String> {
    Conversion::new(ConverterFormat::MP4, to).to_args(&speed, &gpu, HostOs::Linux, 1_000_000, 30, listing)
}

#[test]
fn every_format_pairs_audio_with_video_and_bitrate() {
    for to in ALL_FORMATS {
        let a = args_for(to, ConversionSpeed::Medium, ConverterGPU::Unknown, "");
        let has_bitrate = a.iter().any(|s| s == "-b:v");
        if to == ConverterFormat::GIF {
            assert!(!has_bitrate);
            assert_eq!(a[0], "-filter_complex");
        } else {
            assert!(has_bitrate);
            assert_eq!(a[0], "-c:v");
            assert!(!a[1].is_empty());
            assert_eq!(a[2], "-c:a");
        }
    }
}

#[test]
fn software_defaults_and_audio_codecs() {
    let expect = [
        (ConverterFormat::MP4, "libx264", "aac"),
        (ConverterFormat::MKV, "libx264", "aac"),
        (ConverterFormat::TS, "libx264", "aac"),
        (ConverterFormat::WMV, "wmv2", "wmav2"),
        (ConverterFormat::WebM, "libvpx", "libvorbis"),
        (ConverterFormat::AVI, "mpeg4", "libmp3lame"),
    ];
    for (to, video, audio) in expect {
        let a = args_for(to, ConversionSpeed::Medium, ConverterGPU::NVIDIA, "");
        assert_eq!(a[1], video);
        assert_eq!(a[3], audio);
    }
}

#[test]
fn mp4_full_argument_list() {
    let a = args_for(ConverterFormat::MP4, ConversionSpeed::Medium, ConverterGPU::Unknown, "");
    let expect: Vec<&str> =
        vec!["-c:v", "libx264", "-c:a", "aac", "-strict", "experimental", "-preset", "medium", "-b:v", "1000000"];
    assert_eq!(a, expect);
}

#[test]
fn gif_clamps_fps_and_omits_bitrate_and_speed() {
    let conv = Conversion::new(ConverterFormat::MP4, ConverterFormat::GIF);
    let a = conv.to_args(&ConversionSpeed::VerySlow, &ConverterGPU::NVIDIA, HostOs::Linux, 5_000_000, 60, "");
    assert_eq!(a.len(), 2);
    assert_eq!(a[0], "-filter_complex");
    assert_eq!(a[1], format!("fps=24{}", GIF_TAIL));
    assert!(!a.iter().any(|s| s == "-b:v" || s == "-preset" || s == "-speed"));
}

#[test]
fn gif_keeps_lower_fps() {
    let conv = Conversion::new(ConverterFormat::MP4, ConverterFormat::GIF);
    let a = conv.to_args(&ConversionSpeed::Fast, &ConverterGPU::Unknown, HostOs::Other, 0, 15, "");
    assert_eq!(a[1], format!("fps=15{}", GIF_TAIL));
}

#[test]
fn software_presets_are_six_distinct_flags() {
    let flags: Vec<String> = ALL_SPEEDS
        .iter()
        .map(|s| s.to_args(&ConverterFormat::MP4, &ConverterGPU::AMD, 100)[1].clone())
        .collect();
    assert_eq!(flags, vec!["ultrafast", "fast", "medium", "slow", "slower", "veryslow"]);
}

#[test]
fn nvidia_presets_collapse_to_three() {
    let flags: Vec<String> = ALL_SPEEDS
        .iter()
        .map(|s| s.to_args(&ConverterFormat::MKV, &ConverterGPU::NVIDIA, 100)[1].clone())
        .collect();
    assert_eq!(flags, vec!["fast", "fast", "medium", "medium", "slow", "slow"]);
}

#[test]
fn webm_speed_levels() {
    let levels: Vec<String> = ALL_SPEEDS
        .iter()
        .map(|s| s.to_args(&ConverterFormat::WebM, &ConverterGPU::Unknown, 100)[1].clone())
        .collect();
    assert_eq!(levels, vec!["4", "3", "2", "1", "0", "-1"]);
}

#[test]
fn wmv_has_no_speed_flag() {
    let a = ConversionSpeed::Fast.to_args(&ConverterFormat::WMV, &ConverterGPU::Intel, 1000);
    assert_eq!(a, vec!["-b:v", "940"]);
}

#[test]
fn bitrate_multipliers() {
    let got: Vec<u64> = ALL_SPEEDS.iter().map(|s| s.scale_bitrate(1_000_000)).collect();
    assert_eq!(got, vec![880_000, 940_000, 1_000_000, 1_060_000, 1_120_000, 1_180_000]);
    assert_eq!(ConversionSpeed::VerySlow.scale_bitrate(u64::MAX), u64::MAX);
    assert_eq!(ConversionSpeed::UltraFast.bitrate_percent(), 88);
}

#[test]
fn conversion_into_args_matches_speed_args() {
    let a = ConverterFormat::MOV.conversion_into_args(&ConversionSpeed::Slow, &ConverterGPU::Apple, 2000);
    assert_eq!(a, vec!["-preset", "slow", "-b:v", "2120"]);
}

#[test]
fn format_names_round_trip() {
    for f in ALL_FORMATS {
        assert_eq!(ConverterFormat::from_str(f.to_str()), Some(f));
    }
    assert_eq!(ConverterFormat::from_str("MP4"), None);
    assert_eq!(ConverterFormat::from_str("jpg"), None);
    assert_eq!(ConverterFormat::from_str(""), None);
}

#[test]
fn webm_uses_first_available_hardware_codec() {
    let listing = " V..... vp9_vaapi   VP9 (VAAPI)\n V..... vp8_vaapi   VP8 (VAAPI)\n";
    let a = args_for(ConverterFormat::WebM, ConversionSpeed::Medium, ConverterGPU::AMD, listing);
    assert_eq!(a[1], "vp9_vaapi");
    assert_eq!(a[3], "libvorbis");
}
