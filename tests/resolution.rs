use vertd::format::{Conversion, ConverterFormat};
use vertd::gpu::{bucket_or_unknown, classify_adapter, pick_render_device, AdapterError, ConverterGPU, HostOs};

#[test]
fn first_backend_match_wins() {
    let listing = "h264_nvenc h264_vaapi";
    let got = ConverterGPU::NVIDIA.get_accelerated_codec(HostOs::Linux, listing, "h264");
    assert_eq!(got, Some("h264_nvenc".to_string()));
    let got = ConverterGPU::Intel.get_accelerated_codec(HostOs::Linux, listing, "h264");
    assert_eq!(got, Some("h264_vaapi".to_string()));
    let got = ConverterGPU::Intel.get_accelerated_codec(HostOs::Other, listing, "h264");
    assert_eq!(got, None);
}

#[test]
fn empty_listing_gives_software_default() {
    let conv = Conversion::new(ConverterFormat::MP4, ConverterFormat::MP4);
    for gpu in [ConverterGPU::AMD, ConverterGPU::Intel, ConverterGPU::NVIDIA, ConverterGPU::Apple, ConverterGPU::Unknown] {
        let codecs = vec!["h264"];
        assert_eq!(conv.accelerated_or_default_codec(&gpu, HostOs::Linux, "", &codecs, "libx264"), "libx264");
    }
}

#[test]
fn codec_order_before_backend_order() {
    let conv = Conversion::new(ConverterFormat::MP4, ConverterFormat::WebM);
    let codecs = vec!["av1", "vp9", "vp8"];
    let listing = "vp8_nvenc vp9_nvenc";
    let got = conv.accelerated_or_default_codec(&ConverterGPU::NVIDIA, HostOs::Linux, listing, &codecs, "libvpx");
    assert_eq!(got, "vp9_nvenc");
}

#[test]
fn encoder_priorities() {
    assert_eq!(ConverterGPU::AMD.encoder_priority(HostOs::Linux), vec!["vaapi"]);
    assert_eq!(ConverterGPU::AMD.encoder_priority(HostOs::Other), vec!["amf"]);
    assert_eq!(ConverterGPU::Intel.encoder_priority(HostOs::Other), vec!["qsv"]);
    assert_eq!(ConverterGPU::NVIDIA.encoder_priority(HostOs::Linux), vec!["nvenc"]);
    assert_eq!(ConverterGPU::Apple.encoder_priority(HostOs::Linux), vec!["videotoolbox"]);
    assert!(ConverterGPU::Unknown.encoder_priority(HostOs::Linux).is_empty());
}

#[test]
fn hwaccel_flags() {
    assert_eq!(
        ConverterGPU::Intel.hwaccel_args(HostOs::Linux),
        vec!["-hwaccel", "vaapi", "-hwaccel_output_format", "vaapi"]
    );
    assert_eq!(ConverterGPU::AMD.hwaccel_args(HostOs::Other), vec!["-hwaccel", "amf"]);
    assert_eq!(ConverterGPU::NVIDIA.hwaccel_args(HostOs::Linux), vec!["-hwaccel", "cuda"]);
    assert!(ConverterGPU::Unknown.hwaccel_args(HostOs::Linux).is_empty());
}

#[test]
fn adapter_classification() {
    assert_eq!(classify_adapter("GeForce RTX 3090", 0x10DE, false), Ok(ConverterGPU::NVIDIA));
    assert_eq!(classify_adapter("Radeon", 0x1002, false), Ok(ConverterGPU::AMD));
    assert_eq!(classify_adapter("Iris Xe", 0x8086, false), Ok(ConverterGPU::Intel));
    assert_eq!(classify_adapter("Apple M2", 0x10DE, false), Ok(ConverterGPU::Apple));
    assert_eq!(classify_adapter("something", 0x106B, false), Ok(ConverterGPU::Apple));
    assert_eq!(classify_adapter("something", 0, false), Ok(ConverterGPU::Apple));
    assert_eq!(classify_adapter("llvmpipe", 0x10005, true), Ok(ConverterGPU::NVIDIA));
    assert_eq!(classify_adapter("llvmpipe", 0x10005, false), Err(AdapterError::UnknownVendor(0x10005)));
    assert_eq!(classify_adapter("mystery", 0x1234, true), Err(AdapterError::UnknownVendor(0x1234)));
}

#[test]
fn failed_detection_falls_back_to_unknown() {
    assert_eq!(bucket_or_unknown(Err(AdapterError::NoAdapter)), ConverterGPU::Unknown);
    assert_eq!(bucket_or_unknown(Ok(ConverterGPU::Intel)), ConverterGPU::Intel);
}

#[test]
fn render_device_is_first_render_node() {
    let names = vec!["card0".to_string(), "renderD129".to_string(), "renderD128".to_string()];
    assert_eq!(pick_render_device(&names), Some("/dev/dri/renderD129".to_string()));
    assert_eq!(pick_render_device(&vec!["card0".to_string()]), None);
}
