use vstd::prelude::*;

use crate::gpu::{first_encoder, views_of, ConverterGPU, HostOs};
use crate::speed::ConversionSpeed;
use crate::text::{decimal, decimal_text, join2, same_text, texts};

verus! {

/// A container format that can be uploaded and converted to.
#[derive(Clone, Copy, Debug, PartialEq, Eq, Structural)]
pub enum ConverterFormat {
    MP4,
    WebM,
    GIF,
    AVI,
    MKV,
    WMV,
    MOV,
    MTS,
    TS,
    M2TS,
}

impl ConverterFormat {
    /// The format's name: its file extension, in lower case.
    pub open spec fn name(self) -> Seq<char> {
        match self {
            ConverterFormat::MP4 => "mp4"@,
            ConverterFormat::WebM => "webm"@,
            ConverterFormat::GIF => "gif"@,
            ConverterFormat::AVI => "avi"@,
            ConverterFormat::MKV => "mkv"@,
            ConverterFormat::WMV => "wmv"@,
            ConverterFormat::MOV => "mov"@,
            ConverterFormat::MTS => "mts"@,
            ConverterFormat::TS => "ts"@,
            ConverterFormat::M2TS => "m2ts"@,
        }
    }

    /// The format's name: its file extension, in lower case.
    pub fn to_str(&self) -> (r: &'static str)
        ensures
            r@ == self.name(),
    {
        match self {
            ConverterFormat::MP4 => "mp4",
            ConverterFormat::WebM => "webm",
            ConverterFormat::GIF => "gif",
            ConverterFormat::AVI => "avi",
            ConverterFormat::MKV => "mkv",
            ConverterFormat::WMV => "wmv",
            ConverterFormat::MOV => "mov",
            ConverterFormat::MTS => "mts",
            ConverterFormat::TS => "ts",
            ConverterFormat::M2TS => "m2ts",
        }
    }

    /// No two formats share a name.
    pub proof fn lemma_names_distinct(a: ConverterFormat, b: ConverterFormat)
        ensures
            a.name() == b.name() <==> a == b,
    {
        reveal_strlit("mp4");
        reveal_strlit("webm");
        reveal_strlit("gif");
        reveal_strlit("avi");
        reveal_strlit("mkv");
        reveal_strlit("wmv");
        reveal_strlit("mov");
        reveal_strlit("mts");
        reveal_strlit("ts");
        reveal_strlit("m2ts");
        if a != b {
            assert(a.name().len() != b.name().len() || a.name()[0] != b.name()[0] || a.name()[1] != b.name()[1]
                || a.name()[2] != b.name()[2]);
        }
    }

    /// The format whose name is exactly `s`; names are case-sensitive.
    pub fn from_str(s: &str) -> (r: Option<ConverterFormat>)
        ensures
            r matches Some(f) ==> f.name() == s@,
            r is None ==> forall|f: ConverterFormat| #[trigger] f.name() != s@,
    {
        if same_text(s, "mp4") {
            Some(ConverterFormat::MP4)
        } else if same_text(s, "webm") {
            Some(ConverterFormat::WebM)
        } else if same_text(s, "gif") {
            Some(ConverterFormat::GIF)
        } else if same_text(s, "avi") {
            Some(ConverterFormat::AVI)
        } else if same_text(s, "mkv") {
            Some(ConverterFormat::MKV)
        } else if same_text(s, "wmv") {
            Some(ConverterFormat::WMV)
        } else if same_text(s, "mov") {
            Some(ConverterFormat::MOV)
        } else if same_text(s, "mts") {
            Some(ConverterFormat::MTS)
        } else if same_text(s, "ts") {
            Some(ConverterFormat::TS)
        } else if same_text(s, "m2ts") {
            Some(ConverterFormat::M2TS)
        } else {
            assert forall|f: ConverterFormat| #[trigger] f.name() != s@ by {
                match f {
                    ConverterFormat::MP4 => {},
                    ConverterFormat::WebM => {},
                    ConverterFormat::GIF => {},
                    ConverterFormat::AVI => {},
                    ConverterFormat::MKV => {},
                    ConverterFormat::WMV => {},
                    ConverterFormat::MOV => {},
                    ConverterFormat::MTS => {},
                    ConverterFormat::TS => {},
                    ConverterFormat::M2TS => {},
                }
            }
            None
        }
    }

    /// The speed and bitrate arguments for a conversion into this format.
    pub fn conversion_into_args(&self, speed: &ConversionSpeed, gpu: &ConverterGPU, bitrate: u64) -> (r:
        Vec<String>)
        ensures
            texts(r@) == speed.args_spec(*self, *gpu, bitrate),
    {
        speed.to_args(self, gpu, bitrate)
    }
}


/// Codec families to resolve to a hardware encoder for each target format,
/// most preferred first.
pub open spec fn video_codecs(to: ConverterFormat) -> Seq<Seq<char>> {
    match to {
        ConverterFormat::WMV => seq!["wmv2"@, "wmv3"@],
        ConverterFormat::WebM => seq!["av1"@, "vp9"@, "vp8"@],
        ConverterFormat::GIF | ConverterFormat::AVI => seq![],
        _ => seq!["h264"@],
    }
}

/// The software video encoder used when no hardware encoder is available.
pub open spec fn software_codec(to: ConverterFormat) -> Seq<char> {
    match to {
        ConverterFormat::WMV => "wmv2"@,
        ConverterFormat::WebM => "libvpx"@,
        ConverterFormat::AVI => "mpeg4"@,
        ConverterFormat::GIF => seq![],
        _ => "libx264"@,
    }
}

/// The fixed audio encoder of each target format.
pub open spec fn audio_codec(to: ConverterFormat) -> Seq<char> {
    match to {
        ConverterFormat::WMV => "wmav2"@,
        ConverterFormat::WebM => "libvorbis"@,
        ConverterFormat::AVI => "libmp3lame"@,
        ConverterFormat::GIF => seq![],
        _ => "aac"@,
    }
}

/// The first codec family, in order, that resolves to a hardware encoder
/// in `listing`, or `default` when none does.
pub open spec fn pick_encoder(
    listing: Seq<char>,
    codecs: Seq<Seq<char>>,
    prio: Seq<Seq<char>>,
    default: Seq<char>,
) -> Seq<char>
    decreases codecs.len(),
{
    if codecs.len() == 0 {
        default
    } else {
        match first_encoder(listing, codecs[0], prio) {
            Some(e) => e,
            None => pick_encoder(listing, codecs.drop_first(), prio, default),
        }
    }
}

/// The highest frame rate an animated image is given.
pub const GIF_MAX_FPS: u32 = 24;

/// The filter graph for animated images: frame rate capped at 24, 800
/// pixels wide, a 64-colour palette from a first pass, ordered dithering.
pub open spec fn gif_filter(fps: u32) -> Seq<char> {
    "fps="@ + decimal(if fps < GIF_MAX_FPS { fps as nat } else { GIF_MAX_FPS as nat })
        + ",scale=800:-1:flags=lanczos,split[s0][s1];[s0]palettegen=max_colors=64[p];[s1][p]paletteuse=dither=bayer"@
}

/// The codec arguments for a conversion into `to`.
pub open spec fn codec_args(to: ConverterFormat, gpu: ConverterGPU, os: HostOs, fps: u32, listing: Seq<char>) -> Seq<Seq<char>> {
    let video = pick_encoder(listing, video_codecs(to), gpu.priority(os), software_codec(to));
    match to {
        ConverterFormat::GIF => seq!["-filter_complex"@, gif_filter(fps)],
        ConverterFormat::WMV | ConverterFormat::WebM | ConverterFormat::AVI => seq!["-c:v"@, video, "-c:a"@, audio_codec(to)],
        _ => seq!["-c:v"@, video, "-c:a"@, audio_codec(to), "-strict"@, "experimental"@],
    }
}

/// The synthesized argument list of a conversion into `to`: codec
/// arguments, then speed and bitrate arguments.
pub open spec fn conversion_args(
    to: ConverterFormat,
    speed: ConversionSpeed,
    gpu: ConverterGPU,
    os: HostOs,
    bitrate: u64,
    fps: u32,
    listing: Seq<char>,
) -> Seq<Seq<char>> {
    codec_args(to, gpu, os, fps, listing) + speed.args_spec(to, gpu, bitrate)
}

/// A conversion from one container format into another.
#[derive(Debug)]
pub struct Conversion {
    pub from: ConverterFormat,
    pub to: ConverterFormat,
}

impl Conversion {
    pub fn new(from: ConverterFormat, to: ConverterFormat) -> (r: Self)
        ensures
            r.from == from,
            r.to == to,
    {
        Self { from, to }
    }

    /// The first hardware encoder that one of `codecs` resolves to in the
    /// transcoder's encoder listing, or `default`.
    pub fn accelerated_or_default_codec(
        &self,
        gpu: &ConverterGPU,
        os: HostOs,
        encoders: &str,
        codecs: &Vec<&str>,
        default: &str,
    ) -> (r: String)
        ensures
            r@ == pick_encoder(encoders@, views_of(codecs@), gpu.priority(os), default@),
    {
        let ghost cs = views_of(codecs@);
        let mut i: usize = 0;
        assert(cs.subrange(0, cs.len() as int) == cs);
        while i < codecs.len()
            invariant
                i <= codecs@.len() == cs.len(),
                cs == views_of(codecs@),
                pick_encoder(encoders@, cs, gpu.priority(os), default@) == pick_encoder(
                    encoders@,
                    cs.subrange(i as int, cs.len() as int),
                    gpu.priority(os),
                    default@,
                ),
            decreases codecs.len() - i,
        {
            let ghost rest = cs.subrange(i as int, cs.len() as int);
            assert(rest[0] == codecs@[i as int]@);
            assert(rest.drop_first() == cs.subrange(i + 1, cs.len() as int));
            if let Some(encoder) = gpu.get_accelerated_codec(os, encoders, codecs[i]) {
                return encoder;
            }
            i = i + 1;
        }
        String::from_str(default)
    }

    /// The synthesized arguments for this conversion: video and audio
    /// codecs (hardware encoders when `encoders`, the transcoder's encoder
    /// listing, offers one for the GPU bucket), format extras, then speed
    /// and bitrate arguments.
    pub fn to_args(
        &self,
        speed: &ConversionSpeed,
        gpu: &ConverterGPU,
        os: HostOs,
        bitrate: u64,
        fps: u32,
        encoders: &str,
    ) -> (r: Vec<String>)
        ensures
            texts(r@) == conversion_args(self.to, *speed, *gpu, os, bitrate, fps, encoders@),
    {
        let mut opts: Vec<String> = Vec::new();
        match self.to {
            ConverterFormat::GIF => {
                let capped = if fps < GIF_MAX_FPS { fps } else { GIF_MAX_FPS };
                let head = join2("fps=", decimal_text(capped as u64).as_str());
                let filter = join2(
                    head.as_str(),
                    ",scale=800:-1:flags=lanczos,split[s0][s1];[s0]palettegen=max_colors=64[p];[s1][p]paletteuse=dither=bayer",
                );
                opts.push(String::from_str("-filter_complex"));
                opts.push(filter);
            },
            ConverterFormat::AVI => {
                opts.push(String::from_str("-c:v"));
                opts.push(String::from_str("mpeg4"));
                opts.push(String::from_str("-c:a"));
                opts.push(String::from_str("libmp3lame"));
                assert(pick_encoder(encoders@, video_codecs(self.to), gpu.priority(os), software_codec(self.to)) == software_codec(self.to));
            },
            ConverterFormat::WMV => {
                let codecs: Vec<&str> = vec!["wmv2", "wmv3"];
                assert(views_of(codecs@) =~= video_codecs(self.to));
                opts.push(String::from_str("-c:v"));
                opts.push(self.accelerated_or_default_codec(gpu, os, encoders, &codecs, "wmv2"));
                opts.push(String::from_str("-c:a"));
                opts.push(String::from_str("wmav2"));
            },
            ConverterFormat::WebM => {
                let codecs: Vec<&str> = vec!["av1", "vp9", "vp8"];
                assert(views_of(codecs@) =~= video_codecs(self.to));
                opts.push(String::from_str("-c:v"));
                opts.push(self.accelerated_or_default_codec(gpu, os, encoders, &codecs, "libvpx"));
                opts.push(String::from_str("-c:a"));
                opts.push(String::from_str("libvorbis"));
            },
            _ => {
                let codecs: Vec<&str> = vec!["h264"];
                assert(views_of(codecs@) =~= video_codecs(self.to));
                opts.push(String::from_str("-c:v"));
                opts.push(self.accelerated_or_default_codec(gpu, os, encoders, &codecs, "libx264"));
                opts.push(String::from_str("-c:a"));
                opts.push(String::from_str("aac"));
                opts.push(String::from_str("-strict"));
                opts.push(String::from_str("experimental"));
            },
        }
        assert(texts(opts@) =~= codec_args(self.to, *gpu, os, fps, encoders@));
        let mut rest = self.to.conversion_into_args(speed, gpu, bitrate);
        let ghost before = opts@;
        let ghost tail = rest@;
        opts.append(&mut rest);
        assert(opts@ == before + tail);
        assert(texts(opts@) =~= texts(before) + texts(tail));
        opts
    }
}

} // verus!
