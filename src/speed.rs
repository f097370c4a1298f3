use vstd::prelude::*;

use crate::format::ConverterFormat;
use crate::gpu::ConverterGPU;
use crate::text::{decimal, decimal_text, texts};

verus! {

/// The six-level speed/quality knob of a conversion, fastest first.
#[derive(Clone, Copy, Debug, PartialEq, Eq, Structural)]
pub enum ConversionSpeed {
    UltraFast,
    Fast,
    Medium,
    Slow,
    Slower,
    VerySlow,
}

/// Formats whose encoders take an x264-style `-preset`.
pub open spec fn takes_preset(to: ConverterFormat) -> bool {
    match to {
        ConverterFormat::MP4 | ConverterFormat::MKV | ConverterFormat::MOV | ConverterFormat::MTS
        | ConverterFormat::TS | ConverterFormat::M2TS => true,
        _ => false,
    }
}

/// Formats whose encoders take a numeric `-speed`.
pub open spec fn takes_speed_level(to: ConverterFormat) -> bool {
    to == ConverterFormat::WebM || to == ConverterFormat::AVI
}

impl ConversionSpeed {
    /// Position of the preset, fastest first.
    pub open spec fn rank(self) -> nat {
        match self {
            ConversionSpeed::UltraFast => 0,
            ConversionSpeed::Fast => 1,
            ConversionSpeed::Medium => 2,
            ConversionSpeed::Slow => 3,
            ConversionSpeed::Slower => 4,
            ConversionSpeed::VerySlow => 5,
        }
    }

    /// Bitrate multiplier in percent: 88% for the fastest preset up to 118%
    /// for the slowest, six points apart.
    pub open spec fn percent(self) -> nat {
        88 + 6 * self.rank()
    }

    /// The software encoder's `-preset` value.
    pub open spec fn software_preset(self) -> Seq<char> {
        match self {
            ConversionSpeed::UltraFast => "ultrafast"@,
            ConversionSpeed::Fast => "fast"@,
            ConversionSpeed::Medium => "medium"@,
            ConversionSpeed::Slow => "slow"@,
            ConversionSpeed::Slower => "slower"@,
            ConversionSpeed::VerySlow => "veryslow"@,
        }
    }

    /// The NVIDIA encoder's `-preset` value: it only knows three presets.
    pub open spec fn nvidia_preset(self) -> Seq<char> {
        match self {
            ConversionSpeed::VerySlow | ConversionSpeed::Slower => "slow"@,
            ConversionSpeed::Slow | ConversionSpeed::Medium => "medium"@,
            ConversionSpeed::Fast | ConversionSpeed::UltraFast => "fast"@,
        }
    }

    pub open spec fn preset(self, gpu: ConverterGPU) -> Seq<char> {
        if gpu == ConverterGPU::NVIDIA {
            self.nvidia_preset()
        } else {
            self.software_preset()
        }
    }

    /// The value given to `-speed`: 4 for the fastest preset down to -1.
    pub open spec fn level(self) -> int {
        4 - self.rank()
    }

    pub open spec fn level_text(self) -> Seq<char> {
        if self.level() < 0 {
            "-1"@
        } else {
            decimal(self.level() as nat)
        }
    }

    /// The bitrate scaled by the preset's multiplier, rounded down and
    /// capped at the largest `u64`.
    pub open spec fn scaled_bitrate(self, bitrate: u64) -> nat {
        let b = bitrate as nat * self.percent() / 100;
        if b > u64::MAX {
            u64::MAX as nat
        } else {
            b
        }
    }

    /// The speed and bitrate arguments for a conversion into `to`.
    pub open spec fn args_spec(self, to: ConverterFormat, gpu: ConverterGPU, bitrate: u64) -> Seq<
        Seq<char>,
    > {
        let speed: Seq<Seq<char>> = if takes_preset(to) {
            seq!["-preset"@, self.preset(gpu)]
        } else if takes_speed_level(to) {
            seq!["-speed"@, self.level_text()]
        } else {
            seq![]
        };
        if to == ConverterFormat::GIF {
            speed
        } else {
            speed + seq!["-b:v"@, decimal(self.scaled_bitrate(bitrate))]
        }
    }

    /// Bitrate multiplier in percent.
    pub fn bitrate_percent(&self) -> (r: u64)
        ensures
            r == self.percent(),
    {
        match self {
            ConversionSpeed::UltraFast => 88,
            ConversionSpeed::Fast => 94,
            ConversionSpeed::Medium => 100,
            ConversionSpeed::Slow => 106,
            ConversionSpeed::Slower => 112,
            ConversionSpeed::VerySlow => 118,
        }
    }

    /// The bitrate scaled by the preset's multiplier.
    pub fn scale_bitrate(&self, bitrate: u64) -> (r: u64)
        ensures
            r == self.scaled_bitrate(bitrate),
    {
        let pct = self.bitrate_percent();
        assert((bitrate as u128) * (pct as u128) <= u64::MAX as u128 * 118) by (nonlinear_arith)
            requires
                pct <= 118,
        ;
        let scaled: u128 = (bitrate as u128) * (pct as u128) / 100;
        if scaled > u64::MAX as u128 {
            u64::MAX
        } else {
            scaled as u64
        }
    }

    fn preset_flag(&self, gpu: &ConverterGPU) -> (r: String)
        ensures
            r@ == self.preset(*gpu),
    {
        let s = if *gpu == ConverterGPU::NVIDIA {
            match self {
                ConversionSpeed::VerySlow | ConversionSpeed::Slower => "slow",
                ConversionSpeed::Slow | ConversionSpeed::Medium => "medium",
                ConversionSpeed::Fast | ConversionSpeed::UltraFast => "fast",
            }
        } else {
            match self {
                ConversionSpeed::UltraFast => "ultrafast",
                ConversionSpeed::Fast => "fast",
                ConversionSpeed::Medium => "medium",
                ConversionSpeed::Slow => "slow",
                ConversionSpeed::Slower => "slower",
                ConversionSpeed::VerySlow => "veryslow",
            }
        };
        String::from_str(s)
    }

    fn level_flag(&self) -> (r: String)
        ensures
            r@ == self.level_text(),
    {
        match self {
            ConversionSpeed::VerySlow => String::from_str("-1"),
            _ => decimal_text((4 - self.rank_index()) as u64),
        }
    }

    fn rank_index(&self) -> (r: u8)
        ensures
            r == self.rank(),
    {
        match self {
            ConversionSpeed::UltraFast => 0,
            ConversionSpeed::Fast => 1,
            ConversionSpeed::Medium => 2,
            ConversionSpeed::Slow => 3,
            ConversionSpeed::Slower => 4,
            ConversionSpeed::VerySlow => 5,
        }
    }

    /// The speed and bitrate arguments for a conversion into `to`: a preset
    /// for the H.264 family, a speed level for WebM and AVI, nothing for WMV
    /// and GIF; then the scaled bitrate, except for GIF.
    pub fn to_args(&self, to: &ConverterFormat, gpu: &ConverterGPU, bitrate: u64) -> (r: Vec<String>)
        ensures
            texts(r@) == self.args_spec(*to, *gpu, bitrate),
    {
        let mut args: Vec<String> = Vec::new();
        match to {
            ConverterFormat::MP4 | ConverterFormat::MKV | ConverterFormat::MOV | ConverterFormat::MTS
            | ConverterFormat::TS | ConverterFormat::M2TS => {
                args.push(String::from_str("-preset"));
                args.push(self.preset_flag(gpu));
            },
            ConverterFormat::WebM | ConverterFormat::AVI => {
                args.push(String::from_str("-speed"));
                args.push(self.level_flag());
            },
            ConverterFormat::GIF | ConverterFormat::WMV => {},
        }
        let ghost speed_part = texts(args@);
        if *to != ConverterFormat::GIF {
            args.push(String::from_str("-b:v"));
            args.push(decimal_text(self.scale_bitrate(bitrate)));
            assert(texts(args@) =~= speed_part + seq!["-b:v"@, decimal(self.scaled_bitrate(bitrate))]);
        }
        assert(texts(args@) =~= self.args_spec(*to, *gpu, bitrate));
        args
    }
}

} // verus!
