use vstd::prelude::*;

use crate::text::{texts, contains_text, join2, occurs_in, starts_with_text};

verus! {

/// Coarse GPU vendor bucket that drives the choice of hardware encoders.
#[derive(Clone, Copy, Debug, PartialEq, Eq, Structural)]
pub enum ConverterGPU {
    AMD,
    Intel,
    NVIDIA,
    Apple,
    /// No usable adapter was classified: only software encoders are used.
    Unknown,
}

/// The operating system family the service runs on.
#[derive(Clone, Copy, Debug, PartialEq, Eq, Structural)]
pub enum HostOs {
    Linux,
    Other,
}

/// Why the graphics adapter could not be classified.
#[derive(Clone, Copy, Debug, PartialEq, Eq, Structural)]
pub enum AdapterError {
    /// No high-performance adapter was found.
    NoAdapter,
    /// The adapter reports a vendor id that is not recognised.
    UnknownVendor(u32),
}

pub const VENDOR_NVIDIA: u32 = 0x10DE;

pub const VENDOR_AMD: u32 = 0x1002;

pub const VENDOR_INTEL: u32 = 0x8086;

pub const VENDOR_APPLE: u32 = 0x106B;

/// First and last of the vendor ids that software renderers report.
pub const VENDOR_SOFTWARE_FIRST: u32 = 0x10000;

pub const VENDOR_SOFTWARE_LAST: u32 = 0x10007;

/// The name of a concrete encoder: codec family, underscore, backend suffix.
pub open spec fn encoder_name(codec: Seq<char>, suffix: Seq<char>) -> Seq<char> {
    codec + "_"@ + suffix
}

/// The first backend in `prio` whose encoder for `codec` occurs in `listing`.
pub open spec fn first_encoder(listing: Seq<char>, codec: Seq<char>, prio: Seq<Seq<char>>) -> Option<
    Seq<char>,
>
    decreases prio.len(),
{
    if prio.len() == 0 {
        None
    } else if occurs_in(encoder_name(codec, prio[0]), listing) {
        Some(encoder_name(codec, prio[0]))
    } else {
        first_encoder(listing, codec, prio.drop_first())
    }
}

pub open spec fn views_of(v: Seq<&str>) -> Seq<Seq<char>> {
    v.map_values(|s: &str| s@)
}

/// The classification of an adapter from its name, its vendor id, and
/// whether the process runs inside a container.
pub open spec fn classify_spec(name: Seq<char>, vendor: u32, in_container: bool) -> Result<
    ConverterGPU,
    AdapterError,
> {
    if occurs_in("Apple"@, name) {
        Ok(ConverterGPU::Apple)
    } else if vendor == VENDOR_NVIDIA {
        Ok(ConverterGPU::NVIDIA)
    } else if vendor == VENDOR_AMD {
        Ok(ConverterGPU::AMD)
    } else if vendor == VENDOR_INTEL {
        Ok(ConverterGPU::Intel)
    } else if vendor == VENDOR_APPLE || vendor == 0 {
        Ok(ConverterGPU::Apple)
    } else if VENDOR_SOFTWARE_FIRST <= vendor <= VENDOR_SOFTWARE_LAST && in_container {
        Ok(ConverterGPU::NVIDIA)
    } else {
        Err(AdapterError::UnknownVendor(vendor))
    }
}

impl ConverterGPU {
    /// Backend suffixes to try, most preferred first.
    pub open spec fn priority(self, os: HostOs) -> Seq<Seq<char>> {
        match self {
            ConverterGPU::AMD => if os == HostOs::Linux {
                seq!["vaapi"@]
            } else {
                seq!["amf"@]
            },
            ConverterGPU::Intel => if os == HostOs::Linux {
                seq!["vaapi"@]
            } else {
                seq!["qsv"@]
            },
            ConverterGPU::NVIDIA => seq!["nvenc"@],
            ConverterGPU::Apple => seq!["videotoolbox"@],
            ConverterGPU::Unknown => seq![],
        }
    }

    /// Flags that select hardware decoding for this bucket.
    pub open spec fn hwaccel(self, os: HostOs) -> Seq<Seq<char>> {
        match self {
            ConverterGPU::AMD => if os == HostOs::Linux {
                seq!["-hwaccel"@, "vaapi"@, "-hwaccel_output_format"@, "vaapi"@]
            } else {
                seq!["-hwaccel"@, "amf"@]
            },
            ConverterGPU::Intel => if os == HostOs::Linux {
                seq!["-hwaccel"@, "vaapi"@, "-hwaccel_output_format"@, "vaapi"@]
            } else {
                seq!["-hwaccel"@, "qsv"@]
            },
            ConverterGPU::NVIDIA => seq!["-hwaccel"@, "cuda"@],
            ConverterGPU::Apple => seq!["-hwaccel"@, "videotoolbox"@],
            ConverterGPU::Unknown => seq![],
        }
    }

    /// Backend suffixes to try, most preferred first.
    pub fn encoder_priority(&self, os: HostOs) -> (r: Vec<&'static str>)
        ensures
            views_of(r@) == self.priority(os),
    {
        let mut r: Vec<&'static str> = Vec::new();
        match self {
            ConverterGPU::AMD => {
                if os == HostOs::Linux {
                    r.push("vaapi");
                } else {
                    r.push("amf");
                }
            },
            ConverterGPU::Intel => {
                if os == HostOs::Linux {
                    r.push("vaapi");
                } else {
                    r.push("qsv");
                }
            },
            ConverterGPU::NVIDIA => r.push("nvenc"),
            ConverterGPU::Apple => r.push("videotoolbox"),
            ConverterGPU::Unknown => {},
        }
        assert(views_of(r@) =~= self.priority(os));
        r
    }

    /// Flags that select hardware decoding for this bucket.
    pub fn hwaccel_args(&self, os: HostOs) -> (r: Vec<&'static str>)
        ensures
            views_of(r@) == self.hwaccel(os),
    {
        let mut r: Vec<&'static str> = Vec::new();
        match self {
            ConverterGPU::AMD | ConverterGPU::Intel => {
                r.push("-hwaccel");
                if os == HostOs::Linux {
                    r.push("vaapi");
                    r.push("-hwaccel_output_format");
                    r.push("vaapi");
                } else if *self == ConverterGPU::AMD {
                    r.push("amf");
                } else {
                    r.push("qsv");
                }
            },
            ConverterGPU::NVIDIA => {
                r.push("-hwaccel");
                r.push("cuda");
            },
            ConverterGPU::Apple => {
                r.push("-hwaccel");
                r.push("videotoolbox");
            },
            ConverterGPU::Unknown => {},
        }
        assert(views_of(r@) =~= self.hwaccel(os));
        r
    }

    /// The display name of the bucket.
    pub fn name(&self) -> (r: &'static str) {
        match self {
            ConverterGPU::AMD => "AMD",
            ConverterGPU::Intel => "Intel",
            ConverterGPU::NVIDIA => "NVIDIA",
            ConverterGPU::Apple => "Apple",
            ConverterGPU::Unknown => "Unknown",
        }
    }

    /// The best hardware encoder for `codec` that the transcoder's encoder
    /// listing offers, trying this bucket's backends in order.
    pub fn get_accelerated_codec(&self, os: HostOs, encoders: &str, codec: &str) -> (r: Option<String>)
        ensures
            r matches Some(e) ==> first_encoder(encoders@, codec@, self.priority(os)) == Some(e@),
            r is None ==> first_encoder(encoders@, codec@, self.priority(os)) is None,
    {
        let prio = self.encoder_priority(os);
        let ghost p = self.priority(os);
        let mut i: usize = 0;
        assert(p.subrange(0, p.len() as int) == p);
        while i < prio.len()
            invariant
                i <= prio@.len(),
                views_of(prio@) == p,
                p == self.priority(os),
                first_encoder(encoders@, codec@, p) == first_encoder(
                    encoders@,
                    codec@,
                    p.subrange(i as int, p.len() as int),
                ),
            decreases prio.len() - i,
        {
            let with_sep = join2(codec, "_");
            let candidate = join2(with_sep.as_str(), prio[i]);
            let ghost rest = p.subrange(i as int, p.len() as int);
            assert(p.len() == prio@.len());
            assert(rest.len() > 0);
            assert(rest[0] == prio@[i as int]@);
            assert(rest.drop_first() == p.subrange(i + 1, p.len() as int));
            assert(candidate@ == encoder_name(codec@, rest[0]));
            if contains_text(encoders, candidate.as_str()) {
                assert(first_encoder(encoders@, codec@, rest) == Some(candidate@));
                return Some(candidate);
            }
            i = i + 1;
        }
        None
    }
}

/// Classifies an adapter from its reported name and vendor id. An adapter
/// name that mentions Apple wins over the vendor id; the vendor ids of
/// software renderers count as NVIDIA inside a container, where they mean
/// that the GPU was not passed through.
pub fn classify_adapter(name: &str, vendor: u32, in_container: bool) -> (r: Result<
    ConverterGPU,
    AdapterError,
>)
    ensures
        r == classify_spec(name@, vendor, in_container),
{
    if contains_text(name, "Apple") {
        Ok(ConverterGPU::Apple)
    } else if vendor == VENDOR_NVIDIA {
        Ok(ConverterGPU::NVIDIA)
    } else if vendor == VENDOR_AMD {
        Ok(ConverterGPU::AMD)
    } else if vendor == VENDOR_INTEL {
        Ok(ConverterGPU::Intel)
    } else if vendor == VENDOR_APPLE || vendor == 0 {
        Ok(ConverterGPU::Apple)
    } else if VENDOR_SOFTWARE_FIRST <= vendor && vendor <= VENDOR_SOFTWARE_LAST && in_container {
        Ok(ConverterGPU::NVIDIA)
    } else {
        Err(AdapterError::UnknownVendor(vendor))
    }
}

/// The bucket used for a conversion: the detected one, or `Unknown` when
/// detection failed, so that conversion falls back to software encoders.
pub fn bucket_or_unknown(detected: Result<ConverterGPU, AdapterError>) -> (r: ConverterGPU)
    ensures
        r == (match detected {
            Ok(g) => g,
            Err(_) => ConverterGPU::Unknown,
        }),
{
    match detected {
        Ok(g) => g,
        Err(_) => ConverterGPU::Unknown,
    }
}

/// The first render node among the entries of the DRM device directory, as
/// a full device path.
pub open spec fn render_device_spec(names: Seq<Seq<char>>) -> Option<Seq<char>>
    decreases names.len(),
{
    if names.len() == 0 {
        None
    } else if names[0].len() >= 7 && names[0].take(7) == "renderD"@ {
        Some("/dev/dri/"@ + names[0])
    } else {
        render_device_spec(names.drop_first())
    }
}

/// Picks the first render node (`renderD*`) among the entry names of the DRM
/// device directory, as they were listed.
pub fn pick_render_device(names: &Vec<String>) -> (r: Option<String>)
    ensures
        r matches Some(d) ==> render_device_spec(texts(names@)) == Some(d@),
        r is None ==> render_device_spec(texts(names@)) is None,
{
    let ghost ns = texts(names@);
    proof {
        reveal_strlit("renderD");
    }
    let mut i: usize = 0;
    assert(ns.subrange(0, ns.len() as int) == ns);
    while i < names.len()
        invariant
            i <= names@.len(),
            ns == texts(names@),
            render_device_spec(ns) == render_device_spec(ns.subrange(i as int, ns.len() as int)),
        decreases names.len() - i,
    {
        let ghost rest = ns.subrange(i as int, ns.len() as int);
        assert(ns.len() == names@.len());
        assert(rest.len() > 0);
        assert(rest[0] == names@[i as int]@);
        assert(rest.drop_first() == ns.subrange(i + 1, ns.len() as int));
        if starts_with_text(names[i].as_str(), "renderD") {
            proof {
                reveal_strlit("renderD");
            }
            assert(render_device_spec(rest) == Some("/dev/dri/"@ + rest[0]));
            return Some(join2("/dev/dri/", names[i].as_str()));
        }
        i = i + 1;
    }
    None
}

} // verus!
