use vstd::prelude::*;

use crate::format::{Conversion, ConverterFormat};
use crate::job::{opt_text, artifact_path, input_path_spec, output_path_spec, uuid_text};
use crate::speed::ConversionSpeed;
use crate::text::{contains_text, join2, occurs_in, texts};

verus! {

/// An uploaded file's format and bytes.
#[derive(Debug)]
pub struct ConverterInput {
    pub format: ConverterFormat,
    pub bytes: Vec<u8>,
}

impl ConverterInput {
    pub fn new(format: ConverterFormat, bytes: Vec<u8>) -> (r: Self)
        ensures
            r.format == format,
            r.bytes == bytes,
    {
        Self { format, bytes }
    }
}

/// The format a conversion produces.
#[derive(Debug)]
pub struct ConverterOutput {
    pub format: ConverterFormat,
}

impl ConverterOutput {
    pub fn new(format: ConverterFormat) -> (r: Self)
        ensures
            r.format == format,
    {
        Self { format }
    }
}

/// Why a conversion could not be launched.
#[derive(Clone, Copy, Debug, PartialEq, Eq, Structural)]
pub enum ConvertError {
    /// A hardware encoder was chosen but no render device was found.
    NoRenderDevice,
}

/// Flags that make the transcoder quiet and write machine-readable
/// progress to its standard output.
pub open spec fn global_flags() -> Seq<Seq<char>> {
    seq!["-hide_banner"@, "-loglevel"@, "error"@, "-progress"@, "pipe:1"@]
}

/// Whether an argument names a hardware encoder backend.
pub open spec fn is_hardware_arg(a: Seq<char>) -> bool {
    occurs_in("vaapi"@, a) || occurs_in("nvenc"@, a) || occurs_in("qsv"@, a)
}

/// Whether the synthesized arguments select a hardware encoder.
pub open spec fn uses_hardware_spec(args: Seq<Seq<char>>) -> bool {
    exists|i: int| 0 <= i < args.len() && is_hardware_arg(#[trigger] args[i])
}

/// The full transcoder command line: global flags, the hardware device set
/// up before the input when there is one, the input, the upload filter
/// onto the device, the synthesized arguments, the output.
pub open spec fn command_spec(
    input: Seq<char>,
    output: Seq<char>,
    args: Seq<Seq<char>>,
    device: Option<Seq<char>>,
) -> Seq<Seq<char>> {
    let init: Seq<Seq<char>> = match device {
        Some(d) => seq!["-init_hw_device"@, "vaapi=hwdevice:"@ + d, "-filter_hw_device"@, "hwdevice"@],
        None => seq![],
    };
    let upload: Seq<Seq<char>> = match device {
        Some(_) => seq!["-vf"@, "hwupload,scale_vaapi=format=nv12"@],
        None => seq![],
    };
    global_flags() + init + seq!["-i"@, input] + upload + args + seq![output]
}

/// Whether one of `args` names a hardware encoder backend.
pub fn uses_hardware(args: &Vec<String>) -> (r: bool)
    ensures
        r == uses_hardware_spec(texts(args@)),
{
    let ghost ts = texts(args@);
    let mut i: usize = 0;
    while i < args.len()
        invariant
            i <= args@.len(),
            ts == texts(args@),
            forall|k: int| 0 <= k < i ==> !is_hardware_arg(#[trigger] ts[k]),
        decreases args.len() - i,
    {
        let a = args[i].as_str();
        if contains_text(a, "vaapi") || contains_text(a, "nvenc") || contains_text(a, "qsv") {
            assert(is_hardware_arg(ts[i as int]));
            return true;
        }
        i = i + 1;
    }
    false
}

/// The transcoder's arguments that list its compiled-in encoders.
pub fn encoder_listing_args() -> (r: Vec<String>)
    ensures
        texts(r@) == seq!["-hide_banner"@, "-encoders"@],
{
    let r: Vec<String> = vec![String::from_str("-hide_banner"), String::from_str("-encoders")];
    assert(texts(r@) =~= seq!["-hide_banner"@, "-encoders"@]);
    r
}

fn push_all(dst: &mut Vec<String>, src: Vec<String>)
    ensures
        final(dst)@ == old(dst)@ + src@,
{
    let mut src = src;
    dst.append(&mut src);
}

/// A conversion with its speed preset.
#[derive(Debug)]
pub struct Converter {
    pub conversion: Conversion,
    pub speed: ConversionSpeed,
}

impl Converter {
    pub fn new(from: ConverterFormat, to: ConverterFormat, speed: ConversionSpeed) -> (r: Self)
        ensures
            r.conversion.from == from,
            r.conversion.to == to,
            r.speed == speed,
    {
        Self { conversion: Conversion::new(from, to), speed }
    }

    /// The speed preset.
    pub fn speed(&self) -> (r: ConversionSpeed)
        ensures
            r == self.speed,
    {
        self.speed
    }

    /// The full command line for the job with id `id`, given the
    /// synthesized arguments. When they select a hardware encoder the
    /// render device is set up before the input and frames are uploaded to
    /// it; without a device that is an error. Software arguments never get
    /// these flags.
    pub fn command(&self, id: u128, args: Vec<String>, render_device: Option<String>) -> (r: Result<
        Vec<String>,
        ConvertError,
    >)
        ensures
            ({
                let input = input_path_spec(id, self.conversion.from.name());
                let output = output_path_spec(id, self.conversion.to.name());
                if !uses_hardware_spec(texts(args@)) {
                    r matches Ok(c) && texts(c@) == command_spec(input, output, texts(args@), None)
                } else {
                    match render_device {
                        Some(d) => r matches Ok(c) && texts(c@) == command_spec(input, output, texts(args@), Some(d@)),
                        None => r == Err::<Vec<String>, ConvertError>(ConvertError::NoRenderDevice),
                    }
                }
            }),
    {
        let hardware = uses_hardware(&args);
        let device = if hardware {
            match render_device {
                Some(d) => Some(d),
                None => return Err(ConvertError::NoRenderDevice),
            }
        } else {
            None
        };
        let ghost dv: Option<Seq<char>> = opt_text(device);
        let input = artifact_path("input/", id, self.conversion.from.to_str());
        let output = artifact_path("output/", id, self.conversion.to.to_str());
        let mut c: Vec<String> = Vec::new();
        c.push(String::from_str("-hide_banner"));
        c.push(String::from_str("-loglevel"));
        c.push(String::from_str("error"));
        c.push(String::from_str("-progress"));
        c.push(String::from_str("pipe:1"));
        let ghost c0 = texts(c@);
        if let Some(d) = &device {
            c.push(String::from_str("-init_hw_device"));
            c.push(join2("vaapi=hwdevice:", d.as_str()));
            c.push(String::from_str("-filter_hw_device"));
            c.push(String::from_str("hwdevice"));
        }
        let ghost c1 = texts(c@);
        c.push(String::from_str("-i"));
        c.push(input);
        let ghost c2 = texts(c@);
        if device.is_some() {
            c.push(String::from_str("-vf"));
            c.push(String::from_str("hwupload,scale_vaapi=format=nv12"));
        }
        let ghost c3 = texts(c@);
        push_all(&mut c, args);
        assert(texts(c@) =~= c3 + texts(args@));
        c.push(output);
        proof {
            let init: Seq<Seq<char>> = match dv {
                Some(d) => seq!["-init_hw_device"@, "vaapi=hwdevice:"@ + d, "-filter_hw_device"@, "hwdevice"@],
                None => seq![],
            };
            let upload: Seq<Seq<char>> = match dv {
                Some(_) => seq!["-vf"@, "hwupload,scale_vaapi=format=nv12"@],
                None => seq![],
            };
            assert(c0 =~= global_flags());
            assert(c1 =~= c0 + init);
            assert(c2 =~= c1 + seq!["-i"@, input_path_spec(id, self.conversion.from.name())]);
            assert(c3 =~= c2 + upload);
            assert(texts(c@) =~= command_spec(
                input_path_spec(id, self.conversion.from.name()),
                output_path_spec(id, self.conversion.to.name()),
                texts(args@),
                dv,
            ));
        }
        Ok(c)
    }
}

} // verus!
