use vstd::prelude::*;

use crate::format::ConverterFormat;
use crate::text::{chars_of, digit_char, join2, parse_u64, string_of, texts, trim_text, trimmed, u64_of};

verus! {

/// A hexadecimal digit in lower case, for `d < 16`.
pub open spec fn hex_digit(d: nat) -> char {
    if d < 10 {
        digit_char(d)
    } else {
        ((d - 10) + 'a' as u32) as u32 as char
    }
}

/// Two lower-case hexadecimal digits per byte, high nibble first.
pub open spec fn hex_of(b: Seq<u8>) -> Seq<char> {
    Seq::new(
        2 * b.len(),
        |i: int|
            if i % 2 == 0 {
                hex_digit(b[i / 2] as nat / 16)
            } else {
                hex_digit(b[i / 2] as nat % 16)
            },
    )
}

/// The `k`-th of the 32 hexadecimal digits of `v`, most significant first.
pub open spec fn nibble(v: u128, k: int) -> nat {
    ((v >> ((4 * (31 - k)) as u128)) & 0xF) as nat
}

/// The position among the 32 digits of the character at `i` of the
/// hyphenated form.
pub open spec fn digit_index(i: int) -> int {
    i - (if i > 8 { 1int } else { 0 }) - (if i > 13 { 1int } else { 0 }) - (if i > 18 { 1int } else { 0 }) - (if i > 23 { 1int } else { 0 })
}

/// The hyphenated lower-case form of a 128-bit id: 8-4-4-4-12 hex digits.
pub open spec fn uuid_text(v: u128) -> Seq<char> {
    Seq::new(
        36,
        |i: int|
            if i == 8 || i == 13 || i == 18 || i == 23 {
                '-'
            } else {
                hex_digit(nibble(v, digit_index(i)))
            },
    )
}

/// Relies on `uuid::Uuid::new_v4`: a random version-4 id, as its 128-bit
/// big-endian value.
#[verifier::external_body]
fn new_job_id() -> (r: u128) {
    uuid::Uuid::new_v4().as_u128()
}

/// Relies on `uuid::Uuid::from_u128` and its `Display`, which writes the
/// hyphenated lower-case form.
#[verifier::external_body]
pub(crate) fn uuid_string(id: u128) -> (r: String)
    ensures
        r@ == uuid_text(id),
{
    uuid::Uuid::from_u128(id).to_string()
}

/// Relies on `rand::random` for 64 random bytes.
#[verifier::external_body]
fn random_bytes() -> (r: Vec<u8>)
    ensures
        r@.len() == 64,
{
    let b: [u8; 64] = rand::random();
    b.to_vec()
}

/// Relies on `hex::encode`: two lower-case hex digits per byte.
#[verifier::external_body]
fn hex_encode(b: &Vec<u8>) -> (r: String)
    ensures
        r@ == hex_of(b@),
{
    hex::encode(b)
}

/// A fresh capability token: 64 random bytes in lower-case hexadecimal.
pub fn new_auth_token() -> (r: String)
    ensures
        r@.len() == 128,
        exists|b: Seq<u8>| b.len() == 64 && r@ == hex_of(b),
{
    let b = random_bytes();
    hex_encode(&b)
}

/// Bitrate assumed when the probe's answer is not an integer.
pub const DEFAULT_BITRATE: u64 = 4_000_000;

/// The raw bitrate that a probe's output gives.
pub open spec fn probed_bitrate(out: Seq<char>) -> u64 {
    match u64_of(trimmed(out)) {
        Some(b) => b,
        None => DEFAULT_BITRATE,
    }
}

/// The bitrate used for encoding: two and a half times the source's,
/// rounded down and capped at the largest `u64`.
pub open spec fn effective_bitrate(raw: u64) -> u64 {
    if raw as nat * 5 / 2 > u64::MAX {
        u64::MAX
    } else {
        (raw as nat * 5 / 2) as u64
    }
}

/// What `u32::from_str` accepts.
pub open spec fn u32_of(s: Seq<char>) -> Option<u32> {
    match u64_of(s) {
        Some(v) => if v <= u32::MAX {
            Some(v as u32)
        } else {
            None
        },
        None => None,
    }
}

/// `n / d` rounded half away from zero and capped at the largest `u32`;
/// 0 when `d` is 0.
pub open spec fn ratio_fps(n: u64, d: u64) -> u32 {
    if d == 0 {
        0
    } else {
        let q = (2 * n + d) / (2 * d);
        if q > u32::MAX {
            u32::MAX
        } else {
            q as u32
        }
    }
}

/// Why a probe's answer was refused.
#[derive(Clone, Copy, Debug, PartialEq, Eq, Structural)]
pub enum ProbeError {
    /// The inspection tool reported failure.
    ToolFailed,
    /// The frame rate is neither an integer nor a ratio of two integers.
    BadFrameRate,
    /// The frame count is not an integer.
    BadFrameCount,
}

/// Whether `c` does not occur in `s`.
pub open spec fn lacks(s: Seq<char>, c: char) -> bool {
    forall|k: int| 0 <= k < s.len() ==> #[trigger] s[k] != c
}

/// The frame rate given by a probe's trimmed output: an integer, or a
/// `numerator/denominator` ratio of integers.
pub open spec fn fps_spec(s: Seq<char>) -> Result<u32, ProbeError> {
    if lacks(s, '/') {
        match u32_of(s) {
            Some(v) => Ok(v),
            None => Err(ProbeError::BadFrameRate),
        }
    } else {
        let i = choose|i: int| 0 <= i < s.len() && s[i] == '/' && lacks(s.take(i), '/');
        if lacks(s.skip(i + 1), '/') {
            match (u64_of(s.take(i)), u64_of(s.skip(i + 1))) {
                (Some(n), Some(d)) => Ok(ratio_fps(n, d)),
                _ => Err(ProbeError::BadFrameRate),
            }
        } else {
            Err(ProbeError::BadFrameRate)
        }
    }
}

/// The first position at or after `from` that holds `c`, or the length.
pub fn find_char(cs: &Vec<char>, c: char, from: usize) -> (r: usize)
    requires
        from <= cs@.len(),
    ensures
        from <= r <= cs@.len(),
        r < cs@.len() ==> cs@[r as int] == c,
        forall|k: int| from <= k < r ==> #[trigger] cs@[k] != c,
{
    let mut i: usize = from;
    while i < cs.len()
        invariant
            from <= i <= cs@.len(),
            forall|k: int| from <= k < i ==> #[trigger] cs@[k] != c,
        decreases cs.len() - i,
    {
        if cs[i] == c {
            return i;
        }
        i = i + 1;
    }
    i
}

/// The frame rate in a probe's trimmed output.
pub fn fps_from_text(s: &str) -> (r: Result<u32, ProbeError>)
    ensures
        r == fps_spec(s@),
{
    let cs = chars_of(s);
    let n = cs.len();
    let i = find_char(&cs, '/', 0);
    if i == n {
        assert(lacks(s@, '/'));
        return match parse_u64(s) {
            Some(v) => if v <= u32::MAX as u64 {
                Ok(v as u32)
            } else {
                Err(ProbeError::BadFrameRate)
            },
            None => Err(ProbeError::BadFrameRate),
        };
    }
    assert(!lacks(s@, '/'));
    let ghost sv = s@;
    assert(lacks(sv.take(i as int), '/'));
    assert forall|j: int| 0 <= j < sv.len() && sv[j] == '/' && lacks(sv.take(j), '/') implies j
        == i by {
        if j < i {
            assert(sv[j] != '/');
        } else if j > i {
            assert(sv.take(j)[i as int] == '/');
        }
    }
    let k = find_char(&cs, '/', i + 1);
    if k < n {
        assert(sv.skip(i + 1)[k - i - 1] == '/');
        return Err(ProbeError::BadFrameRate);
    }
    assert(lacks(sv.skip(i + 1), '/'));
    let num = string_of(&cs, 0, i);
    let den = string_of(&cs, i + 1, n);
    assert(num@ == sv.take(i as int));
    assert(den@ == sv.skip(i + 1));
    match (parse_u64(num.as_str()), parse_u64(den.as_str())) {
        (Some(a), Some(b)) => Ok(rounded_ratio(a, b)),
        _ => Err(ProbeError::BadFrameRate),
    }
}

/// `n / d` rounded half away from zero, capped; 0 when `d` is 0.
pub fn rounded_ratio(n: u64, d: u64) -> (r: u32)
    ensures
        r == ratio_fps(n, d),
{
    if d == 0 {
        return 0;
    }
    let q: u128 = (2 * (n as u128) + (d as u128)) / (2 * (d as u128));
    if q > u32::MAX as u128 {
        u32::MAX
    } else {
        q as u32
    }
}

/// The text of an optional string.
pub open spec fn opt_text(o: Option<String>) -> Option<Seq<char>> {
    match o {
        Some(s) => Some(s@),
        None => None,
    }
}

/// `input/<id>.<from>`: where an upload's bytes are kept.
pub open spec fn input_path_spec(id: u128, from: Seq<char>) -> Seq<char> {
    "input/"@ + uuid_text(id) + "."@ + from
}

/// `output/<id>.<to>`: where a conversion writes its result.
pub open spec fn output_path_spec(id: u128, to: Seq<char>) -> Seq<char> {
    "output/"@ + uuid_text(id) + "."@ + to
}

/// `<root>/<id>.<ext>`.
pub fn artifact_path(root: &str, id: u128, ext: &str) -> (r: String)
    ensures
        r@ == root@ + uuid_text(id) + "."@ + ext@,
{
    let a = join2(root, uuid_string(id).as_str());
    let b = join2(a.as_str(), ".");
    join2(b.as_str(), ext)
}

/// What the inspection tool is asked for.
#[derive(Clone, Copy, Debug, PartialEq, Eq, Structural)]
pub enum ProbeKind {
    Bitrate,
    FrameRate,
    FrameCount,
}

/// The inspection tool's arguments for `kind` on the file at `path`.
pub open spec fn probe_args_spec(kind: ProbeKind, path: Seq<char>) -> Seq<Seq<char>> {
    let head = seq!["-v"@, "error"@, "-select_streams"@, "v:0"@];
    match kind {
        ProbeKind::Bitrate => head + seq![
            "-show_entries"@,
            "stream=bit_rate"@,
            "-of"@,
            "default=nokey=1:noprint_wrappers=1"@,
            path,
        ],
        ProbeKind::FrameRate => head + seq![
            "-show_entries"@,
            "stream=r_frame_rate"@,
            "-of"@,
            "default=nokey=1:noprint_wrappers=1"@,
            path,
        ],
        ProbeKind::FrameCount => head + seq![
            "-count_frames"@,
            "-show_entries"@,
            "stream=nb_read_frames"@,
            "-of"@,
            "csv=p=0"@,
            path,
        ],
    }
}

/// A tracked unit of work: an upload, its optional conversion, and the
/// download of the result. The probe results are memoised.
#[derive(Clone, Debug)]
pub struct Job {
    pub id: u128,
    pub auth: String,
    pub from: String,
    pub to: Option<String>,
    pub completed: bool,
    pub total_frames: Option<u64>,
    pub bitrate: Option<u64>,
    pub fps: Option<u32>,
}

impl Job {
    pub open spec fn cached_total_frames(&self) -> Option<u64> {
        self.total_frames
    }

    pub open spec fn cached_bitrate(&self) -> Option<u64> {
        self.bitrate
    }

    pub open spec fn cached_fps(&self) -> Option<u32> {
        self.fps
    }

    /// Whether `other` is this record with only the memoised probe
    /// results possibly different.
    pub open spec fn same_identity(&self, other: &Job) -> bool {
        &&& other.id == self.id
        &&& other.auth@ == self.auth@
        &&& other.from@ == self.from@
        &&& opt_text(other.to) == opt_text(self.to)
        &&& other.completed == self.completed
    }

    /// A new job for an upload in format `from`, with a fresh random id.
    pub fn new(auth_token: String, from: String) -> (r: Job)
        ensures
            r.auth == auth_token,
            r.from == from,
            r.to is None,
            !r.completed,
            r.cached_total_frames() is None,
            r.cached_bitrate() is None,
            r.cached_fps() is None,
    {
        Job {
            id: new_job_id(),
            auth: auth_token,
            from,
            to: None,
            completed: false,
            total_frames: None,
            bitrate: None,
            fps: None,
        }
    }

    /// A copy of this record.
    pub fn snapshot(&self) -> (r: Job)
        ensures
            r == *self,
    {
        Job {
            id: self.id,
            auth: self.auth.clone(),
            from: self.from.clone(),
            to: match &self.to {
                Some(t) => Some(t.clone()),
                None => None,
            },
            completed: self.completed,
            total_frames: self.total_frames,
            bitrate: self.bitrate,
            fps: self.fps,
        }
    }

    /// Where the upload's bytes are kept.
    pub fn input_path(&self) -> (r: String)
        ensures
            r@ == input_path_spec(self.id, self.from@),
    {
        artifact_path("input/", self.id, self.from.as_str())
    }

    /// Where a conversion into `to` writes its result.
    pub fn output_path(&self, to: ConverterFormat) -> (r: String)
        ensures
            r@ == output_path_spec(self.id, to.name()),
    {
        artifact_path("output/", self.id, to.to_str())
    }

    /// The inspection tool's arguments for `kind` on this job's upload.
    pub fn probe_args(&self, kind: ProbeKind) -> (r: Vec<String>)
        ensures
            texts(r@) == probe_args_spec(kind, input_path_spec(self.id, self.from@)),
    {
        let mut r: Vec<String> = Vec::new();
        r.push(String::from_str("-v"));
        r.push(String::from_str("error"));
        r.push(String::from_str("-select_streams"));
        r.push(String::from_str("v:0"));
        match kind {
            ProbeKind::Bitrate => {
                r.push(String::from_str("-show_entries"));
                r.push(String::from_str("stream=bit_rate"));
                r.push(String::from_str("-of"));
                r.push(String::from_str("default=nokey=1:noprint_wrappers=1"));
            },
            ProbeKind::FrameRate => {
                r.push(String::from_str("-show_entries"));
                r.push(String::from_str("stream=r_frame_rate"));
                r.push(String::from_str("-of"));
                r.push(String::from_str("default=nokey=1:noprint_wrappers=1"));
            },
            ProbeKind::FrameCount => {
                r.push(String::from_str("-count_frames"));
                r.push(String::from_str("-show_entries"));
                r.push(String::from_str("stream=nb_read_frames"));
                r.push(String::from_str("-of"));
                r.push(String::from_str("csv=p=0"));
            },
        }
        r.push(self.input_path());
        assert(texts(r@) =~= probe_args_spec(kind, input_path_spec(self.id, self.from@)));
        r
    }

    /// The memoised bitrate for encoding, if the source was probed.
    pub fn bitrate(&self) -> (r: Option<u64>)
        ensures
            r == (match self.cached_bitrate() {
                Some(b) => Some(effective_bitrate(b)),
                None => None,
            }),
    {
        match self.bitrate {
            Some(b) => Some(scale_source_bitrate(b)),
            None => None,
        }
    }

    /// Records the source bitrate from the inspection tool's output, or
    /// the default when it is not an integer, and gives the bitrate for
    /// encoding.
    pub fn record_bitrate(&mut self, probe_output: &str) -> (r: u64)
        ensures
            final(self).cached_bitrate() == Some(probed_bitrate(probe_output@)),
            r == effective_bitrate(probed_bitrate(probe_output@)),
            final(self).same_identity(old(self)),
            final(self).cached_fps() == old(self).cached_fps(),
            final(self).cached_total_frames() == old(self).cached_total_frames(),
    {
        let t = trim_text(probe_output);
        let raw = match parse_u64(t.as_str()) {
            Some(b) => b,
            None => DEFAULT_BITRATE,
        };
        self.bitrate = Some(raw);
        scale_source_bitrate(raw)
    }

    /// The memoised frame rate, if the source was probed.
    pub fn fps(&self) -> (r: Option<u32>)
        ensures
            r == self.cached_fps(),
    {
        self.fps
    }

    /// Records the frame rate from the inspection tool's output.
    pub fn record_fps(&mut self, probe_output: &str) -> (r: Result<u32, ProbeError>)
        ensures
            r == fps_spec(trimmed(probe_output@)),
            final(self).cached_fps() == (match r {
                Ok(v) => Some(v),
                Err(_) => old(self).cached_fps(),
            }),
            final(self).same_identity(old(self)),
            final(self).cached_bitrate() == old(self).cached_bitrate(),
            final(self).cached_total_frames() == old(self).cached_total_frames(),
    {
        let t = trim_text(probe_output);
        let r = fps_from_text(t.as_str());
        if let Ok(v) = r {
            self.fps = Some(v);
        }
        r
    }

    /// The memoised frame count, if the source was probed.
    pub fn total_frames(&self) -> (r: Option<u64>)
        ensures
            r == self.cached_total_frames(),
    {
        self.total_frames
    }

    /// Records the frame count from the inspection tool's exit status and
    /// output. A failed run or an output that is not an integer is an error.
    pub fn record_total_frames(&mut self, succeeded: bool, probe_output: &str) -> (r: Result<u64, ProbeError>)
        ensures
            r == (if !succeeded {
                Err(ProbeError::ToolFailed)
            } else {
                match u64_of(trimmed(probe_output@)) {
                    Some(n) => Ok(n),
                    None => Err(ProbeError::BadFrameCount),
                }
            }),
            final(self).cached_total_frames() == (match r {
                Ok(v) => Some(v),
                Err(_) => old(self).cached_total_frames(),
            }),
            final(self).same_identity(old(self)),
            final(self).cached_bitrate() == old(self).cached_bitrate(),
            final(self).cached_fps() == old(self).cached_fps(),
    {
        if !succeeded {
            return Err(ProbeError::ToolFailed);
        }
        let t = trim_text(probe_output);
        match parse_u64(t.as_str()) {
            Some(n) => {
                self.total_frames = Some(n);
                Ok(n)
            },
            None => Err(ProbeError::BadFrameCount),
        }
    }
}

/// Two and a half times `raw`, rounded down and capped.
pub fn scale_source_bitrate(raw: u64) -> (r: u64)
    ensures
        r == effective_bitrate(raw),
{
    let x: u128 = (raw as u128) * 5 / 2;
    if x > u64::MAX as u128 {
        u64::MAX
    } else {
        x as u64
    }
}

} // verus!
