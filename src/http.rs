use vstd::prelude::*;

use crate::format::ConverterFormat;
use crate::registry::is_format_name;
use crate::text::{join2, chars_of, is_whitespace, push_char, same_text, starts_with_text, string_of, white_space};

verus! {

/// The envelope of every HTTP answer.
#[derive(Debug)]
pub enum ApiResponse<T> {
    Success(T),
    Error(String),
}

pub uninterp spec fn alphanumeric(c: char) -> bool;

/// Relies on `char::is_alphanumeric`: whether `c` is alphabetic or numeric
/// in Unicode's sense, which ASCII letters and digits are.
#[verifier::external_body]
fn is_alphanumeric(c: char) -> (r: bool)
    ensures
        r == alphanumeric(c),
        ('a' <= c <= 'z') || ('A' <= c <= 'Z') || ('0' <= c <= '9') ==> r,
{
    c.is_alphanumeric()
}

pub uninterp spec fn numeric(c: char) -> bool;

/// Relies on `char::is_numeric`: whether `c` is numeric in Unicode's sense,
/// which the ASCII digits are.
#[verifier::external_body]
fn is_numeric(c: char) -> (r: bool)
    ensures
        r == numeric(c),
        '0' <= c <= '9' ==> r,
{
    c.is_numeric()
}

/// The alphanumeric characters after the last `.` of a file name (of the
/// whole name when it has no `.`).
pub open spec fn upload_ext(name: Seq<char>) -> Seq<char>
    decreases name.len(),
{
    if name.len() == 0 {
        seq![]
    } else if name.last() == '.' {
        seq![]
    } else if alphanumeric(name.last()) {
        upload_ext(name.drop_last()).push(name.last())
    } else {
        upload_ext(name.drop_last())
    }
}

/// Why an upload was refused.
#[derive(Clone, Debug, PartialEq, Eq)]
pub enum UploadError {
    /// The form held no `file` field.
    NoFile,
    /// The `file` field carries no file name.
    NoFilename,
    /// The file name has no extension.
    NoExtension,
    /// The extension is not a known format.
    InvalidExtension(String),
}

impl UploadError {
    pub open spec fn message_spec(&self) -> Seq<char> {
        match self {
            UploadError::NoFile => "no file uploaded"@,
            UploadError::NoFilename => "no filename provided"@,
            UploadError::NoExtension => "missing file extension"@,
            UploadError::InvalidExtension(e) => "invalid file extension: "@ + e@,
        }
    }

    /// The short message reported to the caller.
    pub fn message(&self) -> (r: String)
        ensures
            r@ == self.message_spec(),
    {
        match self {
            UploadError::NoFile => String::from_str("no file uploaded"),
            UploadError::NoFilename => String::from_str("no filename provided"),
            UploadError::NoExtension => String::from_str("missing file extension"),
            UploadError::InvalidExtension(e) => join2("invalid file extension: ", e.as_str()),
        }
    }

    /// The HTTP status that reports this error.
    pub fn status_code(&self) -> (r: u16)
        ensures
            r == 400,
    {
        400
    }
}

/// The format extension of an uploaded file's name: the alphanumeric
/// characters after its last `.`, which must name a known format.
pub fn upload_extension(filename: &str) -> (r: Result<String, UploadError>)
    ensures
        r matches Ok(e) ==> e@ == upload_ext(filename@) && is_format_name(e@),
        r is Err ==> !is_format_name(upload_ext(filename@)),
        r matches Err(e) ==> e matches UploadError::InvalidExtension(x) && x@ == upload_ext(filename@),
{
    let cs = chars_of(filename);
    let mut ext = String::new();
    let mut i: usize = 0;
    while i < cs.len()
        invariant
            i <= cs@.len(),
            cs@ == filename@,
            ext@ == upload_ext(cs@.take(i as int)),
        decreases cs.len() - i,
    {
        let c = cs[i];
        assert(cs@.take(i + 1).drop_last() == cs@.take(i as int));
        if c == '.' {
            ext = String::new();
        } else if is_alphanumeric(c) {
            push_char(&mut ext, c);
        }
        i = i + 1;
    }
    assert(cs@.take(i as int) == filename@);
    match ConverterFormat::from_str(ext.as_str()) {
        Some(_) => Ok(ext),
        None => Err(UploadError::InvalidExtension(ext)),
    }
}

pub uninterp spec fn query_value(query: Seq<char>, key: Seq<char>) -> Option<Seq<char>>;

/// Relies on `serde_qs::from_str` into a map of strings: the value that the
/// query string gives for `key`, `None` when the string does not decode or
/// lacks the key. The result depends on the two texts alone.
#[verifier::external_body]
fn query_param(query: &str, key: &str) -> (r: Option<String>)
    ensures
        r matches Some(v) ==> query_value(query@, key@) == Some(v@),
        r is None ==> query_value(query@, key@) is None,
{
    serde_qs::from_str::<std::collections::HashMap<String, String>>(query).ok().and_then(
        |m| m.get(key).cloned(),
    )
}

/// The token of an `Authorization` header of the form `Bearer <token>`.
pub open spec fn bearer_spec(header: Seq<char>) -> Option<Seq<char>> {
    if header.len() >= 7 && header.take(7) == "Bearer "@ {
        Some(header.skip(7))
    } else {
        None
    }
}

/// The token of an `Authorization` header of the form `Bearer <token>`.
pub fn bearer_token(header: &str) -> (r: Option<String>)
    ensures
        r matches Some(t) ==> bearer_spec(header@) == Some(t@),
        r is None ==> bearer_spec(header@) is None,
{
    proof {
        reveal_strlit("Bearer ");
    }
    if starts_with_text(header, "Bearer ") {
        let cs = chars_of(header);
        Some(string_of(&cs, 7, cs.len()))
    } else {
        None
    }
}

/// The decision on a request to a protected endpoint.
#[derive(Clone, Copy, Debug, PartialEq, Eq, Structural)]
pub enum AuthDecision {
    /// The request carries the configured token.
    Allow,
    /// The request carries no token or another one.
    Unauthorized,
    /// No token is configured: every request is refused.
    Misconfigured,
}

/// The token a request presents: from a `Bearer` authorization header, or
/// else from the `authToken` query parameter.
pub open spec fn presented_token(header: Option<Seq<char>>, query: Seq<char>) -> Option<Seq<char>> {
    let from_header = match header {
        Some(h) => bearer_spec(h),
        None => None,
    };
    match from_header {
        Some(t) => Some(t),
        None => query_value(query, "authToken"@),
    }
}

/// Access control for the protected endpoints.
pub struct Authentication;

impl Authentication {
    /// Decides on a request from the configured token, the request's
    /// `Authorization` header (when it is readable text) and its query
    /// string. Tokens must match exactly.
    pub fn decide(configured: Option<&str>, header: Option<&str>, query: &str) -> (r: AuthDecision)
        ensures
            r == (match configured {
                None => AuthDecision::Misconfigured,
                Some(c) => if presented_token(
                    match header {
                        Some(h) => Some(h@),
                        None => None,
                    },
                    query@,
                ) == Some(c@) {
                    AuthDecision::Allow
                } else {
                    AuthDecision::Unauthorized
                },
            }),
    {
        let expected = match configured {
            Some(c) => c,
            None => return AuthDecision::Misconfigured,
        };
        let from_header = match header {
            Some(h) => bearer_token(h),
            None => None,
        };
        let token = match from_header {
            Some(t) => Some(t),
            None => query_param(query, "authToken"),
        };
        match token {
            Some(t) => if same_text(t.as_str(), expected) {
                AuthDecision::Allow
            } else {
                AuthDecision::Unauthorized
            },
            None => AuthDecision::Unauthorized,
        }
    }
}

/// Whether every character of a port setting is numeric.
pub fn port_is_numeric(port: &str) -> (r: bool)
    ensures
        r == (forall|i: int| 0 <= i < port@.len() ==> numeric(#[trigger] port@[i])),
{
    let cs = chars_of(port);
    let mut i: usize = 0;
    while i < cs.len()
        invariant
            i <= cs@.len(),
            cs@ == port@,
            forall|k: int| 0 <= k < i ==> numeric(#[trigger] port@[k]),
        decreases cs.len() - i,
    {
        if !is_numeric(cs[i]) {
            return false;
        }
        i = i + 1;
    }
    true
}

/// The version the service reports: its build commit, or `latest` when the
/// build carries none (the tag then starts with `-`).
pub fn version_label(tag: &str) -> (r: String)
    ensures
        r@ == (if tag@.len() > 0 && tag@[0] == '-' {
            "latest"@
        } else {
            tag@
        }),
{
    proof {
        reveal_strlit("-");
        assert("-"@ =~= seq!['-']);
    }
    if starts_with_text(tag, "-") {
        assert("-"@.len() == 1);
        assert(tag@.take(1)[0] == tag@[0]);
        assert(tag@.take(1)[0] == "-"@[0]);
        String::from_str("latest")
    } else {
        proof {
            if tag@.len() > 0 {
                assert(tag@.take(1) =~= seq![tag@[0]]);
                assert(tag@[0] != '-');
            }
        }
        String::from_str(tag)
    }
}

/// The white-space separated words of `s`.
pub open spec fn words(s: Seq<char>) -> Seq<Seq<char>>
    decreases s.len(),
{
    if s.len() == 0 {
        seq![]
    } else {
        let w = words(s.drop_last());
        let c = s.last();
        if white_space(c) {
            w
        } else if s.len() >= 2 && !white_space(s[s.len() - 2]) {
            w.update(w.len() - 1, w.last().push(c))
        } else {
            w.push(seq![c])
        }
    }
}

/// The version in a tool's `-version` banner: its third word
/// (`ffmpeg version 7.1 ...` gives `7.1`).
pub fn version_from_banner(banner: &str) -> (r: Option<String>)
    ensures
        r matches Some(v) ==> words(banner@).len() > 2 && v@ == words(banner@)[2],
        r is None ==> words(banner@).len() <= 2,
{
    let cs = chars_of(banner);
    let mut ws: Vec<String> = Vec::new();
    let mut in_word = false;
    let mut i: usize = 0;
    while i < cs.len()
        invariant
            i <= cs@.len(),
            cs@ == banner@,
            ws@.len() == words(cs@.take(i as int)).len(),
            forall|k: int| 0 <= k < ws@.len() ==> #[trigger] ws@[k]@ == words(cs@.take(i as int))[k],
            in_word == (i > 0 && !white_space(cs@[i - 1])),
            in_word ==> ws@.len() > 0,
        decreases cs.len() - i,
    {
        let c = cs[i];
        let ghost pre = cs@.take(i as int);
        assert(cs@.take(i + 1).drop_last() == pre);
        assert(cs@.take(i + 1).last() == c);
        if i > 0 {
            assert(cs@.take(i + 1)[i - 1] == cs@[i - 1]);
        }
        if is_whitespace(c) {
            in_word = false;
        } else if in_word {
            let mut last = ws.pop().unwrap();
            push_char(&mut last, c);
            ws.push(last);
            in_word = true;
        } else {
            ws.push(String::new());
            let mut last = ws.pop().unwrap();
            push_char(&mut last, c);
            ws.push(last);
            in_word = true;
            assert(last@ == seq![c]);
        }
        i = i + 1;
    }
    assert(cs@.take(i as int) == banner@);
    if ws.len() > 2 {
        Some(ws[2].clone())
    } else {
        None
    }
}

} // verus!
