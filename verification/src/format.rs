//! Format dispatcher: the closed table from requested output kinds to the
//! engine's format-selection token and the result's content-type identity,
//! plus the wrapper that tags rendered bytes with their kind.

use vstd::prelude::*;
use vstd::string::StrSliceExecFns;

verus! {

/// The closed set of output kinds the gateway can ask the engine for.
#[derive(Clone, Copy, Debug, PartialEq, Eq, Structural)]
pub enum Format {
    Gif,
    Jpg,
    Pdf,
    Png,
    Postscript,
    Svg,
}

/// Content-type negotiation table, as a function of the header's characters.
pub open spec fn spec_from_content_type(s: Seq<char>) -> Option<Format> {
    if s == "image/gif"@ {
        Some(Format::Gif)
    } else if s == "image/jpeg"@ {
        Some(Format::Jpg)
    } else if s == "application/pdf"@ {
        Some(Format::Pdf)
    } else if s == "image/png"@ {
        Some(Format::Png)
    } else if s == "application/postscript"@ {
        Some(Format::Postscript)
    } else if s == "image/svg+xml"@ {
        Some(Format::Svg)
    } else {
        None
    }
}

/// The engine's format-selection token for each kind.
pub open spec fn spec_token(f: Format) -> Seq<char> {
    match f {
        Format::Gif => "gif"@,
        Format::Jpg => "jpg"@,
        Format::Pdf => "pdf"@,
        Format::Png => "png"@,
        Format::Postscript => "ps"@,
        Format::Svg => "svg"@,
    }
}

/// The content-type identity of each kind's rendered output.
pub open spec fn spec_content_type(f: Format) -> Seq<char> {
    match f {
        Format::Gif => "image/gif"@,
        Format::Jpg => "image/jpeg"@,
        Format::Pdf => "application/pdf"@,
        Format::Png => "image/png"@,
        Format::Postscript => "application/postscript"@,
        Format::Svg => "image/svg+xml"@,
    }
}

/// Character-for-character string comparison, verified against the views.
fn str_eq(a: &str, b: &str) -> (r: bool)
    ensures
        r == (a@ == b@),
{
    let alen = a.unicode_len();
    let blen = b.unicode_len();
    if alen != blen {
        proof {
            if a@ == b@ {
                assert(a@.len() == b@.len());
            }
        }
        return false;
    }
    let mut i: usize = 0;
    while i < alen
        invariant
            alen == a@.len(),
            blen == b@.len(),
            alen == blen,
            i <= alen,
            forall|j: int| 0 <= j < i ==> a@[j] == b@[j],
        decreases alen - i,
    {
        if a.get_char(i) != b.get_char(i) {
            return false;
        }
        i = i + 1;
    }
    proof {
        assert(a@ =~= b@);
    }
    true
}

impl Format {
    /// Selects the output kind a content-type string asks for, if any.
    pub fn from_content_type(s: &str) -> (r: Option<Format>)
        ensures
            r == spec_from_content_type(s@),
    {
        if str_eq(s, "image/gif") {
            Some(Format::Gif)
        } else if str_eq(s, "image/jpeg") {
            Some(Format::Jpg)
        } else if str_eq(s, "application/pdf") {
            Some(Format::Pdf)
        } else if str_eq(s, "image/png") {
            Some(Format::Png)
        } else if str_eq(s, "application/postscript") {
            Some(Format::Postscript)
        } else if str_eq(s, "image/svg+xml") {
            Some(Format::Svg)
        } else {
            None
        }
    }

    /// The token handed to the engine to select this kind.
    pub fn token(&self) -> (r: &'static str)
        ensures
            r@ == spec_token(*self),
    {
        match self {
            Format::Gif => "gif",
            Format::Jpg => "jpg",
            Format::Pdf => "pdf",
            Format::Png => "png",
            Format::Postscript => "ps",
            Format::Svg => "svg",
        }
    }

    /// The content-type identity of output rendered in this kind.
    pub fn content_type(&self) -> (r: &'static str)
        ensures
            r@ == spec_content_type(*self),
    {
        match self {
            Format::Gif => "image/gif",
            Format::Jpg => "image/jpeg",
            Format::Pdf => "application/pdf",
            Format::Png => "image/png",
            Format::Postscript => "application/postscript",
            Format::Svg => "image/svg+xml",
        }
    }
}

/// Picks the output kind an optional `Accept`-like header asks for, falling
/// back to the given default when the header is absent or names no supported
/// kind.
pub fn accept_format_or(default: Format, accept: Option<&str>) -> (r: Format)
    ensures
        r == (match accept {
            Some(s) => match spec_from_content_type(s@) {
                Some(f) => f,
                None => default,
            },
            None => default,
        }),
{
    match accept {
        Some(s) => match Format::from_content_type(s) {
            Some(f) => f,
            None => default,
        },
        None => default,
    }
}

/// Rendered bytes tagged with the output kind they were produced in.
pub enum OutputFormat {
    Gif(Vec<u8>),
    Jpg(Vec<u8>),
    Pdf(Vec<u8>),
    Png(Vec<u8>),
    Postscript(Vec<u8>),
    Svg(Vec<u8>),
}

impl OutputFormat {
    /// The kind this output was rendered in.
    pub open spec fn spec_kind(&self) -> Format {
        match self {
            OutputFormat::Gif(_) => Format::Gif,
            OutputFormat::Jpg(_) => Format::Jpg,
            OutputFormat::Pdf(_) => Format::Pdf,
            OutputFormat::Png(_) => Format::Png,
            OutputFormat::Postscript(_) => Format::Postscript,
            OutputFormat::Svg(_) => Format::Svg,
        }
    }

    /// The rendered bytes.
    pub open spec fn spec_bytes(&self) -> Seq<u8> {
        match self {
            OutputFormat::Gif(b) => b@,
            OutputFormat::Jpg(b) => b@,
            OutputFormat::Pdf(b) => b@,
            OutputFormat::Png(b) => b@,
            OutputFormat::Postscript(b) => b@,
            OutputFormat::Svg(b) => b@,
        }
    }

    /// Tags rendered bytes with the kind that was requested, so the result's
    /// content-type identity always matches the request.
    pub fn new(format: Format, bytes: Vec<u8>) -> (r: OutputFormat)
        ensures
            r.spec_kind() == format,
            r.spec_bytes() == bytes@,
    {
        match format {
            Format::Gif => OutputFormat::Gif(bytes),
            Format::Jpg => OutputFormat::Jpg(bytes),
            Format::Pdf => OutputFormat::Pdf(bytes),
            Format::Png => OutputFormat::Png(bytes),
            Format::Postscript => OutputFormat::Postscript(bytes),
            Format::Svg => OutputFormat::Svg(bytes),
        }
    }

    /// The kind this output was rendered in.
    pub fn kind(&self) -> (r: Format)
        ensures
            r == self.spec_kind(),
    {
        match self {
            OutputFormat::Gif(_) => Format::Gif,
            OutputFormat::Jpg(_) => Format::Jpg,
            OutputFormat::Pdf(_) => Format::Pdf,
            OutputFormat::Png(_) => Format::Png,
            OutputFormat::Postscript(_) => Format::Postscript,
            OutputFormat::Svg(_) => Format::Svg,
        }
    }

    /// The content-type identity of this output: always that of its kind.
    pub fn content_type(&self) -> (r: &'static str)
        ensures
            r@ == spec_content_type(self.spec_kind()),
    {
        self.kind().content_type()
    }

    /// Gives the rendered bytes up.
    pub fn into_bytes(self) -> (r: Vec<u8>)
        ensures
            r@ == self.spec_bytes(),
    {
        match self {
            OutputFormat::Gif(b) => b,
            OutputFormat::Jpg(b) => b,
            OutputFormat::Pdf(b) => b,
            OutputFormat::Png(b) => b,
            OutputFormat::Postscript(b) => b,
            OutputFormat::Svg(b) => b,
        }
    }
}

} // verus!
