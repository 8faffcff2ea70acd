//! The encoding in which text travels between the data source and this library.
use arrow_odbc::TextEncoding as DriverTextEncoding;
use vstd::prelude::*;

verus! {

/// Preferred encoding of text in payloads.
#[derive(Clone, Copy, Debug, PartialEq, Eq, Structural)]
pub enum TextEncoding {
    /// What the platform prefers: wide on Windows, narrow elsewhere.
    Auto,
    /// Narrow characters, taken to be UTF-8.
    Utf8,
    /// Wide characters, UTF-16.
    Utf16,
}

/// The encoding that a code of the boundary stands for, if it stands for one.
pub open spec fn encoding_of_code(code: u8) -> Option<TextEncoding> {
    if code == 0 {
        Some(TextEncoding::Auto)
    } else if code == 1 {
        Some(TextEncoding::Utf8)
    } else if code == 2 {
        Some(TextEncoding::Utf16)
    } else {
        None
    }
}

/// `arrow_odbc::TextEncoding::use_utf16` on `Auto`: whether this platform prefers wide
/// characters. The answer is fixed when the driver layer is compiled, and nothing is
/// claimed of it here.
#[verifier::external_body]
fn platform_prefers_utf16() -> (wide: bool) {
    DriverTextEncoding::Auto.use_utf16()
}

impl TextEncoding {
    /// The encoding for a code of the boundary; `None` for a code that stands for none.
    pub fn from_code(code: u8) -> (encoding: Option<TextEncoding>)
        ensures
            encoding == encoding_of_code(code),
    {
        if code == 0 {
            Some(TextEncoding::Auto)
        } else if code == 1 {
            Some(TextEncoding::Utf8)
        } else if code == 2 {
            Some(TextEncoding::Utf16)
        } else {
            None
        }
    }

    /// The code of the boundary for this encoding.
    pub fn code(self) -> (code: u8)
        ensures
            encoding_of_code(code) == Some(self),
    {
        match self {
            TextEncoding::Auto => 0,
            TextEncoding::Utf8 => 1,
            TextEncoding::Utf16 => 2,
        }
    }

    /// Whether text is sent in wide characters. `Utf16` always is, `Utf8` never; for `Auto`
    /// the platform decides.
    pub fn use_utf16(self) -> (wide: bool)
        ensures
            self == TextEncoding::Utf16 ==> wide,
            self == TextEncoding::Utf8 ==> !wide,
    {
        match self {
            TextEncoding::Auto => platform_prefers_utf16(),
            TextEncoding::Utf8 => false,
            TextEncoding::Utf16 => true,
        }
    }
}

/// The encoding for one of the codes 0, 1 and 2.
pub fn into_text_encoding(encoding: u8) -> (out: TextEncoding)
    requires
        encoding <= 2,
    ensures
        encoding_of_code(encoding) == Some(out),
{
    if encoding == 0 {
        TextEncoding::Auto
    } else if encoding == 1 {
        TextEncoding::Utf8
    } else {
        TextEncoding::Utf16
    }
}

} // verus!
