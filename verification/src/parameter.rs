//! Text parameters that are bound to the placeholders of a statement.
use vstd::prelude::*;
use vstd::string::*;
use widestring::U16String;

verus! {

/// The UTF-16 code units of one character: the character itself inside the basic plane, a
/// pair of surrogates beyond it.
pub open spec fn utf16_of_char(c: char) -> Seq<u16> {
    let scalar = c as u32;
    if scalar < 0x10000 {
        seq![scalar as u16]
    } else {
        seq![
            (0xD800 + (scalar - 0x10000) / 0x400) as u16,
            (0xDC00 + (scalar - 0x10000) % 0x400) as u16,
        ]
    }
}

/// The UTF-16 code units of a text.
pub open spec fn utf16_of(text: Seq<char>) -> Seq<u16>
    decreases text.len(),
{
    if text.len() == 0 {
        Seq::empty()
    } else {
        utf16_of(text.drop_last()) + utf16_of_char(text.last())
    }
}

/// `widestring::U16String::from_str`, as a vector: the UTF-16 encoding of the text.
#[verifier::external_body]
fn encode_utf16(text: &str) -> (units: Vec<u16>)
    ensures
        units@ == utf16_of(text@),
{
    U16String::from_str(text).into_vec()
}

/// A parameter for a placeholder (`?`) of a statement: a text or NULL, in the encoding in
/// which it is sent.
pub enum ArrowOdbcParameter {
    /// Sent as narrow characters.
    Utf8(Option<String>),
    /// Sent as wide characters.
    Utf16(Option<Vec<u16>>),
}

/// A parameter as plain values.
pub enum ParameterView {
    Utf8(Option<Seq<char>>),
    Utf16(Option<Seq<u16>>),
}

impl View for ArrowOdbcParameter {
    type V = ParameterView;

    open spec fn view(&self) -> ParameterView {
        match self {
            ArrowOdbcParameter::Utf8(Some(text)) => ParameterView::Utf8(Some(text@)),
            ArrowOdbcParameter::Utf8(None) => ParameterView::Utf8(None),
            ArrowOdbcParameter::Utf16(Some(units)) => ParameterView::Utf16(Some(units@)),
            ArrowOdbcParameter::Utf16(None) => ParameterView::Utf16(None),
        }
    }
}

/// The parameter for a text, or for NULL, as plain values.
pub open spec fn parameter_of(value: Option<Seq<char>>, use_utf16: bool) -> ParameterView {
    match value {
        Some(text) => if use_utf16 {
            ParameterView::Utf16(Some(utf16_of(text)))
        } else {
            ParameterView::Utf8(Some(text))
        },
        None => if use_utf16 {
            ParameterView::Utf16(None)
        } else {
            ParameterView::Utf8(None)
        },
    }
}

/// The view of an optional text.
pub open spec fn text_of(value: Option<&str>) -> Option<Seq<char>> {
    match value {
        Some(text) => Some(text@),
        None => None,
    }
}

impl ArrowOdbcParameter {
    /// The parameter for a text, or for NULL where there is none, in wide characters if
    /// asked for and in narrow ones otherwise.
    pub fn from_opt_str(value: Option<&str>, use_utf16: bool) -> (out: Self)
        ensures
            out@ == parameter_of(text_of(value), use_utf16),
    {
        if use_utf16 {
            Self::utf16_text(value)
        } else {
            Self::utf8_text(value)
        }
    }

    /// The parameter in wide characters.
    pub fn utf16_text(value: Option<&str>) -> (out: Self)
        ensures
            out@ == parameter_of(text_of(value), true),
    {
        match value {
            Some(text) => ArrowOdbcParameter::Utf16(Some(encode_utf16(text))),
            None => ArrowOdbcParameter::Utf16(None),
        }
    }

    /// The parameter in narrow characters.
    pub fn utf8_text(value: Option<&str>) -> (out: Self)
        ensures
            out@ == parameter_of(text_of(value), false),
    {
        match value {
            Some(text) => ArrowOdbcParameter::Utf8(Some(String::from_str(text))),
            None => ArrowOdbcParameter::Utf8(None),
        }
    }
}

} // verus!
