use arrow_odbc::odbc_api::buffers::Indicator;
use arrow_odbc::odbc_api::{IntoParameter, Utf16String};
use arrow_odbc_py::parameter::ArrowOdbcParameter;

fn wide_units(param: ArrowOdbcParameter) -> Option<Vec<u16>> {
    match param {
        ArrowOdbcParameter::Utf16(units) => units,
        ArrowOdbcParameter::Utf8(_) => panic!("expected wide characters"),
    }
}

fn narrow_text(param: ArrowOdbcParameter) -> Option<String> {
    match param {
        ArrowOdbcParameter::Utf8(text) => text,
        ArrowOdbcParameter::Utf16(_) => panic!("expected narrow characters"),
    }
}

#[test]
fn construct_utf16_parameter() {
    // Given a chinese greeting in utf-8
    let text = "您好";

    // When constructing a parameter with utf-16 encoding
    let use_utf16 = true;
    let param = ArrowOdbcParameter::from_opt_str(Some(text), use_utf16);

    // Then the parameter that the driver binds holds the encoded text
    let param = wide_units(param)
        .map(|units| Utf16String::from_vec(units).expect("Must be valid UTF-16"))
        .into_parameter();
    let indicator = param.indicator();
    assert_eq!(Indicator::Length(4), indicator); // Size of the encoded value in bytes
    let value = param.as_utf16().unwrap();
    assert_eq!(value.len(), 2);
    let value = value.to_string();
    assert_eq!(text, value);
}

#[test]
fn construct_utf8_parameter() {
    let param = ArrowOdbcParameter::from_opt_str(Some("您好"), false);
    assert_eq!(narrow_text(param), Some("您好".to_string()));
}

#[test]
fn null_parameters() {
    let wide = ArrowOdbcParameter::from_opt_str(None, true);
    let bound = wide_units(wide)
        .map(|units| Utf16String::from_vec(units).unwrap())
        .into_parameter();
    assert_eq!(bound.indicator(), Indicator::Null);
    let narrow = ArrowOdbcParameter::from_opt_str(None, false);
    assert_eq!(narrow_text(narrow), None);
}

#[test]
fn characters_beyond_the_basic_plane_take_two_units() {
    let param = ArrowOdbcParameter::utf16_text(Some("a😀"));
    assert_eq!(wide_units(param), Some(vec![0x0061, 0xD83D, 0xDE00]));
    let empty = ArrowOdbcParameter::utf16_text(Some(""));
    assert_eq!(wide_units(empty), Some(vec![]));
}

#[test]
fn narrow_text_is_kept_unchanged() {
    let param = ArrowOdbcParameter::utf8_text(Some("Hello, World!"));
    assert_eq!(narrow_text(param), Some("Hello, World!".to_string()));
}
