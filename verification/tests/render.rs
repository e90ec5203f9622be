use valkyrie_interpreter::literal::parse_digits;
use valkyrie_interpreter::render::{
    display_value, format_number, push_all, push_json_escape, quote_json, to_json, Displayed,
};
use valkyrie_interpreter::{JupyterTheme, ValkyrieItem, ValkyrieValue};

fn item(key: Option<&str>, value: ValkyrieValue) -> ValkyrieItem {
    ValkyrieItem { key: key.map(|k| k.to_string()), value }
}

#[test]
fn numbers_are_written_in_decimal() {
    assert_eq!(format_number(0), "0");
    assert_eq!(format_number(7), "7");
    assert_eq!(format_number(10), "10");
    assert_eq!(format_number(1203), "1203");
    assert_eq!(format_number(-1), "-1");
    assert_eq!(format_number(-450), "-450");
    assert_eq!(format_number(i128::MAX), "170141183460469231731687303715884105727");
    assert_eq!(format_number(i128::MIN), "-170141183460469231731687303715884105728");
}

#[test]
fn a_number_written_reads_back() {
    for n in [0i128, 1, 9, 10, 99, 100, 65535, 1 << 100, i128::MAX] {
        assert_eq!(parse_digits(&format_number(n), i128::MAX), Some(n));
    }
}

#[test]
fn characters_are_added_at_the_end() {
    let mut text = "ab".to_string();
    push_all(&mut text, &vec!['c', 'd']);
    assert_eq!(text, "abcd");
}

#[test]
fn json_strings_escape_what_they_must() {
    assert_eq!(quote_json(""), "\"\"");
    assert_eq!(quote_json("abc"), "\"abc\"");
    assert_eq!(quote_json("a\"b\\c"), "\"a\\\"b\\\\c\"");
    assert_eq!(quote_json("\n\r\t"), "\"\\n\\r\\t\"");
    assert_eq!(quote_json("\u{0}\u{1f}\u{7f}é"), "\"\\u0000\\u001f\u{7f}é\"");
    let mut text = String::new();
    push_json_escape(&mut text, '\u{b}');
    assert_eq!(text, "\\u000b");
}

#[test]
fn values_are_written_as_json() {
    assert_eq!(to_json(&ValkyrieValue::Nothing), "null");
    assert_eq!(to_json(&ValkyrieValue::Null), "null");
    assert_eq!(to_json(&ValkyrieValue::Unit), "null");
    assert_eq!(to_json(&ValkyrieValue::Boolean(true)), "true");
    assert_eq!(to_json(&ValkyrieValue::Boolean(false)), "false");
    assert_eq!(to_json(&ValkyrieValue::Number(-12)), "-12");
    assert_eq!(to_json(&ValkyrieValue::UTF8String("a\"".to_string())), "\"a\\\"\"");
    assert_eq!(to_json(&ValkyrieValue::Html("<b>".to_string())), "\"<b>\"");
    assert_eq!(to_json(&ValkyrieValue::Json("{\"a\":1}".to_string())), "{\"a\":1}");
    assert_eq!(to_json(&ValkyrieValue::List(vec![])), "[]");
    assert_eq!(to_json(&ValkyrieValue::List(vec![item(None, ValkyrieValue::Number(1))])), "[1]");
    let nested = ValkyrieValue::List(vec![
        item(None, ValkyrieValue::Number(1)),
        item(Some("k"), ValkyrieValue::Boolean(true)),
        item(None, ValkyrieValue::List(vec![item(Some("a b"), ValkyrieValue::Null), item(None, ValkyrieValue::Json("[2]".to_string()))])),
    ]);
    assert_eq!(to_json(&nested), "[1,{\"k\":true},[{\"a b\":null},[2]]]");
}

#[test]
fn each_kind_of_value_has_its_rendering() {
    assert!(display_value(&ValkyrieValue::Nothing).is_none());
    match display_value(&ValkyrieValue::Null) {
        Some(Displayed::Keywords(shown)) => {
            assert_eq!(shown.as_json(JupyterTheme::Light), "<span style=\"color: #A626A4\">null</span>")
        }
        other => panic!("{:?}", other),
    }
    match display_value(&ValkyrieValue::Unit) {
        Some(Displayed::Keywords(shown)) => {
            assert_eq!(shown.as_json(JupyterTheme::Dark), "<span style=\"color: #A626A4\">( )</span>")
        }
        other => panic!("{:?}", other),
    }
    match display_value(&ValkyrieValue::Boolean(false)) {
        Some(Displayed::Keywords(shown)) => {
            assert_eq!(shown.as_json(JupyterTheme::Light), "<span style=\"color: #A626A4\">false</span>")
        }
        other => panic!("{:?}", other),
    }
    match display_value(&ValkyrieValue::Boolean(true)) {
        Some(Displayed::Keywords(shown)) => {
            assert_eq!(shown.as_json(JupyterTheme::Light), "<span style=\"color: #A626A4\">true</span>")
        }
        other => panic!("{:?}", other),
    }
    match display_value(&ValkyrieValue::Number(42)) {
        Some(Displayed::Number(shown)) => {
            assert_eq!(shown.as_json(JupyterTheme::Light), "<span style=\"color: #986801\">42</span>")
        }
        other => panic!("{:?}", other),
    }
    match display_value(&ValkyrieValue::UTF8String("hi".to_string())) {
        Some(Displayed::Text(shown)) => assert_eq!(shown.as_json(JupyterTheme::Light), "hi"),
        other => panic!("{:?}", other),
    }
    match display_value(&ValkyrieValue::Html("<i>x</i>".to_string())) {
        Some(Displayed::Html(markup)) => assert_eq!(markup, "<i>x</i>"),
        other => panic!("{:?}", other),
    }
    match display_value(&ValkyrieValue::Json("[1]".to_string())) {
        Some(Displayed::Json(document)) => assert_eq!(document, "[1]"),
        other => panic!("{:?}", other),
    }
    match display_value(&ValkyrieValue::List(vec![item(Some("k"), ValkyrieValue::Number(1))])) {
        Some(Displayed::Json(document)) => assert_eq!(document, "[{\"k\":1}]"),
        other => panic!("{:?}", other),
    }
}
