use appjs_bridge::color::ColorValue;
use appjs_bridge::kind::WidgetKind;
use appjs_bridge::num::{parse_decimal, Num};
use appjs_bridge::style::{
    apply_style_property, extract_json_value, parse_json_bool, parse_json_kv, parse_style_json,
    split_json_pairs, unquote, BoxStyle, CrossAlign, FlexDirection, FontStyleValue, MainAlign,
    PaddingValue, TextAlignValue,
};

use appjs_bridge::kind::parse_widget_kind;

#[test]
fn parse_widget_kind_table() {
    assert_eq!(parse_widget_kind("Label"), WidgetKind::Label);
    assert_eq!(parse_widget_kind("label"), WidgetKind::Label);
    assert_eq!(parse_widget_kind("iconButton"), WidgetKind::Button);
    assert_eq!(parse_widget_kind("svg_icon"), WidgetKind::Svg);
    assert_eq!(parse_widget_kind("text_input"), WidgetKind::TextInput);
    assert_eq!(parse_widget_kind("box"), WidgetKind::SizedBox);
    assert_eq!(parse_widget_kind("progress"), WidgetKind::ProgressBar);
    assert_eq!(parse_widget_kind("loading"), WidgetKind::Spinner);
    assert_eq!(parse_widget_kind("range"), WidgetKind::Slider);
    assert_eq!(parse_widget_kind("img"), WidgetKind::Image);
    assert_eq!(parse_widget_kind("stack"), WidgetKind::ZStack);
    assert_eq!(parse_widget_kind("scroll"), WidgetKind::Portal);
    assert_eq!(parse_widget_kind("hoverable"), WidgetKind::Hoverable);
    assert_eq!(parse_widget_kind("somethingElse"), WidgetKind::Custom);
}

#[test]
fn decimal_parsing_exact() {
    assert_eq!(parse_decimal("0"), Some(Num { neg: false, mant: 0, scale: 0 }));
    assert_eq!(parse_decimal("42"), Some(Num { neg: false, mant: 42, scale: 0 }));
    assert_eq!(parse_decimal("-3.25"), Some(Num { neg: true, mant: 325, scale: 2 }));
    assert_eq!(parse_decimal("+7.5"), Some(Num { neg: false, mant: 75, scale: 1 }));
    assert_eq!(parse_decimal(".5"), Some(Num { neg: false, mant: 5, scale: 1 }));
    assert_eq!(parse_decimal("1."), Some(Num { neg: false, mant: 1, scale: 0 }));
    assert_eq!(parse_decimal(""), None);
    assert_eq!(parse_decimal("."), None);
    assert_eq!(parse_decimal("12x"), None);
    assert_eq!(parse_decimal("1.2.3"), None);
}

#[test]
fn decimal_parsing_exponent_forms() {
    assert_eq!(parse_decimal("1e3"), Some(Num { neg: false, mant: 1000, scale: 0 }));
    assert_eq!(parse_decimal("2.5e2"), Some(Num { neg: false, mant: 250, scale: 0 }));
    assert_eq!(parse_decimal("1.5e-2"), Some(Num { neg: false, mant: 15, scale: 3 }));
    assert_eq!(parse_decimal("2e+1"), Some(Num { neg: false, mant: 20, scale: 0 }));
    assert_eq!(parse_decimal("-4E2"), Some(Num { neg: true, mant: 400, scale: 0 }));
    assert_eq!(parse_decimal("1e"), None);
    assert_eq!(parse_decimal("1e+"), None);
    assert_eq!(parse_decimal("1e-20"), None, "a scale beyond the bound is rejected");
    assert_eq!(parse_decimal("1e19"), None, "a mantissa beyond the bound is rejected");
    assert_eq!(parse_decimal("e3"), None, "an exponent needs digits before it");
}

#[test]
fn color_parsing_exact() {
    assert_eq!(
        ColorValue::parse("#A0B0C0"),
        Some(ColorValue::Rgba { r: 0xA0, g: 0xB0, b: 0xC0, a: 255 })
    );
    assert_eq!(
        ColorValue::parse("#01020304"),
        Some(ColorValue::Rgba { r: 1, g: 2, b: 3, a: 4 })
    );
    assert_eq!(ColorValue::parse("#123"), None);
    assert_eq!(ColorValue::parse("#GGGGGG"), None);
    assert_eq!(
        ColorValue::parse("rgb(10, 20, 30)"),
        Some(ColorValue::Rgba { r: 10, g: 20, b: 30, a: 255 })
    );
    assert_eq!(
        ColorValue::parse("rgba(10, 20, 30, 0.5)"),
        Some(ColorValue::Rgba { r: 10, g: 20, b: 30, a: 127 })
    );
    assert_eq!(ColorValue::parse("rgb(300, 0, 0)"), None);
    assert_eq!(
        ColorValue::parse("  White "),
        Some(ColorValue::Rgba { r: 255, g: 255, b: 255, a: 255 })
    );
    assert_eq!(
        ColorValue::parse("transparent"),
        Some(ColorValue::Rgba { r: 0, g: 0, b: 0, a: 0 })
    );
    assert_eq!(
        ColorValue::parse("Papayawhip"),
        Some(ColorValue::Named("papayawhip".to_string()))
    );
}

#[test]
fn json_scanner_pieces() {
    let pairs = split_json_pairs("\"a\": 1, \"b\": {\"x\": 2, \"y\": 3}, \"c\": \"v,w\"");
    assert_eq!(pairs.len(), 3);
    assert_eq!(pairs[0], "\"a\": 1");
    assert_eq!(pairs[1], " \"b\": {\"x\": 2, \"y\": 3}");
    assert_eq!(pairs[2], " \"c\": \"v,w\"");

    let kv = parse_json_kv(" \"key\" : \"value\" ").unwrap();
    assert_eq!(kv.0, "key");
    assert_eq!(kv.1, "\"value\"");
    assert!(parse_json_kv("no colon here").is_none());

    assert_eq!(unquote("\"hi\""), "hi");
    assert_eq!(unquote("  \"a \\\"b\\\" \\\\ c\"  "), "a \"b\" \\ c");
    assert_eq!(unquote("plain"), "plain");

    assert_eq!(parse_json_bool("true"), Some(true));
    assert_eq!(parse_json_bool(" \"false\" "), Some(false));
    assert_eq!(parse_json_bool("1"), None);

    let json = "{\"placeholder\": \"Type here\", \"checked\": true}";
    assert_eq!(extract_json_value(json, "checked").as_deref(), Some("true"));
    assert_eq!(
        extract_json_value(json, "placeholder").as_deref(),
        Some("\"Type here\"")
    );
    assert!(extract_json_value(json, "missing").is_none());
}

#[test]
fn style_properties_apply_in_place() {
    let mut st = BoxStyle::default();
    assert!(apply_style_property(&mut st, "fontSize", "30"));
    assert_eq!(st.font_size, Some(Num { neg: false, mant: 30, scale: 0 }));

    assert!(apply_style_property(&mut st, "fontWeight", "\"bold\""));
    assert_eq!(st.font_weight, Some(Num { neg: false, mant: 700, scale: 0 }));

    assert!(apply_style_property(&mut st, "fontStyle", "\"Italic\""));
    assert_eq!(st.font_style, Some(FontStyleValue::Italic));

    assert!(apply_style_property(&mut st, "textAlign", "\"right\""));
    assert_eq!(st.text_align, Some(TextAlignValue::End));

    assert!(apply_style_property(&mut st, "color", "\"#FF0000\""));
    assert_eq!(st.color, Some(ColorValue::Rgba { r: 255, g: 0, b: 0, a: 255 }));

    assert!(apply_style_property(&mut st, "direction", "\"horizontal\""));
    assert_eq!(st.direction, Some(FlexDirection::Row));

    assert!(apply_style_property(&mut st, "alignItems", "\"stretch\""));
    assert_eq!(st.cross_axis_alignment, Some(CrossAlign::Fill));

    assert!(apply_style_property(&mut st, "justifyContent", "\"space-between\""));
    assert_eq!(st.main_axis_alignment, Some(MainAlign::SpaceBetween));

    assert!(apply_style_property(&mut st, "underline", "true"));
    assert_eq!(st.underline, Some(true));

    assert!(apply_style_property(&mut st, "padding", "4"));
    assert_eq!(st.padding, Some(PaddingValue::Uniform(Num { neg: false, mant: 4, scale: 0 })));

    assert!(apply_style_property(&mut st, "padding", "\"1, 2\""));
    assert_eq!(
        st.padding,
        Some(PaddingValue::Sides {
            top: Num { neg: false, mant: 1, scale: 0 },
            right: Num { neg: false, mant: 2, scale: 0 },
            bottom: Num { neg: false, mant: 1, scale: 0 },
            left: Num { neg: false, mant: 2, scale: 0 },
        })
    );

    // unrecognized keys change nothing and say so
    let before = st.clone();
    assert!(!apply_style_property(&mut st, "someUnknownKey", "5"));
    assert_eq!(format!("{:?}", st), format!("{:?}", before));
}

#[test]
fn style_object_parses_as_a_whole() {
    let st = parse_style_json(
        "{\"fontSize\": 18, \"background\": \"black\", \"gap\": 2.5, \"mustFillMainAxis\": true}",
    )
    .unwrap();
    assert_eq!(st.font_size, Some(Num { neg: false, mant: 18, scale: 0 }));
    assert_eq!(st.background, Some(ColorValue::Rgba { r: 0, g: 0, b: 0, a: 255 }));
    assert_eq!(st.gap, Some(Num { neg: false, mant: 25, scale: 1 }));
    assert_eq!(st.must_fill_main_axis, Some(true));

    assert!(parse_style_json("").is_none());
    assert!(parse_style_json("{}").is_none());
    assert!(parse_style_json("null").is_none());
    assert!(parse_style_json("{\"unknownOnly\": 1}").is_none());
}
