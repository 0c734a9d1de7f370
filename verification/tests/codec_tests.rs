use luaegui::codec::{decode, encode, HostValue, ScriptType};
use luaegui::error::ValueKind;
use luaegui::host::{Align, Align2, Color32, Galley, Margin, RichText, Sense, TextStyle, Vec2, WidgetText};
use luaegui::value::{ScriptValue, TableEntry};

fn entry(key: &str, val: ScriptValue) -> TableEntry {
    TableEntry { key: key.to_string(), val }
}

#[test]
fn color_packs_bytes_little_endian() {
    let c = Color32 { r: 1, g: 2, b: 3, a: 4 };
    let v = encode(HostValue::Color(c));
    match &v {
        ScriptValue::Int(i) => {
            assert_eq!(*i, 1 + 2 * 256 + 3 * 65536 + 4 * 16777216);
        }
        _ => panic!("color must encode as an integer"),
    }
    match decode(ScriptType::Color, &v).unwrap() {
        HostValue::Color(back) => assert_eq!(back, c),
        _ => panic!("decoded at Color must be a color"),
    }
}

#[test]
fn color_with_high_alpha_encodes_negative() {
    // alpha lands in the sign bit of the 32-bit packing
    let c = Color32 { r: 0, g: 0, b: 0, a: 255 };
    match encode(HostValue::Color(c)) {
        ScriptValue::Int(i) => assert_eq!(i, -16777216),
        _ => panic!("color must encode as an integer"),
    }
    match decode(ScriptType::Color, &ScriptValue::Int(-16777216)).unwrap() {
        HostValue::Color(back) => assert_eq!(back, c),
        _ => panic!("decoded at Color must be a color"),
    }
}

#[test]
fn color_decode_reads_the_low_bytes_of_any_integer() {
    // every integer decodes: the four low little-endian bytes count
    match decode(ScriptType::Color, &ScriptValue::Int(-1)).unwrap() {
        HostValue::Color(c) => {
            assert_eq!(c, Color32 { r: 255, g: 255, b: 255, a: 255 });
        }
        _ => panic!("decoded at Color must be a color"),
    }
    // higher bits are ignored
    match decode(ScriptType::Color, &ScriptValue::Int((1 << 40) + 258)).unwrap() {
        HostValue::Color(c) => {
            assert_eq!(c, Color32 { r: 2, g: 1, b: 0, a: 0 });
        }
        _ => panic!("decoded at Color must be a color"),
    }
    // only the kind can be wrong
    let e = decode(ScriptType::Color, &ScriptValue::Num(0)).unwrap_err();
    assert_eq!(e.from, ValueKind::Num);
    assert_eq!(e.to, ScriptType::Color);
}

#[test]
fn align2_codes_pack_two_bits_per_axis() {
    // right_center is 9: the first axis pushed two bits up, plus the second.
    let a = Align2 { x: Align::Max, y: Align::Center };
    match encode(HostValue::Align2(a)) {
        ScriptValue::Int(i) => assert_eq!(i, 9),
        _ => panic!("alignment must encode as an integer"),
    }
    match decode(ScriptType::Align2, &ScriptValue::Int(10)).unwrap() {
        HostValue::Align2(b) => {
            assert_eq!(b, Align2 { x: Align::Max, y: Align::Max });
        }
        _ => panic!("decoded at Align2 must be an anchor"),
    }
    // 3 is a gap in the code space: no second-axis code reaches it.
    assert!(decode(ScriptType::Align2, &ScriptValue::Int(3)).is_err());
    assert!(decode(ScriptType::Align2, &ScriptValue::Int(11)).is_err());
}

#[test]
fn sense_uses_low_three_bits() {
    let s = Sense { click: true, drag: true, focusable: true };
    match encode(HostValue::Sense(s)) {
        ScriptValue::Int(i) => assert_eq!(i, 7),
        _ => panic!("sense must encode as an integer"),
    }
    // decode reads only the low bits, as the engine-facing contract says
    match decode(ScriptType::Sense, &ScriptValue::Int(9)).unwrap() {
        HostValue::Sense(b) => {
            assert_eq!(b, Sense { click: true, drag: false, focusable: false });
        }
        _ => panic!("decoded at Sense must be a sense"),
    }
}

#[test]
fn margin_round_trips_through_a_table() {
    let m = Margin {
        left: 1.5f64.to_bits(),
        right: 2.5f64.to_bits(),
        top: 0.0f64.to_bits(),
        bottom: 4.0f64.to_bits(),
    };
    let v = encode(HostValue::Margin(m));
    match decode(ScriptType::Margin, &v).unwrap() {
        HostValue::Margin(back) => assert_eq!(back, m),
        _ => panic!("decoded at Margin must be a margin"),
    }
    // decoding takes the first entry under each key and ignores extras
    let scrambled = ScriptValue::Table(vec![
        entry("bottom", ScriptValue::Num(4.0f64.to_bits())),
        entry("extra", ScriptValue::Bool(true)),
        entry("left", ScriptValue::Num(1.5f64.to_bits())),
        entry("top", ScriptValue::Num(0.0f64.to_bits())),
        entry("right", ScriptValue::Num(2.5f64.to_bits())),
        entry("left", ScriptValue::Num(9.0f64.to_bits())),
    ]);
    match decode(ScriptType::Margin, &scrambled).unwrap() {
        HostValue::Margin(back) => assert_eq!(back, m),
        _ => panic!("decoded at Margin must be a margin"),
    }
    // a missing key is a typed error naming both sides
    let partial = ScriptValue::Table(vec![entry("left", ScriptValue::Num(0))]);
    let e = decode(ScriptType::Margin, &partial).unwrap_err();
    assert_eq!(e.from, ValueKind::Table);
    assert_eq!(e.to, ScriptType::Margin);
}

#[test]
fn widget_text_trial_order_prefers_plain() {
    // a raw string is a valid decode for several variants; plain wins
    let v = ScriptValue::Str("hi".to_string());
    match decode(ScriptType::WidgetText, &v).unwrap() {
        HostValue::WidgetText(WidgetText::Plain(s)) => assert_eq!(s, "hi"),
        _ => panic!("a raw string must decode as plain text first"),
    }
    // the same string decodes as rich text where rich text is asked for
    match decode(ScriptType::RichText, &v).unwrap() {
        HostValue::RichText(r) => assert_eq!(r.text, "hi"),
        _ => panic!("a raw string decodes as rich text at the RichText type"),
    }
    // a rich-text table decodes as the rich variant
    let rich = encode(HostValue::RichText(RichText { text: "styled".to_string() }));
    match decode(ScriptType::WidgetText, &rich).unwrap() {
        HostValue::WidgetText(WidgetText::Rich(r)) => assert_eq!(r.text, "styled"),
        _ => panic!("a text table without a shaped mark is rich text"),
    }
    // a pre-shaped table decodes as the shaped variant
    let shaped = encode(HostValue::Galley(Galley { text: "laid out".to_string() }));
    match decode(ScriptType::WidgetText, &shaped).unwrap() {
        HostValue::WidgetText(WidgetText::Shaped(g)) => assert_eq!(g.text, "laid out"),
        _ => panic!("a shaped table is pre-shaped text"),
    }
    // anything else is a typed error naming both sides
    let e = decode(ScriptType::WidgetText, &ScriptValue::Int(3)).unwrap_err();
    assert_eq!(e.from, ValueKind::Int);
    assert_eq!(e.to, ScriptType::WidgetText);
}

#[test]
fn text_style_closed_and_open_variants() {
    match decode(ScriptType::TextStyle, &ScriptValue::Int(4)).unwrap() {
        HostValue::TextStyle(TextStyle::Heading) => (),
        _ => panic!("4 names the heading style"),
    }
    assert!(decode(ScriptType::TextStyle, &ScriptValue::Int(5)).is_err());
    match decode(ScriptType::TextStyle, &ScriptValue::Str("fancy".to_string())).unwrap() {
        HostValue::TextStyle(TextStyle::Name(n)) => assert_eq!(n, "fancy"),
        _ => panic!("a string names an open style"),
    }
    match encode(HostValue::TextStyle(TextStyle::Monospace)) {
        ScriptValue::Int(i) => assert_eq!(i, 2),
        _ => panic!("a closed style encodes as its code"),
    }
}

#[test]
fn byte_requires_range() {
    match decode(ScriptType::Byte, &ScriptValue::Int(255)).unwrap() {
        HostValue::Byte(b) => assert_eq!(b, 255),
        _ => panic!("decoded at Byte must be a byte"),
    }
    let e = decode(ScriptType::Byte, &ScriptValue::Int(256)).unwrap_err();
    assert_eq!(e.from, ValueKind::Int);
    assert_eq!(e.to, ScriptType::Byte);
}

#[test]
fn vectors_cross_as_compact_values() {
    let v = encode(HostValue::Vec2(Vec2 { x: 3.0f64.to_bits(), y: 4.0f64.to_bits() }));
    match &v {
        ScriptValue::Vector2(x, y) => {
            assert_eq!(f64::from_bits(*x), 3.0);
            assert_eq!(f64::from_bits(*y), 4.0);
        }
        _ => panic!("a vector encodes as the compact vector value, not a table"),
    }
    match decode(ScriptType::Vec2, &v).unwrap() {
        HostValue::Vec2(b) => {
            assert_eq!(b, Vec2 { x: 3.0f64.to_bits(), y: 4.0f64.to_bits() });
        }
        _ => panic!("decoded at Vec2 must be a vector"),
    }
}

#[test]
fn nil_never_decodes_silently() {
    for t in [
        ScriptType::Bool,
        ScriptType::Int,
        ScriptType::Num,
        ScriptType::Str,
        ScriptType::Color,
        ScriptType::Margin,
        ScriptType::WidgetText,
    ] {
        let e = decode(t, &ScriptValue::Nil).unwrap_err();
        assert_eq!(e.from, ValueKind::Nil);
        assert_eq!(e.to, t);
    }
}
