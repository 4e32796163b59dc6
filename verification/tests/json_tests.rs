use request_lifecycle::color::Rgb;
use request_lifecycle::json::{decode_user_text, encode_user_text};

#[test]
fn decode_plain_user_document() {
    let body = "{\"name\":\"Ann\",\"color\":{\"r\":10,\"g\":20,\"b\":30}}";
    let (name, color) = decode_user_text(body).unwrap();
    assert_eq!(name, "Ann");
    assert_eq!(color, Rgb { r: 10, g: 20, b: 30 });
}

#[test]
fn decode_tolerates_whitespace() {
    let body = " { \"name\" : \"Ann\" ,\n \"color\" : { \"r\" : 10 , \"g\" : 20 , \"b\" : 30 } } ";
    let (name, color) = decode_user_text(body).unwrap();
    assert_eq!(name, "Ann");
    assert_eq!(color, Rgb { r: 10, g: 20, b: 30 });
}

#[test]
fn decode_tolerates_field_order() {
    let body = "{\"color\":{\"b\":3,\"r\":1,\"g\":2},\"name\":\"Bo\"}";
    let (name, color) = decode_user_text(body).unwrap();
    assert_eq!(name, "Bo");
    assert_eq!(color, Rgb { r: 1, g: 2, b: 3 });
}

#[test]
fn decode_empty_name() {
    let body = "{\"name\":\"\",\"color\":{\"r\":0,\"g\":0,\"b\":0}}";
    let (name, color) = decode_user_text(body).unwrap();
    assert_eq!(name, "");
    assert_eq!(color, Rgb { r: 0, g: 0, b: 0 });
}

#[test]
fn decode_rejects_missing_color_member() {
    let body = "{\"name\":\"Ann\",\"color\":{\"r\":10,\"g\":20}}";
    assert!(decode_user_text(body).is_none());
}

#[test]
fn decode_rejects_repeated_channel() {
    let body = "{\"name\":\"Ann\",\"color\":{\"r\":10,\"r\":20,\"b\":30}}";
    assert!(decode_user_text(body).is_none());
}

#[test]
fn decode_rejects_unknown_key() {
    let body = "{\"name\":\"Ann\",\"shade\":{\"r\":10,\"g\":20,\"b\":30}}";
    assert!(decode_user_text(body).is_none());
}

#[test]
fn decode_rejects_channel_above_byte_range() {
    let body = "{\"name\":\"Ann\",\"color\":{\"r\":256,\"g\":20,\"b\":30}}";
    assert!(decode_user_text(body).is_none());
}

#[test]
fn decode_rejects_leading_zero_number() {
    let body = "{\"name\":\"Ann\",\"color\":{\"r\":007,\"g\":20,\"b\":30}}";
    assert!(decode_user_text(body).is_none());
}

#[test]
fn decode_rejects_trailing_text() {
    let body = "{\"name\":\"Ann\",\"color\":{\"r\":10,\"g\":20,\"b\":30}} x";
    assert!(decode_user_text(body).is_none());
}

#[test]
fn decode_rejects_unterminated_string() {
    let body = "{\"name\":\"Ann,\"color\":{\"r\":10,\"g\":20,\"b\":30}}";
    assert!(decode_user_text(body).is_none());
}

#[test]
fn decode_rejects_escape_in_string() {
    let body = "{\"name\":\"A\\nn\",\"color\":{\"r\":10,\"g\":20,\"b\":30}}";
    assert!(decode_user_text(body).is_none());
}

#[test]
fn decode_rejects_empty_input() {
    assert!(decode_user_text("").is_none());
}

#[test]
fn encode_builds_the_canonical_document() {
    let doc = encode_user_text("Ann", Rgb { r: 10, g: 20, b: 30 }).unwrap();
    assert_eq!(doc, "{\"name\":\"Ann\",\"color\":{\"r\":10,\"g\":20,\"b\":30}}");
}

#[test]
fn encode_rejects_a_quote_in_the_name() {
    assert!(encode_user_text("An\"n", Rgb { r: 1, g: 2, b: 3 }).is_none());
    assert!(encode_user_text("An\\n", Rgb { r: 1, g: 2, b: 3 }).is_none());
    assert!(encode_user_text("An\nn", Rgb { r: 1, g: 2, b: 3 }).is_none());
}

#[test]
fn encoded_documents_decode_back() {
    let cases = [
        ("Ann", Rgb { r: 10, g: 20, b: 30 }),
        ("", Rgb { r: 0, g: 0, b: 0 }),
        ("Jimmy Two-Shoes", Rgb { r: 255, g: 255, b: 255 }),
    ];
    for (name, color) in cases {
        let doc = encode_user_text(name, color).unwrap();
        let (name2, color2) = decode_user_text(doc.as_str()).unwrap();
        assert_eq!(name2, name);
        assert_eq!(color2, color);
    }
}
