use blockpress::block::{Block, TextBoxColor};
use blockpress::codec::{decode_blocks, encode_blocks};

/// Tests that a sequence of blocks serializes to the expected stored form
/// and reads back to the same blocks.
#[test]
fn test_syntax() {
    let article = vec![
        Block::Paragraph {
            body_text: "Hello, world!".to_string(),
        },
        Block::Image {
            id: "1".to_string(),
            caption: "Hello, world!".to_string(),
        },
        Block::Quote {
            quote: "Hello, world!".to_string(),
            citation: "Hello, world!".to_string(),
        },
    ];

    let article_json = encode_blocks(&article);

    let article_parsed: Vec<Block> = decode_blocks(&article_json).unwrap();

    let expected_article_json = r#"[{"type":"Paragraph","body_text":"Hello, world!"},{"type":"Image","id":"1","caption":"Hello, world!"},{"type":"Quote","quote":"Hello, world!","citation":"Hello, world!"}]"#;
    let expected_article_parsed = r#"[Paragraph { body_text: "Hello, world!" }, Image { id: "1", caption: "Hello, world!" }, Quote { quote: "Hello, world!", citation: "Hello, world!" }]"#;

    let article_parsed_string = format!("{:?}", article_parsed);

    assert_eq!(article_json, expected_article_json);
    assert_eq!(article_parsed_string, expected_article_parsed);
}

fn all_kinds() -> Vec<Block> {
    vec![
        Block::Heading { heading: "Rubrik \"citerad\"".to_string() },
        Block::RawHtml { html: "<b>a\\b</b>\n\ttab\r".to_string() },
        Block::YouTube { video_link: "https://youtu.be/abc".to_string(), caption: None },
        Block::YouTube { video_link: "x".to_string(), caption: Some("Bildtext".to_string()) },
        Block::TextBox { text: "ctl \u{1}\u{8}\u{c}\u{1f} end".to_string(), color: Some(TextBoxColor::Green) },
        Block::TextBox { text: "".to_string(), color: None },
        Block::Paragraph { body_text: "åäö ✓".to_string() },
    ]
}

#[test]
fn round_trip_every_kind() {
    let blocks = all_kinds();
    let text = encode_blocks(&blocks);
    let back = decode_blocks(&text).unwrap();
    assert_eq!(format!("{:?}", back), format!("{:?}", blocks));
    assert_eq!(encode_blocks(&back), text);
}

#[test]
fn round_trip_empty() {
    let text = encode_blocks(&Vec::new());
    assert_eq!(text, "[]");
    assert_eq!(decode_blocks(&text).unwrap().len(), 0);
}

#[test]
fn escapes_as_serde_json_does() {
    let blocks = vec![Block::RawHtml { html: "q\" b\\ n\n r\r t\t b\u{8} f\u{c} u\u{1}".to_string() }];
    let text = encode_blocks(&blocks);
    assert_eq!(text, r#"[{"type":"RawHtml","html":"q\" b\\ n\n r\r t\t b\b f\f u\u0001"}]"#);
}

#[test]
fn optional_fields_are_null() {
    let blocks = vec![
        Block::YouTube { video_link: "v".to_string(), caption: None },
        Block::TextBox { text: "t".to_string(), color: Some(TextBoxColor::Yellow) },
    ];
    let text = encode_blocks(&blocks);
    assert_eq!(
        text,
        r#"[{"type":"YouTube","video_link":"v","caption":null},{"type":"TextBox","text":"t","color":"Yellow"}]"#
    );
}

#[test]
fn unknown_tag_is_refused() {
    assert!(decode_blocks(r#"[{"type":"Video","src":"x"}]"#).is_none());
}

#[test]
fn malformed_text_is_refused() {
    assert!(decode_blocks("").is_none());
    assert!(decode_blocks("[").is_none());
    assert!(decode_blocks(r#"[{"type":"Heading","heading":"a"}"#).is_none());
    assert!(decode_blocks(r#"[{"type":"Heading","heading":"a"},]"#).is_none());
    assert!(decode_blocks(r#"[{"type":"TextBox","text":"a","color":"Purple"}]"#).is_none());
    assert!(decode_blocks("[{\"type\":\"Heading\",\"heading\":\"raw\ncontrol\"}]").is_none());
}

#[test]
fn reads_image_objects_with_null_image_data() {
    let stored = r#"[{"type":"Paragraph","body_text":"Hello, world!"},{"type":"Image","id":"1","caption":"Hello, world!","image_data":null},{"type":"Quote","quote":"Hello, world!","citation":"Hello, world!"}]"#;
    let blocks = decode_blocks(stored).unwrap();
    assert_eq!(
        format!("{:?}", blocks),
        r#"[Paragraph { body_text: "Hello, world!" }, Image { id: "1", caption: "Hello, world!" }, Quote { quote: "Hello, world!", citation: "Hello, world!" }]"#
    );
    assert!(decode_blocks(r#"[{"type":"Image","id":"1","caption":"c","image_data":{}}]"#).is_none());
}
