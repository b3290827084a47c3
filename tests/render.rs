use blockpress::block::{
    image_file_path, markdown_filter, render_blocks, sanitize_filter, scaled_height,
    upload_follow_up, video_id, Block, Image, ImageSize, RenderError, TextBoxColor,
    UploadFollowUp, INVALID_BLOCK,
};

const IMAGE_ID: &str = "67e55044-10b1-426f-9247-bb680e5fe0c8";
const IMAGE_ID_VALUE: u128 = 0x67e5504410b1426f9247bb680e5fe0c8;

fn stored_image() -> Image {
    Image {
        id: IMAGE_ID_VALUE,
        author: "sven".to_string(),
        description: Some("En katt".to_string()),
        created_at: 0,
        tags: vec![],
    }
}

#[test]
fn heading_is_not_markdown() {
    let b = Block::Heading { heading: "*Hej*".to_string() };
    assert_eq!(b.render(&vec![]).unwrap(), "<h2>*Hej*</h2>");
}

#[test]
fn paragraph_is_markdown() {
    let b = Block::Paragraph { body_text: "Hello *world*".to_string() };
    assert_eq!(b.render(&vec![]).unwrap(), "<p>Hello <em>world</em></p>\n");
}

#[test]
fn quote_has_citation() {
    let b = Block::Quote { quote: "Q".to_string(), citation: "C".to_string() };
    assert_eq!(b.render(&vec![]).unwrap(), r#"<blockquote cite="C">Q</blockquote>"#);
}

#[test]
fn raw_html_passes_unescaped() {
    let b = Block::RawHtml { html: "<script>x</script>".to_string() };
    assert_eq!(b.render(&vec![]).unwrap(), "<script>x</script>");
}

#[test]
fn image_found_in_store() {
    let b = Block::Image { id: IMAGE_ID.to_string(), caption: "Bild".to_string() };
    assert_eq!(b.image_reference(), Some(IMAGE_ID_VALUE));
    assert_eq!(
        b.render(&vec![stored_image()]).unwrap(),
        r#"<img src="/dynamic-data/images/m/67e55044-10b1-426f-9247-bb680e5fe0c8.webp" alt="En katt" /><p class="caption">Bild <span>Foto: sven.</span></p>"#
    );
}

#[test]
fn image_with_bad_id_is_invalid_reference() {
    let b = Block::Image { id: "1".to_string(), caption: "c".to_string() };
    assert_eq!(b.image_reference(), None);
    assert_eq!(b.render(&vec![stored_image()]).unwrap_err(), RenderError::InvalidReference);
}

#[test]
fn image_missing_from_store_is_not_found() {
    let b = Block::Image { id: "00000000-0000-0000-0000-000000000001".to_string(), caption: "c".to_string() };
    assert_eq!(b.render(&vec![stored_image()]).unwrap_err(), RenderError::NotFound);
}

#[test]
fn dangling_image_degrades_to_placeholder() {
    let blocks = vec![
        Block::Heading { heading: "A".to_string() },
        Block::Image { id: "00000000-0000-0000-0000-000000000001".to_string(), caption: "c".to_string() },
        Block::Heading { heading: "B".to_string() },
    ];
    let html = render_blocks(&blocks, &vec![stored_image()]);
    assert_eq!(html, "<h2>A</h2>INVALID BLOCK!<h2>B</h2>");
    assert_eq!(INVALID_BLOCK, "INVALID BLOCK!");
}

#[test]
fn youtube_link_prefix_is_stripped() {
    assert_eq!(video_id("https://youtu.be/abc123"), "abc123");
    assert_eq!(video_id("https://www.youtube.com/watch?v=xyz"), "xyz");
    assert_eq!(video_id("not a link"), "");
    let b = Block::YouTube { video_link: "https://youtu.be/abc123".to_string(), caption: Some("Film".to_string()) };
    assert_eq!(
        b.render(&vec![]).unwrap(),
        r#"<iframe class="youtube-video" src="https://www.youtube.com/embed/abc123" title="YouTube video player" frameborder="0" allowfullscreen></iframe><p class="caption">Film</p>"#
    );
}

#[test]
fn text_box_has_colour_class() {
    let b = Block::TextBox { text: "Hi".to_string(), color: Some(TextBoxColor::Blue) };
    assert_eq!(b.render(&vec![]).unwrap(), "<div class=\"textbox blue\"><p>Hi</p>\n</div>");
    let plain = Block::TextBox { text: "Hi".to_string(), color: None };
    assert_eq!(plain.render(&vec![]).unwrap(), "<div class=\"textbox \"><p>Hi</p>\n</div>");
}

#[test]
fn filters_clean_html() {
    assert_eq!(sanitize_filter("<b>ok</b><script>bad()</script>"), "<b>ok</b>");
    assert_eq!(markdown_filter("**ok**"), "<p><strong>ok</strong></p>\n");
}

#[test]
fn image_paths_and_sizes() {
    assert_eq!(
        image_file_path("data", ImageSize::Small, IMAGE_ID_VALUE),
        "data/images/s/67e55044-10b1-426f-9247-bb680e5fe0c8.webp"
    );
    assert_eq!(scaled_height(600, 1200, 800), 400);
    assert_eq!(scaled_height(1200, 1000, 333), 399);
    assert_eq!(upload_follow_up(true), UploadFollowUp::Finish);
    assert_eq!(upload_follow_up(false), UploadFollowUp::DeleteRecord);
}

#[test]
fn new_image_keeps_its_fields() {
    let img = Image::create("sven", Some("desc"), vec!["a".to_string()]);
    assert_eq!(img.author, "sven");
    assert_eq!(img.description.as_deref(), Some("desc"));
    assert_eq!(img.tags, vec!["a".to_string()]);
    let other = Image::create("sven", None, vec![]);
    assert_ne!(img.id, other.id);
}
