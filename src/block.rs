use vstd::prelude::*;

use crate::clock::unix_now;

verus! {

/// Colours of a text box; they follow the site's graphical profile.
#[derive(Debug, Clone, Copy, PartialEq, Eq, Structural)]
pub enum TextBoxColor {
    Grey,
    Blue,
    Green,
    Red,
    Yellow,
}

impl TextBoxColor {
    pub open spec fn name(self) -> Seq<char> {
        match self {
            TextBoxColor::Grey => "grey"@,
            TextBoxColor::Blue => "blue"@,
            TextBoxColor::Green => "green"@,
            TextBoxColor::Red => "red"@,
            TextBoxColor::Yellow => "yellow"@,
        }
    }

    /// The colour's name as the stored form writes it.
    pub open spec fn variant_name(self) -> Seq<char> {
        match self {
            TextBoxColor::Grey => "Grey"@,
            TextBoxColor::Blue => "Blue"@,
            TextBoxColor::Green => "Green"@,
            TextBoxColor::Red => "Red"@,
            TextBoxColor::Yellow => "Yellow"@,
        }
    }

    /// The colour's name as the stored form writes it.
    pub fn variant_str(&self) -> (r: &'static str)
        ensures
            r@ == self.variant_name(),
    {
        match self {
            TextBoxColor::Grey => "Grey",
            TextBoxColor::Blue => "Blue",
            TextBoxColor::Green => "Green",
            TextBoxColor::Red => "Red",
            TextBoxColor::Yellow => "Yellow",
        }
    }

    /// The CSS class of the colour.
    pub fn as_str(&self) -> (r: &'static str)
        ensures
            r@ == self.name(),
    {
        match self {
            TextBoxColor::Grey => "grey",
            TextBoxColor::Blue => "blue",
            TextBoxColor::Green => "green",
            TextBoxColor::Red => "red",
            TextBoxColor::Yellow => "yellow",
        }
    }
}

/// Text that a block renders to in place of one that cannot be rendered.
pub const INVALID_BLOCK: &'static str = "INVALID BLOCK!";

/// The pattern of the URL prefixes that come before a YouTube video id.
pub const YOUTUBE_PREFIX: &'static str = r"(https://)?(youtu\.be|youtube\.com|www\.youtube\.com)/(watch\?v=|shorts|live)?\/?";

/// The HTML that comrak makes of a Markdown text with its default options.
pub uninterp spec fn markdown_html(md: Seq<char>) -> Seq<char>;

/// Relies on comrak::markdown_to_html with default options: the result
/// depends on the Markdown text alone.
#[verifier::external_body]
fn markdown_to_html(md: &str) -> (r: String)
    ensures
        r@ == markdown_html(md@),
{
    comrak::markdown_to_html(md, &comrak::Options::default())
}

/// What ammonia's default cleaner keeps of an HTML text.
pub uninterp spec fn sanitized_html(html: Seq<char>) -> Seq<char>;

/// Relies on ammonia::clean: the result depends on the HTML text alone.
#[verifier::external_body]
fn sanitize(html: &str) -> (r: String)
    ensures
        r@ == sanitized_html(html@),
{
    ammonia::clean(html)
}

/// The 128-bit value of a UUID written in one of the forms that the uuid
/// crate reads, or `None` for any other text.
pub uninterp spec fn uuid_parse(s: Seq<char>) -> Option<u128>;

/// Relies on uuid::Uuid::from_str: the UUID that a text denotes, if any.
/// Every form it reads has at least 32 hex digits, so a shorter text is none.
#[verifier::external_body]
pub(crate) fn parse_uuid(s: &str) -> (r: Option<u128>)
    ensures
        r == uuid_parse(s@),
        s@.len() < 32 ==> r is None,
{
    match <uuid::Uuid as std::str::FromStr>::from_str(s) {
        Ok(u) => Some(u.as_u128()),
        Err(_) => None,
    }
}

/// Lower-case hex digit of a value below 16.
pub open spec fn hex_char(n: int) -> char {
    seq!['0', '1', '2', '3', '4', '5', '6', '7', '8', '9', 'a', 'b', 'c', 'd', 'e', 'f'][n]
}

/// The last `k` hex digits of `u`, most significant first.
pub open spec fn hex_digits(u: nat, k: nat) -> Seq<char>
    decreases k,
{
    if k == 0 {
        Seq::empty()
    } else {
        hex_digits(u / 16, (k - 1) as nat).push(hex_char((u % 16) as int))
    }
}

/// The hyphenated form of a UUID: 32 lower-case hex digits in groups of
/// 8, 4, 4, 4 and 12.
pub open spec fn uuid_text_of(u: u128) -> Seq<char> {
    let d = hex_digits(u as nat, 32);
    d.subrange(0, 8) + seq!['-'] + d.subrange(8, 12) + seq!['-'] + d.subrange(12, 16) + seq!['-']
        + d.subrange(16, 20) + seq!['-'] + d.subrange(20, 32)
}

/// Relies on the Display of uuid::Uuid, which writes the hyphenated form.
#[verifier::external_body]
fn uuid_text(u: u128) -> (r: String)
    ensures
        r@ == uuid_text_of(u),
{
    uuid::Uuid::from_u128(u).to_string()
}

/// Relies on uuid::Uuid::new_v4: a random identifier. Nothing is known of it.
#[verifier::external_body]
fn new_uuid() -> (r: u128) {
    uuid::Uuid::new_v4().as_u128()
}

/// Whether a regular expression pattern compiles.
pub uninterp spec fn regex_is_valid(pattern: Seq<char>) -> bool;

/// The text with the leftmost match of a valid pattern removed.
pub uninterp spec fn regex_removed(pattern: Seq<char>, text: Seq<char>) -> Seq<char>;

/// Relies on regex::Regex::new, which fails only on a pattern that does not
/// compile, and on Regex::replace with an empty replacement, which removes the
/// leftmost match.
#[verifier::external_body]
fn remove_first_match(pattern: &str, text: &str) -> (r: Option<String>)
    ensures
        r is Some <==> regex_is_valid(pattern@),
        r matches Some(s) ==> s@ == regex_removed(pattern@, text@),
{
    match regex::Regex::new(pattern) {
        Ok(re) => Some(re.replace(text, "").into_owned()),
        Err(_) => None,
    }
}

/// Width in pixels of the small copy of an image.
pub const IMG_S_SIZE: u32 = 600;

/// Width in pixels of the medium copy of an image.
pub const IMG_M_SIZE: u32 = 1200;

/// The size classes in which an image is stored.
#[derive(Debug, Clone, Copy, PartialEq, Eq, Structural)]
pub enum ImageSize {
    /// At most 600 pixels wide.
    Small,
    /// At most 1200 pixels wide.
    Medium,
    /// As uploaded.
    Large,
}

impl ImageSize {
    pub open spec fn dir(self) -> Seq<char> {
        match self {
            ImageSize::Small => "s"@,
            ImageSize::Medium => "m"@,
            ImageSize::Large => "l"@,
        }
    }

    /// The directory of this size class.
    pub fn as_str(&self) -> (r: &'static str)
        ensures
            r@ == self.dir(),
    {
        match self {
            ImageSize::Small => "s",
            ImageSize::Medium => "m",
            ImageSize::Large => "l",
        }
    }
}

/// Where the copy of an image in a size class is stored, under the data
/// directory.
pub open spec fn image_path_of(data_dir: Seq<char>, size: ImageSize, id: u128) -> Seq<char> {
    data_dir + "/images/"@ + size.dir() + "/"@ + uuid_text_of(id) + ".webp"@
}

/// The path of an image's copy in a size class.
pub fn image_file_path(data_dir: &str, size: ImageSize, id: u128) -> (r: String)
    ensures
        r@ == image_path_of(data_dir@, size, id),
{
    let mut s = data_dir.to_string();
    s.append("/images/");
    s.append(size.as_str());
    s.append("/");
    let name = uuid_text(id);
    s.append(name.as_str());
    s.append(".webp");
    s
}

/// The height of an image scaled to a width, keeping its aspect ratio
/// (rounded down).
pub fn scaled_height(target_width: u32, width: u32, height: u32) -> (r: u64)
    requires
        width > 0,
    ensures
        r == (target_width as int * height as int) / width as int,
{
    let a = target_width as u64;
    let b = height as u64;
    assert(a * b <= u32::MAX as int * u32::MAX as int) by (nonlinear_arith)
        requires
            a <= u32::MAX,
            b <= u32::MAX,
    ;
    let product = a * b;
    product / (width as u64)
}

/// What follows writing an uploaded image's files, its record being stored
/// already.
#[derive(Debug, Clone, Copy, PartialEq, Eq, Structural)]
pub enum UploadFollowUp {
    /// The files are written: the upload is complete.
    Finish,
    /// The files could not be written: the record is deleted again, so that
    /// no record points to missing files.
    DeleteRecord,
}

/// The step after the file write of an upload.
pub fn upload_follow_up(files_written: bool) -> (r: UploadFollowUp)
    ensures
        files_written ==> r == UploadFollowUp::Finish,
        !files_written ==> r == UploadFollowUp::DeleteRecord,
{
    if files_written {
        UploadFollowUp::Finish
    } else {
        UploadFollowUp::DeleteRecord
    }
}

/// Metadata of an uploaded image. The image itself is stored in three sizes
/// under paths derived from `id`.
#[derive(Debug)]
pub struct Image {
    pub id: u128,
    pub author: String,
    pub description: Option<String>,
    /// Seconds since the Unix epoch.
    pub created_at: i64,
    pub tags: Vec<String>,
}

impl Image {
    /// A new image record with a fresh random id, created now.
    pub fn create(author: &str, description: Option<&str>, tags: Vec<String>) -> (r: Image)
        ensures
            r.author@ == author@,
            r.description is Some <==> description is Some,
            r.description matches Some(d) ==> d@ == description.unwrap()@,
            r.tags@ == tags@,
    {
        let description = match description {
            Some(d) => Some(d.to_string()),
            None => None,
        };
        Image { id: new_uuid(), author: author.to_string(), description, created_at: unix_now(), tags }
    }
}

/// The first image with the given id.
pub open spec fn find_image(images: Seq<Image>, id: u128) -> Option<Image>
    decreases images.len(),
{
    if images.len() == 0 {
        None
    } else if images[0].id == id {
        Some(images[0])
    } else {
        find_image(images.drop_first(), id)
    }
}

/// Position of the first image with the given id.
pub fn lookup_image(images: &Vec<Image>, id: u128) -> (r: Option<usize>)
    ensures
        match find_image(images@, id) {
            None => r is None,
            Some(img) => r matches Some(k) && k < images@.len() && images@[k as int] == img,
        },
{
    let mut k: usize = 0;
    assert(images@.subrange(0, images@.len() as int) =~= images@);
    while k < images.len()
        invariant
            k <= images@.len(),
            find_image(images@.subrange(k as int, images@.len() as int), id) == find_image(images@, id),
        decreases images.len() - k,
    {
        let ghost rest = images@.subrange(k as int, images@.len() as int);
        if images[k].id == id {
            assert(rest[0] == images@[k as int]);
            return Some(k);
        }
        assert(rest.drop_first() =~= images@.subrange(k + 1, images@.len() as int));
        k += 1;
    }
    assert(images@.subrange(k as int, images@.len() as int).len() == 0);
    None
}

/// A unit of content. A text's body is a sequence of blocks, rendered in
/// order.
#[allow(inconsistent_fields)]
#[derive(Debug)]
pub enum Block {
    /// Markdown text.
    Paragraph { body_text: String },
    /// An uploaded image, referred to by its id, with a caption.
    Image { id: String, caption: String },
    /// A quote and where it is from.
    Quote { quote: String, citation: String },
    /// A second-level heading, not read as Markdown.
    Heading { heading: String },
    /// HTML written by a trusted author, passed through as it is.
    RawHtml { html: String },
    /// An embedded YouTube video.
    YouTube { video_link: String, caption: Option<String> },
    /// Markdown text on a coloured plate.
    TextBox { text: String, color: Option<TextBoxColor> },
}

/// Why a block could not be rendered.
#[derive(Debug, Clone, Copy, PartialEq, Eq, Structural)]
pub enum RenderError {
    /// The image id is not a UUID.
    InvalidReference,
    /// No image has the id.
    NotFound,
}

pub open spec fn text_or_empty(o: Option<String>) -> Seq<char> {
    match o {
        Some(s) => s@,
        None => Seq::empty(),
    }
}

pub open spec fn color_class(c: Option<TextBoxColor>) -> Seq<char> {
    match c {
        Some(c) => c.name(),
        None => Seq::empty(),
    }
}

/// The HTML of an image with a caption, crediting its author.
pub open spec fn image_html(img: Image, caption: Seq<char>) -> Seq<char> {
    "<img src=\"/dynamic-data/images/m/"@ + uuid_text_of(img.id) + ".webp\" alt=\""@
        + text_or_empty(img.description) + "\" /><p class=\"caption\">"@ + caption
        + " <span>Foto: "@ + img.author@ + ".</span></p>"@
}

/// The video id of a link: the link without its YouTube prefix, or empty
/// where no prefix is found.
pub open spec fn video_id_of(link: Seq<char>) -> Seq<char> {
    if regex_is_valid(YOUTUBE_PREFIX@) && regex_removed(YOUTUBE_PREFIX@, link) != link {
        regex_removed(YOUTUBE_PREFIX@, link)
    } else {
        Seq::empty()
    }
}

pub open spec fn youtube_html(video_id: Seq<char>, caption: Seq<char>) -> Seq<char> {
    "<iframe class=\"youtube-video\" src=\"https://www.youtube.com/embed/"@ + video_id
        + "\" title=\"YouTube video player\" frameborder=\"0\" allowfullscreen></iframe><p class=\"caption\">"@
        + caption + "</p>"@
}

/// The HTML of one block, given the images that the store holds.
pub open spec fn render_spec(b: Block, images: Seq<Image>) -> Result<Seq<char>, RenderError> {
    match b {
        Block::Heading { heading } => Ok("<h2>"@ + heading@ + "</h2>"@),
        Block::Paragraph { body_text } => Ok(markdown_html(body_text@)),
        Block::Quote { quote, citation } => Ok(
            "<blockquote cite=\""@ + citation@ + "\">"@ + quote@ + "</blockquote>"@,
        ),
        Block::Image { id, caption } => match uuid_parse(id@) {
            None => Err(RenderError::InvalidReference),
            Some(u) => match find_image(images, u) {
                None => Err(RenderError::NotFound),
                Some(img) => Ok(image_html(img, caption@)),
            },
        },
        Block::RawHtml { html } => Ok(html@),
        Block::YouTube { video_link, caption } => Ok(
            youtube_html(video_id_of(video_link@), text_or_empty(caption)),
        ),
        Block::TextBox { text, color } => Ok(
            "<div class=\"textbox "@ + color_class(color) + "\">"@ + markdown_html(text@)
                + "</div>"@,
        ),
    }
}

/// The HTML of one block, or the placeholder where it cannot be rendered.
pub open spec fn render_or_placeholder(b: Block, images: Seq<Image>) -> Seq<char> {
    match render_spec(b, images) {
        Ok(html) => html,
        Err(_) => INVALID_BLOCK@,
    }
}

/// The HTML of a block sequence: each block's HTML, or the placeholder, in
/// order.
pub open spec fn render_all(blocks: Seq<Block>, images: Seq<Image>) -> Seq<char>
    decreases blocks.len(),
{
    if blocks.len() == 0 {
        Seq::empty()
    } else {
        render_all(blocks.drop_last(), images) + render_or_placeholder(blocks.last(), images)
    }
}

fn image_to_html(img: &Image, caption: &String) -> (r: String)
    ensures
        r@ == image_html(*img, caption@),
{
    let mut s = String::from_str("<img src=\"/dynamic-data/images/m/");
    let id = uuid_text(img.id);
    s.append(id.as_str());
    s.append(".webp\" alt=\"");
    match &img.description {
        Some(d) => s.append(d.as_str()),
        None => s.append(""),
    }
    proof {
        reveal_strlit("");
    }
    s.append("\" /><p class=\"caption\">");
    s.append(caption.as_str());
    s.append(" <span>Foto: ");
    s.append(img.author.as_str());
    s.append(".</span></p>");
    s
}

/// The video id of a link, as `video_id_of` gives it.
pub fn video_id(link: &str) -> (r: String)
    ensures
        r@ == video_id_of(link@),
{
    match remove_first_match(YOUTUBE_PREFIX, link) {
        Some(stripped) => {
            let unchanged = stripped == link.to_string();
            if unchanged {
                String::new()
            } else {
                stripped
            }
        },
        None => String::new(),
    }
}

impl Block {
    /// The image that rendering this block needs from the store.
    pub fn image_reference(&self) -> (r: Option<u128>)
        ensures
            r == match *self {
                Block::Image { id, .. } => uuid_parse(id@),
                _ => None,
            },
    {
        match self {
            Block::Image { id, .. } => parse_uuid(id.as_str()),
            _ => None,
        }
    }

    /// The HTML of this block. An image block is looked up by its id among
    /// `images`, the records that the store returned.
    pub fn render(&self, images: &Vec<Image>) -> (r: Result<String, RenderError>)
        ensures
            r matches Ok(s) ==> render_spec(*self, images@) == Ok::<Seq<char>, RenderError>(s@),
            r matches Err(e) ==> render_spec(*self, images@) == Err::<Seq<char>, RenderError>(e),
    {
        match self {
            Block::Heading { heading } => {
                let mut s = String::from_str("<h2>");
                s.append(heading.as_str());
                s.append("</h2>");
                Ok(s)
            },
            Block::Paragraph { body_text } => Ok(markdown_to_html(body_text.as_str())),
            Block::Quote { quote, citation } => {
                let mut s = String::from_str("<blockquote cite=\"");
                s.append(citation.as_str());
                s.append("\">");
                s.append(quote.as_str());
                s.append("</blockquote>");
                Ok(s)
            },
            Block::Image { id, caption } => {
                match parse_uuid(id.as_str()) {
                    None => Err(RenderError::InvalidReference),
                    Some(u) => match lookup_image(images, u) {
                        None => Err(RenderError::NotFound),
                        Some(k) => Ok(image_to_html(&images[k], caption)),
                    },
                }
            },
            Block::RawHtml { html } => Ok(html.clone()),
            Block::YouTube { video_link, caption } => {
                let vid = video_id(video_link.as_str());
                let mut s = String::from_str(
                    "<iframe class=\"youtube-video\" src=\"https://www.youtube.com/embed/",
                );
                s.append(vid.as_str());
                s.append(
                    "\" title=\"YouTube video player\" frameborder=\"0\" allowfullscreen></iframe><p class=\"caption\">",
                );
                match caption {
                    Some(c) => s.append(c.as_str()),
                    None => s.append(""),
                }
                proof {
                    reveal_strlit("");
                }
                s.append("</p>");
                Ok(s)
            },
            Block::TextBox { text, color } => {
                let mut s = String::from_str("<div class=\"textbox ");
                match color {
                    Some(c) => s.append(c.as_str()),
                    None => s.append(""),
                }
                proof {
                    reveal_strlit("");
                }
                s.append("\">");
                let md = markdown_to_html(text.as_str());
                s.append(md.as_str());
                s.append("</div>");
                Ok(s)
            },
        }
    }
}

/// The HTML of a block sequence; a block that cannot be rendered gives the
/// placeholder instead, and the others are rendered all the same.
pub fn render_blocks(blocks: &Vec<Block>, images: &Vec<Image>) -> (r: String)
    ensures
        r@ == render_all(blocks@, images@),
{
    let mut out = String::new();
    let mut k: usize = 0;
    while k < blocks.len()
        invariant
            k <= blocks@.len(),
            out@ == render_all(blocks@.subrange(0, k as int), images@),
        decreases blocks.len() - k,
    {
        let ghost before = blocks@.subrange(0, k as int);
        match blocks[k].render(images) {
            Ok(html) => out.append(html.as_str()),
            Err(_) => out.append(INVALID_BLOCK),
        }
        proof {
            let after = blocks@.subrange(0, k + 1);
            assert(after.drop_last() =~= before);
            assert(after.last() == blocks@[k as int]);
        }
        k += 1;
    }
    assert(blocks@.subrange(0, blocks@.len() as int) =~= blocks@);
    out
}

/// The HTML of two block sequences, one after the other, is the HTML of the
/// first followed by that of the second.
pub proof fn lemma_render_all_concat(a: Seq<Block>, b: Seq<Block>, images: Seq<Image>)
    ensures
        render_all(a + b, images) == render_all(a, images) + render_all(b, images),
    decreases b.len(),
{
    if b.len() == 0 {
        assert(a + b =~= a);
        assert(render_all(a, images) + render_all(b, images) =~= render_all(a, images));
    } else {
        lemma_render_all_concat(a, b.drop_last(), images);
        assert((a + b).drop_last() =~= a + b.drop_last());
        assert((a + b).last() == b.last());
        assert(render_all(a, images) + render_all(b.drop_last(), images) + render_or_placeholder(
            b.last(),
            images,
        ) =~= render_all(a, images) + (render_all(b.drop_last(), images) + render_or_placeholder(
            b.last(),
            images,
        )));
    }
}

/// A text whose body holds an image block with a well-formed id that no
/// stored image has renders that block as the placeholder, and every other
/// block as it would render anyway: the failure does not reach the page.
pub proof fn lemma_dangling_image_degrades(
    before: Seq<Block>,
    id: String,
    caption: String,
    after: Seq<Block>,
    images: Seq<Image>,
)
    requires
        uuid_parse(id@) is Some,
        find_image(images, uuid_parse(id@).unwrap()) is None,
    ensures
        render_all(before + seq![Block::Image { id, caption }] + after, images) == render_all(
            before,
            images,
        ) + INVALID_BLOCK@ + render_all(after, images),
{
    let one = seq![Block::Image { id, caption }];
    lemma_render_all_concat(before, one, images);
    lemma_render_all_concat(before + one, after, images);
    assert(one.drop_last() =~= Seq::<Block>::empty());
    assert(one.last() == Block::Image { id, caption });
    assert(render_or_placeholder(one.last(), images) == INVALID_BLOCK@);
    assert(render_all(one.drop_last(), images) == Seq::<char>::empty());
    assert(render_all(one, images) =~= INVALID_BLOCK@);
}

/// Markdown made into HTML and then cleaned of anything unsafe, for text
/// that untrusted templates show.
pub fn markdown_filter(md: &str) -> (r: String)
    ensures
        r@ == sanitized_html(markdown_html(md@)),
{
    let html = markdown_to_html(md);
    sanitize(html.as_str())
}

/// HTML cleaned of anything unsafe.
pub fn sanitize_filter(html: &str) -> (r: String)
    ensures
        r@ == sanitized_html(html@),
{
    sanitize(html)
}

} // verus!
