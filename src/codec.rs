use vstd::prelude::*;
use vstd::std_specs::iter::IteratorSpec;

use crate::block::{hex_char, Block, TextBoxColor};

verus! {

// The stored form of a block sequence is a JSON array of objects. Each object
// holds a "type" member that names the variant, then the variant's fields in
// a fixed order; strings are escaped as serde_json escapes them.

pub const P_PARAGRAPH: &'static str = "{\"type\":\"Paragraph\",\"body_text\":";
pub const P_IMAGE: &'static str = "{\"type\":\"Image\",\"id\":";
pub const P_QUOTE: &'static str = "{\"type\":\"Quote\",\"quote\":";
pub const P_HEADING: &'static str = "{\"type\":\"Heading\",\"heading\":";
pub const P_RAW_HTML: &'static str = "{\"type\":\"RawHtml\",\"html\":";
pub const P_YOUTUBE: &'static str = "{\"type\":\"YouTube\",\"video_link\":";
pub const P_TEXT_BOX: &'static str = "{\"type\":\"TextBox\",\"text\":";
pub const K_CAPTION: &'static str = ",\"caption\":";
pub const K_CITATION: &'static str = ",\"citation\":";
pub const K_COLOR: &'static str = ",\"color\":";
/// A member that older stored image objects carry; it is read and dropped.
pub const K_IMAGE_DATA_NULL: &'static str = ",\"image_data\":null";

/// A block as plain values.
#[allow(inconsistent_fields)]
pub enum BlockView {
    Paragraph { body_text: Seq<char> },
    Image { id: Seq<char>, caption: Seq<char> },
    Quote { quote: Seq<char>, citation: Seq<char> },
    Heading { heading: Seq<char> },
    RawHtml { html: Seq<char> },
    YouTube { video_link: Seq<char>, caption: Option<Seq<char>> },
    TextBox { text: Seq<char>, color: Option<TextBoxColor> },
}

pub open spec fn opt_view(o: Option<String>) -> Option<Seq<char>> {
    match o {
        Some(s) => Some(s@),
        None => None,
    }
}

impl View for Block {
    type V = BlockView;

    open spec fn view(&self) -> BlockView {
        match *self {
            Block::Paragraph { body_text } => BlockView::Paragraph { body_text: body_text@ },
            Block::Image { id, caption } => BlockView::Image { id: id@, caption: caption@ },
            Block::Quote { quote, citation } => BlockView::Quote { quote: quote@, citation: citation@ },
            Block::Heading { heading } => BlockView::Heading { heading: heading@ },
            Block::RawHtml { html } => BlockView::RawHtml { html: html@ },
            Block::YouTube { video_link, caption } => BlockView::YouTube {
                video_link: video_link@,
                caption: opt_view(caption),
            },
            Block::TextBox { text, color } => BlockView::TextBox { text: text@, color },
        }
    }
}

/// The control character with the given code, below 32.
pub open spec fn ctl(n: int) -> char {
    seq!['\u{0}', '\u{1}', '\u{2}', '\u{3}', '\u{4}', '\u{5}', '\u{6}', '\u{7}', '\u{8}', '\u{9}', '\u{a}', '\u{b}', '\u{c}', '\u{d}', '\u{e}', '\u{f}', '\u{10}', '\u{11}', '\u{12}', '\u{13}', '\u{14}', '\u{15}', '\u{16}', '\u{17}', '\u{18}', '\u{19}', '\u{1a}', '\u{1b}', '\u{1c}', '\u{1d}', '\u{1e}', '\u{1f}'][n]
}

/// How serde_json writes one character inside a string.
pub open spec fn escape_char(c: char) -> Seq<char> {
    if c == '"' {
        seq!['\\', '"']
    } else if c == '\\' {
        seq!['\\', '\\']
    } else if c == '\n' {
        seq!['\\', 'n']
    } else if c == '\r' {
        seq!['\\', 'r']
    } else if c == '\t' {
        seq!['\\', 't']
    } else if c == '\u{8}' {
        seq!['\\', 'b']
    } else if c == '\u{c}' {
        seq!['\\', 'f']
    } else if (c as u32) < 32 {
        seq!['\\', 'u', '0', '0', hex_char((c as u32) as int / 16), hex_char((c as u32) as int % 16)]
    } else {
        seq![c]
    }
}

/// The escaped form of a text.
pub open spec fn escape(s: Seq<char>) -> Seq<char>
    decreases s.len(),
{
    if s.len() == 0 {
        Seq::empty()
    } else {
        escape_char(s[0]) + escape(s.drop_first())
    }
}

/// A text as a JSON string.
pub open spec fn quoted(s: Seq<char>) -> Seq<char> {
    seq!['"'] + escape(s) + seq!['"']
}

pub open spec fn opt_quoted(o: Option<Seq<char>>) -> Seq<char> {
    match o {
        Some(s) => quoted(s),
        None => seq!['n', 'u', 'l', 'l'],
    }
}

pub open spec fn color_json(o: Option<TextBoxColor>) -> Seq<char> {
    match o {
        Some(c) => quoted(c.variant_name()),
        None => seq!['n', 'u', 'l', 'l'],
    }
}

/// The JSON object of a block.
pub open spec fn block_json(b: BlockView) -> Seq<char> {
    match b {
        BlockView::Paragraph { body_text } => P_PARAGRAPH@ + quoted(body_text) + seq!['}'],
        BlockView::Image { id, caption } => P_IMAGE@ + quoted(id) + K_CAPTION@ + quoted(caption) + seq!['}'],
        BlockView::Quote { quote, citation } => P_QUOTE@ + quoted(quote) + K_CITATION@ + quoted(
            citation,
        ) + seq!['}'],
        BlockView::Heading { heading } => P_HEADING@ + quoted(heading) + seq!['}'],
        BlockView::RawHtml { html } => P_RAW_HTML@ + quoted(html) + seq!['}'],
        BlockView::YouTube { video_link, caption } => P_YOUTUBE@ + quoted(video_link) + K_CAPTION@
            + opt_quoted(caption) + seq!['}'],
        BlockView::TextBox { text, color } => P_TEXT_BOX@ + quoted(text) + K_COLOR@ + color_json(color)
            + seq!['}'],
    }
}

/// The objects of blocks, separated by commas.
pub open spec fn block_list_json(bs: Seq<BlockView>) -> Seq<char>
    decreases bs.len(),
{
    if bs.len() == 0 {
        Seq::empty()
    } else if bs.len() == 1 {
        block_json(bs[0])
    } else {
        block_json(bs[0]) + seq![','] + block_list_json(bs.drop_first())
    }
}

/// The stored form of a block sequence: a JSON array of its objects.
pub open spec fn blocks_json(bs: Seq<BlockView>) -> Seq<char> {
    seq!['['] + block_list_json(bs) + seq![']']
}

/// Whether `lit` stands in `t` at `p`.
pub open spec fn has_lit(t: Seq<char>, p: int, lit: Seq<char>) -> bool {
    0 <= p && p + lit.len() <= t.len() && t.subrange(p, p + lit.len()) == lit
}

pub open spec fn hex_value(c: char) -> Option<int> {
    if c == '0' {
        Some(0)
    } else
    if c == '1' {
        Some(1)
    } else
    if c == '2' {
        Some(2)
    } else
    if c == '3' {
        Some(3)
    } else
    if c == '4' {
        Some(4)
    } else
    if c == '5' {
        Some(5)
    } else
    if c == '6' {
        Some(6)
    } else
    if c == '7' {
        Some(7)
    } else
    if c == '8' {
        Some(8)
    } else
    if c == '9' {
        Some(9)
    } else
    if c == 'a' {
        Some(10)
    } else
    if c == 'b' {
        Some(11)
    } else
    if c == 'c' {
        Some(12)
    } else
    if c == 'd' {
        Some(13)
    } else
    if c == 'e' {
        Some(14)
    } else
    if c == 'f' {
        Some(15)
    } else {
        None
    }
}

/// The character that the escape starting at `p` (a backslash) stands for,
/// and where the escape ends. Only the escapes that `escape_char` writes are
/// read.
pub open spec fn unescape_at(t: Seq<char>, p: int) -> Option<(char, int)> {
    if p < 0 || p + 1 >= t.len() {
        None
    } else {
        let e = t[p + 1];
        if e == '"' {
            Some(('"', p + 2))
        } else if e == '\\' {
            Some(('\\', p + 2))
        } else if e == 'n' {
            Some(('\n', p + 2))
        } else if e == 'r' {
            Some(('\r', p + 2))
        } else if e == 't' {
            Some(('\t', p + 2))
        } else if e == 'b' {
            Some(('\u{8}', p + 2))
        } else if e == 'f' {
            Some(('\u{c}', p + 2))
        } else if e == 'u' && p + 5 < t.len() && t[p + 2] == '0' && t[p + 3] == '0' && hex_value(
            t[p + 4],
        ) is Some && hex_value(t[p + 5]) is Some {
            let v = hex_value(t[p + 4]).unwrap() * 16 + hex_value(t[p + 5]).unwrap();
            if v < 32 && v != 8 && v != 9 && v != 10 && v != 12 && v != 13 {
                Some((ctl(v), p + 6))
            } else {
                None
            }
        } else {
            None
        }
    }
}

/// Reads the rest of a string from `p`, after what was read into `acc`, up to
/// and including its closing quote.
pub open spec fn scan_string(t: Seq<char>, p: int, acc: Seq<char>) -> Option<(Seq<char>, int)>
    decreases t.len() - p,
{
    if p < 0 || p >= t.len() {
        None
    } else if t[p] == '"' {
        Some((acc, p + 1))
    } else if t[p] == '\\' {
        match unescape_at(t, p) {
            Some((c, q)) => if p < q {
                scan_string(t, q, acc.push(c))
            } else {
                None
            },
            None => None,
        }
    } else if (t[p] as u32) < 32 {
        None
    } else {
        scan_string(t, p + 1, acc.push(t[p]))
    }
}

/// The string that starts at `p`, and where it ends.
pub open spec fn parse_string_at(t: Seq<char>, p: int) -> Option<(Seq<char>, int)> {
    if has_lit(t, p, seq!['"']) {
        scan_string(t, p + 1, Seq::empty())
    } else {
        None
    }
}

/// The string that follows the literal `key` at `p`, and where it ends.
pub open spec fn string_after(t: Seq<char>, p: int, key: Seq<char>) -> Option<(Seq<char>, int)> {
    if has_lit(t, p, key) {
        parse_string_at(t, p + key.len())
    } else {
        None
    }
}

/// A string or `null` at `p`.
pub open spec fn parse_opt_string_at(t: Seq<char>, p: int) -> Option<(Option<Seq<char>>, int)> {
    if has_lit(t, p, seq!['n', 'u', 'l', 'l']) {
        Some((None, p + 4))
    } else {
        match parse_string_at(t, p) {
            Some((s, q)) => Some((Some(s), q)),
            None => None,
        }
    }
}

pub open spec fn color_named(s: Seq<char>) -> Option<TextBoxColor> {
    if s == "Grey"@ {
        Some(TextBoxColor::Grey)
    } else if s == "Blue"@ {
        Some(TextBoxColor::Blue)
    } else if s == "Green"@ {
        Some(TextBoxColor::Green)
    } else if s == "Red"@ {
        Some(TextBoxColor::Red)
    } else if s == "Yellow"@ {
        Some(TextBoxColor::Yellow)
    } else {
        None
    }
}

/// A colour name or `null` at `p`.
pub open spec fn parse_color_at(t: Seq<char>, p: int) -> Option<(Option<TextBoxColor>, int)> {
    if has_lit(t, p, seq!['n', 'u', 'l', 'l']) {
        Some((None, p + 4))
    } else {
        match parse_string_at(t, p) {
            Some((s, q)) => match color_named(s) {
                Some(c) => Some((Some(c), q)),
                None => None,
            },
            None => None,
        }
    }
}

/// Closes an object at `p`.
pub open spec fn close_at(t: Seq<char>, b: BlockView, p: int) -> Option<(BlockView, int)> {
    if has_lit(t, p, seq!['}']) {
        Some((b, p + 1))
    } else {
        None
    }
}

/// Closes an image object at `p`, after an optional null `image_data`
/// member.
pub open spec fn close_image_at(t: Seq<char>, b: BlockView, p: int) -> Option<(BlockView, int)> {
    if has_lit(t, p, K_IMAGE_DATA_NULL@) {
        close_at(t, b, p + K_IMAGE_DATA_NULL@.len())
    } else {
        close_at(t, b, p)
    }
}

/// The block whose object starts at `p`, and where the object ends.
pub open spec fn parse_block_at(t: Seq<char>, p: int) -> Option<(BlockView, int)> {
    if has_lit(t, p, P_PARAGRAPH@) {
        match parse_string_at(t, p + P_PARAGRAPH@.len()) {
            Some((x, q)) => close_at(t, BlockView::Paragraph { body_text: x }, q),
            None => None,
        }
    } else if has_lit(t, p, P_IMAGE@) {
        match parse_string_at(t, p + P_IMAGE@.len()) {
            Some((x, q)) => match string_after(t, q, K_CAPTION@) {
                Some((y, q2)) => close_image_at(t, BlockView::Image { id: x, caption: y }, q2),
                None => None,
            },
            None => None,
        }
    } else if has_lit(t, p, P_QUOTE@) {
        match parse_string_at(t, p + P_QUOTE@.len()) {
            Some((x, q)) => match string_after(t, q, K_CITATION@) {
                Some((y, q2)) => close_at(t, BlockView::Quote { quote: x, citation: y }, q2),
                None => None,
            },
            None => None,
        }
    } else if has_lit(t, p, P_HEADING@) {
        match parse_string_at(t, p + P_HEADING@.len()) {
            Some((x, q)) => close_at(t, BlockView::Heading { heading: x }, q),
            None => None,
        }
    } else if has_lit(t, p, P_RAW_HTML@) {
        match parse_string_at(t, p + P_RAW_HTML@.len()) {
            Some((x, q)) => close_at(t, BlockView::RawHtml { html: x }, q),
            None => None,
        }
    } else if has_lit(t, p, P_YOUTUBE@) {
        match parse_string_at(t, p + P_YOUTUBE@.len()) {
            Some((x, q)) => if has_lit(t, q, K_CAPTION@) {
                match parse_opt_string_at(t, q + K_CAPTION@.len()) {
                    Some((y, q2)) => close_at(t, BlockView::YouTube { video_link: x, caption: y }, q2),
                    None => None,
                }
            } else {
                None
            },
            None => None,
        }
    } else if has_lit(t, p, P_TEXT_BOX@) {
        match parse_string_at(t, p + P_TEXT_BOX@.len()) {
            Some((x, q)) => if has_lit(t, q, K_COLOR@) {
                match parse_color_at(t, q + K_COLOR@.len()) {
                    Some((c, q2)) => close_at(t, BlockView::TextBox { text: x, color: c }, q2),
                    None => None,
                }
            } else {
                None
            },
            None => None,
        }
    } else {
        None
    }
}

/// Reads the objects from `p` to the end of the array, after those already
/// read into `acc`.
pub open spec fn parse_items(t: Seq<char>, p: int, acc: Seq<BlockView>) -> Option<Seq<BlockView>>
    decreases t.len() - p,
{
    match parse_block_at(t, p) {
        Some((b, q)) => if p < q && q <= t.len() {
            if has_lit(t, q, seq![',']) {
                parse_items(t, q + 1, acc.push(b))
            } else if has_lit(t, q, seq![']']) && q + 1 == t.len() {
                Some(acc.push(b))
            } else {
                None
            }
        } else {
            None
        },
        None => None,
    }
}

/// The block sequence that a stored text holds, if it is one.
pub open spec fn parse_blocks(t: Seq<char>) -> Option<Seq<BlockView>> {
    if has_lit(t, 0, seq!['[', ']']) && t.len() == 2 {
        Some(Seq::empty())
    } else if has_lit(t, 0, seq!['[']) {
        parse_items(t, 1, Seq::empty())
    } else {
        None
    }
}

proof fn lemma_has_lit_concat(t: Seq<char>, p: int, a: Seq<char>, b: Seq<char>)
    requires
        has_lit(t, p, a + b),
    ensures
        has_lit(t, p, a),
        has_lit(t, p + a.len(), b),
{
    let whole = t.subrange(p, p + (a + b).len());
    assert forall|i: int| 0 <= i < a.len() implies t.subrange(p, p + a.len())[i] == a[i] by {
        assert(whole[i] == (a + b)[i]);
    }
    assert forall|i: int| 0 <= i < b.len() implies t.subrange(p + a.len(), p + a.len() + b.len())[i]
        == b[i] by {
        assert(whole[a.len() + i] == (a + b)[a.len() + i]);
    }
    assert(t.subrange(p, p + a.len()) =~= a);
    assert(t.subrange(p + a.len(), p + a.len() + b.len()) =~= b);
}

proof fn lemma_lit_differs(t: Seq<char>, p: int, a: Seq<char>, b: Seq<char>, i: int)
    requires
        has_lit(t, p, a),
        0 <= i < a.len(),
        i < b.len(),
        a[i] != b[i],
    ensures
        !has_lit(t, p, b),
{
    assert(t.subrange(p, p + a.len())[i] == t[p + i]);
    if has_lit(t, p, b) {
        assert(t.subrange(p, p + b.len())[i] == t[p + i]);
    }
}

proof fn lemma_hex(n: int)
    requires
        0 <= n < 16,
    ensures
        hex_value(hex_char(n)) == Some(n),
{
}

proof fn lemma_ctl(c: char)
    requires
        (c as u32) < 32,
    ensures
        ctl((c as u32) as int) == c,
{
}

/// One escaped character is read back as that character.
proof fn lemma_escape_step(t: Seq<char>, p: int, c: char, acc: Seq<char>)
    requires
        has_lit(t, p, escape_char(c)),
        p + escape_char(c).len() < t.len(),
    ensures
        scan_string(t, p, acc) == scan_string(t, p + escape_char(c).len(), acc.push(c)),
{
    let e = escape_char(c);
    assert forall|j: int| 0 <= j < e.len() implies t[p + j] == e[j] by {
        assert(t.subrange(p, p + e.len())[j] == t[p + j]);
    }
    if c == '"' || c == '\\' || c == '\n' || c == '\r' || c == '\t' || c == '\u{8}' || c == '\u{c}' {
        assert(e.len() == 2);
        assert(t[p] == '\\');
        assert(t[p + 1] == e[1]);
        assert(unescape_at(t, p) == Some((c, p + 2)));
    } else if (c as u32) < 32 {
        let v = (c as u32) as int;
        lemma_hex(v / 16);
        lemma_hex(v % 16);
        lemma_ctl(c);
        assert(v / 16 * 16 + v % 16 == v);
        assert(e.len() == 6);
        assert(t[p] == '\\');
        assert(t[p + 1] == 'u');
        assert(t[p + 2] == '0');
        assert(t[p + 3] == '0');
        assert(t[p + 4] == hex_char(v / 16));
        assert(t[p + 5] == hex_char(v % 16));
        assert(unescape_at(t, p) == Some((c, p + 6)));
    } else {
        assert(e == seq![c]);
        assert(t.subrange(p, p + e.len())[0] == t[p]);
        assert(t[p] == c);
    }
}

/// An escaped text followed by a closing quote is read back as the text.
proof fn lemma_scan(t: Seq<char>, p: int, x: Seq<char>, acc: Seq<char>)
    requires
        has_lit(t, p, escape(x).push('"')),
    ensures
        scan_string(t, p, acc) == Some((acc + x, p + escape(x).len() + 1)),
    decreases x.len(),
{
    if x.len() == 0 {
        assert(t.subrange(p, p + 1)[0] == t[p]);
        assert(acc + x =~= acc);
    } else {
        let c = x[0];
        let e = escape_char(c);
        let rest = x.drop_first();
        assert(escape(x) == e + escape(rest));
        assert(escape(x).push('"') =~= e + escape(rest).push('"'));
        lemma_has_lit_concat(t, p, e, escape(rest).push('"'));
        lemma_scan(t, p + e.len(), rest, acc.push(c));
        assert(acc.push(c) + rest =~= acc + x);
        lemma_escape_step(t, p, c, acc);
    }
}

proof fn lemma_parse_string(t: Seq<char>, p: int, x: Seq<char>)
    requires
        has_lit(t, p, quoted(x)),
    ensures
        parse_string_at(t, p) == Some((x, p + quoted(x).len())),
{
    assert(quoted(x) =~= seq!['"'] + escape(x).push('"'));
    lemma_has_lit_concat(t, p, seq!['"'], escape(x).push('"'));
    lemma_scan(t, p + 1, x, Seq::empty());
    assert(Seq::<char>::empty() + x =~= x);
}

proof fn lemma_parse_opt_string(t: Seq<char>, p: int, o: Option<Seq<char>>)
    requires
        has_lit(t, p, opt_quoted(o)),
    ensures
        parse_opt_string_at(t, p) == Some((o, p + opt_quoted(o).len())),
{
    match o {
        Some(x) => {
            lemma_parse_string(t, p, x);
            lemma_lit_differs(t, p, quoted(x), seq!['n', 'u', 'l', 'l'], 0);
        },
        None => {},
    }
}

proof fn lemma_parse_color(t: Seq<char>, p: int, o: Option<TextBoxColor>)
    requires
        has_lit(t, p, color_json(o)),
    ensures
        parse_color_at(t, p) == Some((o, p + color_json(o).len())),
{
    match o {
        Some(c) => {
            lemma_parse_string(t, p, c.variant_name());
            lemma_lit_differs(t, p, quoted(c.variant_name()), seq!['n', 'u', 'l', 'l'], 0);
            reveal_strlit("Grey");
            reveal_strlit("Blue");
            reveal_strlit("Green");
            reveal_strlit("Red");
            reveal_strlit("Yellow");
            assert("Grey"@[0] != "Blue"@[0]);
            assert("Grey"@.len() != "Green"@.len());
            assert(color_named(c.variant_name()) == Some(c));
        },
        None => {},
    }
}

/// A block's object is read back as that block, up to its end.
proof fn lemma_parse_block(t: Seq<char>, p: int, b: BlockView)
    requires
        has_lit(t, p, block_json(b)),
    ensures
        parse_block_at(t, p) == Some((b, p + block_json(b).len())),
{
    reveal_strlit("{\"type\":\"Paragraph\",\"body_text\":");
    reveal_strlit("{\"type\":\"Image\",\"id\":");
    reveal_strlit("{\"type\":\"Quote\",\"quote\":");
    reveal_strlit("{\"type\":\"Heading\",\"heading\":");
    reveal_strlit("{\"type\":\"RawHtml\",\"html\":");
    reveal_strlit("{\"type\":\"YouTube\",\"video_link\":");
    reveal_strlit("{\"type\":\"TextBox\",\"text\":");
    reveal_strlit(",\"caption\":");
    reveal_strlit(",\"citation\":");
    reveal_strlit(",\"color\":");
    reveal_strlit(",\"image_data\":null");
    match b {
        BlockView::Paragraph { body_text } => {
            lemma_has_lit_concat(t, p, (P_PARAGRAPH@ + quoted(body_text)), seq!['}']);
            lemma_has_lit_concat(t, p, P_PARAGRAPH@, quoted(body_text));
            lemma_parse_string(t, p + P_PARAGRAPH@.len(), body_text);
        },
        BlockView::Image { id, caption } => {
            lemma_has_lit_concat(t, p, (((P_IMAGE@ + quoted(id)) + K_CAPTION@) + quoted(caption)), seq!['}']);
            lemma_has_lit_concat(t, p, ((P_IMAGE@ + quoted(id)) + K_CAPTION@), quoted(caption));
            lemma_has_lit_concat(t, p, (P_IMAGE@ + quoted(id)), K_CAPTION@);
            lemma_has_lit_concat(t, p, P_IMAGE@, quoted(id));
            lemma_lit_differs(t, p, P_IMAGE@, P_PARAGRAPH@, 9);
            lemma_parse_string(t, p + P_IMAGE@.len(), id);
            lemma_parse_string(t, p + ((P_IMAGE@ + quoted(id)) + K_CAPTION@).len(), caption);
            lemma_lit_differs(
                t,
                p + (((P_IMAGE@ + quoted(id)) + K_CAPTION@) + quoted(caption)).len(),
                seq!['}'],
                K_IMAGE_DATA_NULL@,
                0,
            );
        },
        BlockView::Quote { quote, citation } => {
            lemma_has_lit_concat(t, p, (((P_QUOTE@ + quoted(quote)) + K_CITATION@) + quoted(citation)), seq!['}']);
            lemma_has_lit_concat(t, p, ((P_QUOTE@ + quoted(quote)) + K_CITATION@), quoted(citation));
            lemma_has_lit_concat(t, p, (P_QUOTE@ + quoted(quote)), K_CITATION@);
            lemma_has_lit_concat(t, p, P_QUOTE@, quoted(quote));
            lemma_lit_differs(t, p, P_QUOTE@, P_PARAGRAPH@, 9);
            lemma_lit_differs(t, p, P_QUOTE@, P_IMAGE@, 9);
            lemma_parse_string(t, p + P_QUOTE@.len(), quote);
            lemma_parse_string(t, p + ((P_QUOTE@ + quoted(quote)) + K_CITATION@).len(), citation);
        },
        BlockView::Heading { heading } => {
            lemma_has_lit_concat(t, p, (P_HEADING@ + quoted(heading)), seq!['}']);
            lemma_has_lit_concat(t, p, P_HEADING@, quoted(heading));
            lemma_lit_differs(t, p, P_HEADING@, P_PARAGRAPH@, 9);
            lemma_lit_differs(t, p, P_HEADING@, P_IMAGE@, 9);
            lemma_lit_differs(t, p, P_HEADING@, P_QUOTE@, 9);
            lemma_parse_string(t, p + P_HEADING@.len(), heading);
        },
        BlockView::RawHtml { html } => {
            lemma_has_lit_concat(t, p, (P_RAW_HTML@ + quoted(html)), seq!['}']);
            lemma_has_lit_concat(t, p, P_RAW_HTML@, quoted(html));
            lemma_lit_differs(t, p, P_RAW_HTML@, P_PARAGRAPH@, 9);
            lemma_lit_differs(t, p, P_RAW_HTML@, P_IMAGE@, 9);
            lemma_lit_differs(t, p, P_RAW_HTML@, P_QUOTE@, 9);
            lemma_lit_differs(t, p, P_RAW_HTML@, P_HEADING@, 9);
            lemma_parse_string(t, p + P_RAW_HTML@.len(), html);
        },
        BlockView::YouTube { video_link, caption } => {
            lemma_has_lit_concat(t, p, (((P_YOUTUBE@ + quoted(video_link)) + K_CAPTION@) + opt_quoted(caption)), seq!['}']);
            lemma_has_lit_concat(t, p, ((P_YOUTUBE@ + quoted(video_link)) + K_CAPTION@), opt_quoted(caption));
            lemma_has_lit_concat(t, p, (P_YOUTUBE@ + quoted(video_link)), K_CAPTION@);
            lemma_has_lit_concat(t, p, P_YOUTUBE@, quoted(video_link));
            lemma_lit_differs(t, p, P_YOUTUBE@, P_PARAGRAPH@, 9);
            lemma_lit_differs(t, p, P_YOUTUBE@, P_IMAGE@, 9);
            lemma_lit_differs(t, p, P_YOUTUBE@, P_QUOTE@, 9);
            lemma_lit_differs(t, p, P_YOUTUBE@, P_HEADING@, 9);
            lemma_lit_differs(t, p, P_YOUTUBE@, P_RAW_HTML@, 9);
            lemma_parse_string(t, p + P_YOUTUBE@.len(), video_link);
            lemma_parse_opt_string(t, p + ((P_YOUTUBE@ + quoted(video_link)) + K_CAPTION@).len(), caption);
        },
        BlockView::TextBox { text, color } => {
            lemma_has_lit_concat(t, p, (((P_TEXT_BOX@ + quoted(text)) + K_COLOR@) + color_json(color)), seq!['}']);
            lemma_has_lit_concat(t, p, ((P_TEXT_BOX@ + quoted(text)) + K_COLOR@), color_json(color));
            lemma_has_lit_concat(t, p, (P_TEXT_BOX@ + quoted(text)), K_COLOR@);
            lemma_has_lit_concat(t, p, P_TEXT_BOX@, quoted(text));
            lemma_lit_differs(t, p, P_TEXT_BOX@, P_PARAGRAPH@, 9);
            lemma_lit_differs(t, p, P_TEXT_BOX@, P_IMAGE@, 9);
            lemma_lit_differs(t, p, P_TEXT_BOX@, P_QUOTE@, 9);
            lemma_lit_differs(t, p, P_TEXT_BOX@, P_HEADING@, 9);
            lemma_lit_differs(t, p, P_TEXT_BOX@, P_RAW_HTML@, 9);
            lemma_lit_differs(t, p, P_TEXT_BOX@, P_YOUTUBE@, 9);
            lemma_parse_string(t, p + P_TEXT_BOX@.len(), text);
            lemma_parse_color(t, p + ((P_TEXT_BOX@ + quoted(text)) + K_COLOR@).len(), color);
        },
    }
}

proof fn lemma_block_json_nonempty(b: BlockView)
    ensures
        block_json(b).len() > 0,
{
}

/// The objects of a non-empty block list, followed by the closing bracket at
/// the end of the text, are read back as the list.
proof fn lemma_parse_items(t: Seq<char>, p: int, bs: Seq<BlockView>, acc: Seq<BlockView>)
    requires
        bs.len() >= 1,
        has_lit(t, p, block_list_json(bs) + seq![']']),
        p + block_list_json(bs).len() + 1 == t.len(),
    ensures
        parse_items(t, p, acc) == Some(acc + bs),
    decreases bs.len(),
{
    let b = bs[0];
    let bj = block_json(b);
    lemma_block_json_nonempty(b);
    if bs.len() == 1 {
        assert(block_list_json(bs) == bj);
        lemma_has_lit_concat(t, p, bj, seq![']']);
        lemma_parse_block(t, p, b);
        lemma_lit_differs(t, p + bj.len(), seq![']'], seq![','], 0);
        assert(acc.push(b) =~= acc + bs);
    } else {
        let rest = bs.drop_first();
        assert(block_list_json(bs) == bj + seq![','] + block_list_json(rest));
        assert(block_list_json(bs) + seq![']'] =~= bj + (seq![','] + (block_list_json(rest) + seq![
            ']',
        ])));
        lemma_has_lit_concat(t, p, bj, seq![','] + (block_list_json(rest) + seq![']']));
        lemma_has_lit_concat(t, p + bj.len(), seq![','], block_list_json(rest) + seq![']']);
        lemma_parse_block(t, p, b);
        lemma_parse_items(t, p + bj.len() + 1, rest, acc.push(b));
        assert(acc.push(b) + rest =~= acc + bs);
    }
}

proof fn lemma_list_nonempty(bs: Seq<BlockView>)
    requires
        bs.len() >= 1,
    ensures
        block_list_json(bs).len() > 0,
{
    lemma_block_json_nonempty(bs[0]);
    if bs.len() > 1 {
        assert(block_list_json(bs) == block_json(bs[0]) + seq![','] + block_list_json(bs.drop_first()));
    }
}

/// Reading back the stored form of a block sequence gives the sequence.
pub proof fn lemma_round_trip(bs: Seq<BlockView>)
    ensures
        parse_blocks(blocks_json(bs)) == Some(bs),
{
    let t = blocks_json(bs);
    if bs.len() == 0 {
        assert(block_list_json(bs) == Seq::<char>::empty());
        assert(t =~= seq!['[', ']']);
        assert(t.subrange(0, 2) =~= seq!['[', ']']);
    } else {
        lemma_list_nonempty(bs);
        assert(t =~= seq!['['] + (block_list_json(bs) + seq![']']));
        assert(t.subrange(0, t.len() as int) =~= t);
        lemma_has_lit_concat(t, 0, seq!['['], block_list_json(bs) + seq![']']);
        lemma_parse_items(t, 1, bs, Seq::empty());
        assert(Seq::<BlockView>::empty() + bs =~= bs);
    }
}

/// Relies on String::push: the character is added at the end.
#[verifier::external_body]
fn push_char(s: &mut String, c: char)
    ensures
        final(s)@ == old(s)@.push(c),
{
    s.push(c)
}

fn hex_digit(n: u32) -> (r: char)
    requires
        n < 16,
    ensures
        r == hex_char(n as int),
{
    if n == 0 {
        '0'
    } else
    if n == 1 {
        '1'
    } else
    if n == 2 {
        '2'
    } else
    if n == 3 {
        '3'
    } else
    if n == 4 {
        '4'
    } else
    if n == 5 {
        '5'
    } else
    if n == 6 {
        '6'
    } else
    if n == 7 {
        '7'
    } else
    if n == 8 {
        '8'
    } else
    if n == 9 {
        '9'
    } else
    if n == 10 {
        'a'
    } else
    if n == 11 {
        'b'
    } else
    if n == 12 {
        'c'
    } else
    if n == 13 {
        'd'
    } else
    if n == 14 {
        'e'
    } else {
        'f'
    }
}

fn control_char(v: u32) -> (r: char)
    requires
        v < 32,
    ensures
        r == ctl(v as int),
{
    if v == 0 {
        '\u{0}'
    } else
    if v == 1 {
        '\u{1}'
    } else
    if v == 2 {
        '\u{2}'
    } else
    if v == 3 {
        '\u{3}'
    } else
    if v == 4 {
        '\u{4}'
    } else
    if v == 5 {
        '\u{5}'
    } else
    if v == 6 {
        '\u{6}'
    } else
    if v == 7 {
        '\u{7}'
    } else
    if v == 8 {
        '\u{8}'
    } else
    if v == 9 {
        '\u{9}'
    } else
    if v == 10 {
        '\u{a}'
    } else
    if v == 11 {
        '\u{b}'
    } else
    if v == 12 {
        '\u{c}'
    } else
    if v == 13 {
        '\u{d}'
    } else
    if v == 14 {
        '\u{e}'
    } else
    if v == 15 {
        '\u{f}'
    } else
    if v == 16 {
        '\u{10}'
    } else
    if v == 17 {
        '\u{11}'
    } else
    if v == 18 {
        '\u{12}'
    } else
    if v == 19 {
        '\u{13}'
    } else
    if v == 20 {
        '\u{14}'
    } else
    if v == 21 {
        '\u{15}'
    } else
    if v == 22 {
        '\u{16}'
    } else
    if v == 23 {
        '\u{17}'
    } else
    if v == 24 {
        '\u{18}'
    } else
    if v == 25 {
        '\u{19}'
    } else
    if v == 26 {
        '\u{1a}'
    } else
    if v == 27 {
        '\u{1b}'
    } else
    if v == 28 {
        '\u{1c}'
    } else
    if v == 29 {
        '\u{1d}'
    } else
    if v == 30 {
        '\u{1e}'
    } else {
        '\u{1f}'
    }
}

fn hex_val(c: char) -> (r: Option<u32>)
    ensures
        match hex_value(c) {
            Some(v) => r == Some(v as u32),
            None => r is None,
        },
{
    if c == '0' {
        Some(0u32)
    } else
    if c == '1' {
        Some(1u32)
    } else
    if c == '2' {
        Some(2u32)
    } else
    if c == '3' {
        Some(3u32)
    } else
    if c == '4' {
        Some(4u32)
    } else
    if c == '5' {
        Some(5u32)
    } else
    if c == '6' {
        Some(6u32)
    } else
    if c == '7' {
        Some(7u32)
    } else
    if c == '8' {
        Some(8u32)
    } else
    if c == '9' {
        Some(9u32)
    } else
    if c == 'a' {
        Some(10u32)
    } else
    if c == 'b' {
        Some(11u32)
    } else
    if c == 'c' {
        Some(12u32)
    } else
    if c == 'd' {
        Some(13u32)
    } else
    if c == 'e' {
        Some(14u32)
    } else
    if c == 'f' {
        Some(15u32)
    } else {
        None
    }
}

proof fn lemma_escape_push(a: Seq<char>, c: char)
    ensures
        escape(a.push(c)) == escape(a) + escape_char(c),
    decreases a.len(),
{
    if a.len() == 0 {
        assert(a.push(c).drop_first() =~= Seq::<char>::empty());
        assert(a.push(c)[0] == c);
        assert(escape(a.push(c)) == escape_char(c) + escape(a.push(c).drop_first()));
        assert(escape(a) == Seq::<char>::empty());
        assert(escape(a.push(c)) =~= escape(a) + escape_char(c));
    } else {
        lemma_escape_push(a.drop_first(), c);
        assert(a.push(c).drop_first() =~= a.drop_first().push(c));
        assert(a.push(c)[0] == a[0]);
        assert(escape(a.push(c)) == escape_char(a[0]) + escape(a.drop_first().push(c)));
        assert(escape(a) == escape_char(a[0]) + escape(a.drop_first()));
        assert(escape(a.push(c)) =~= escape(a) + escape_char(c));
    }
}

fn push_escaped(out: &mut String, c: char)
    ensures
        final(out)@ == old(out)@ + escape_char(c),
{
    let ghost start = out@;
    if c == '"' || c == '\\' || c == '\n' || c == '\r' || c == '\t' || c == '\u{8}' || c == '\u{c}' {
        let code = if c == '"' {
            '"'
        } else if c == '\\' {
            '\\'
        } else if c == '\n' {
            'n'
        } else if c == '\r' {
            'r'
        } else if c == '\t' {
            't'
        } else if c == '\u{8}' {
            'b'
        } else {
            'f'
        };
        push_char(out, '\\');
        push_char(out, code);
        assert(out@ =~= start + escape_char(c));
    } else if (c as u32) < 32 {
        let v = c as u32;
        push_char(out, '\\');
        push_char(out, 'u');
        push_char(out, '0');
        push_char(out, '0');
        push_char(out, hex_digit(v / 16));
        push_char(out, hex_digit(v % 16));
        assert(out@ =~= start + escape_char(c));
    } else {
        push_char(out, c);
        assert(out@ =~= start + escape_char(c));
    }
}

fn push_quoted(out: &mut String, s: &str)
    ensures
        final(out)@ == old(out)@ + quoted(s@),
{
    let ghost start = out@;
    push_char(out, '"');
    let mut it = s.chars();
    let ghost mut done: Seq<char> = Seq::empty();
    loop
        invariant
            done + it.remaining() == s@,
            out@ == start + seq!['"'] + escape(done),
        ensures
            done == s@,
            out@ == start + seq!['"'] + escape(done),
        decreases s@.len() - done.len(),
    {
        match it.next() {
            Some(ch) => {
                proof {
                    lemma_escape_push(done, ch);
                }
                push_escaped(out, ch);
                proof {
                    assert(done.push(ch) + it.remaining() =~= s@);
                    done = done.push(ch);
                }
            },
            None => {
                assert(done =~= s@);
                break;
            },
        }
    }
    push_char(out, '"');
    assert(out@ =~= start + quoted(s@));
}

fn push_null(out: &mut String)
    ensures
        final(out)@ == old(out)@ + seq!['n', 'u', 'l', 'l'],
{
    let ghost start = out@;
    push_char(out, 'n');
    push_char(out, 'u');
    push_char(out, 'l');
    push_char(out, 'l');
    assert(out@ =~= start + seq!['n', 'u', 'l', 'l']);
}

fn push_block(out: &mut String, b: &Block)
    ensures
        final(out)@ == old(out)@ + block_json(b@),
{
    let ghost start = out@;
    match b {
            Block::Paragraph { body_text } => {
                out.append(P_PARAGRAPH);
                push_quoted(out, body_text.as_str());
                push_char(out, '}');
            },
            Block::Image { id, caption } => {
                out.append(P_IMAGE);
                push_quoted(out, id.as_str());
                out.append(K_CAPTION);
                push_quoted(out, caption.as_str());
                push_char(out, '}');
            },
            Block::Quote { quote, citation } => {
                out.append(P_QUOTE);
                push_quoted(out, quote.as_str());
                out.append(K_CITATION);
                push_quoted(out, citation.as_str());
                push_char(out, '}');
            },
            Block::Heading { heading } => {
                out.append(P_HEADING);
                push_quoted(out, heading.as_str());
                push_char(out, '}');
            },
            Block::RawHtml { html } => {
                out.append(P_RAW_HTML);
                push_quoted(out, html.as_str());
                push_char(out, '}');
            },
            Block::YouTube { video_link, caption } => {
                out.append(P_YOUTUBE);
                push_quoted(out, video_link.as_str());
                out.append(K_CAPTION);
                match caption {
                    Some(c) => push_quoted(out, c.as_str()),
                    None => push_null(out),
                }
                push_char(out, '}');
            },
            Block::TextBox { text, color } => {
                out.append(P_TEXT_BOX);
                push_quoted(out, text.as_str());
                out.append(K_COLOR);
                match color {
                    Some(c) => push_quoted(out, c.variant_str()),
                    None => push_null(out),
                }
                push_char(out, '}');
            },
    }
    assert(out@ =~= start + block_json(b@));
}

proof fn lemma_list_push(s: Seq<BlockView>, b: BlockView)
    ensures
        block_list_json(s.push(b)) == if s.len() == 0 {
            block_json(b)
        } else {
            block_list_json(s) + seq![','] + block_json(b)
        },
    decreases s.len(),
{
    if s.len() == 1 {
        assert(s.push(b).drop_first() =~= seq![b]);
        assert(block_list_json(seq![b]) == block_json(b));
    } else if s.len() > 1 {
        lemma_list_push(s.drop_first(), b);
        assert(s.push(b).drop_first() =~= s.drop_first().push(b));
        assert(block_list_json(s.push(b)) =~= block_list_json(s) + seq![','] + block_json(b));
    }
}

/// The stored form of a block sequence.
pub fn encode_blocks(blocks: &Vec<Block>) -> (r: String)
    ensures
        r@ == blocks_json(blocks@.map_values(|b: Block| b@)),
{
    let ghost views = blocks@.map_values(|b: Block| b@);
    let mut out = String::new();
    push_char(&mut out, '[');
    let mut i: usize = 0;
    while i < blocks.len()
        invariant
            i <= blocks@.len(),
            views == blocks@.map_values(|b: Block| b@),
            out@ == seq!['['] + block_list_json(views.subrange(0, i as int)),
        decreases blocks.len() - i,
    {
        proof {
            lemma_list_push(views.subrange(0, i as int), views[i as int]);
            assert(views.subrange(0, i as int).push(views[i as int]) =~= views.subrange(0, i + 1));
        }
        if i > 0 {
            push_char(&mut out, ',');
        }
        push_block(&mut out, &blocks[i]);
        i += 1;
    }
    push_char(&mut out, ']');
    assert(views.subrange(0, blocks@.len() as int) =~= views);
    out
}

/// The characters of a text.
fn chars_of(s: &str) -> (r: Vec<char>)
    ensures
        r@ == s@,
{
    let mut it = s.chars();
    let mut out: Vec<char> = Vec::new();
    loop
        invariant
            out@ + it.remaining() == s@,
        ensures
            out@ == s@,
        decreases s@.len() - out@.len(),
    {
        match it.next() {
            Some(ch) => {
                out.push(ch);
                assert(out@ + it.remaining() =~= s@);
            },
            None => {
                assert(out@ =~= s@);
                break;
            },
        }
    }
    out
}

fn has_lit_exec(t: &Vec<char>, p: usize, lit: &str) -> (r: bool)
    ensures
        r == has_lit(t@, p as int, lit@),
{
    let n = lit.unicode_len();
    if p > t.len() || n > t.len() - p {
        return false;
    }
    let mut i: usize = 0;
    while i < n
        invariant
            n == lit@.len(),
            p + n <= t@.len(),
            t@.len() <= usize::MAX,
            i <= n,
            forall|j: int| 0 <= j < i ==> t@[p + j] == lit@[j],
        decreases n - i,
    {
        if t[p + i] != lit.get_char(i) {
            assert(t@.subrange(p as int, p + n)[i as int] == t@[p + i]);
            return false;
        }
        i += 1;
    }
    assert(t@.subrange(p as int, p + n) =~= lit@);
    true
}

fn has_char(t: &Vec<char>, p: usize, c: char) -> (r: bool)
    ensures
        r == has_lit(t@, p as int, seq![c]),
{
    if p < t.len() && t[p] == c {
        assert(t@.subrange(p as int, p + 1) =~= seq![c]);
        true
    } else {
        if p < t.len() {
            assert(t@.subrange(p as int, p + 1)[0] == t@[p as int]);
        }
        false
    }
}

fn unescape(t: &Vec<char>, p: usize) -> (r: Option<(char, usize)>)
    requires
        p < t@.len(),
    ensures
        match unescape_at(t@, p as int) {
            Some((c, q)) => r == Some((c, q as usize)) && p < q <= t@.len(),
            None => r is None,
        },
{
    let len = t.len();
    assert(t@.len() == len);
    if p + 1 >= t.len() {
        return None;
    }
    let e = t[p + 1];
    if e == '"' {
        Some(('"', p + 2))
    } else if e == '\\' {
        Some(('\\', p + 2))
    } else if e == 'n' {
        Some(('\n', p + 2))
    } else if e == 'r' {
        Some(('\r', p + 2))
    } else if e == 't' {
        Some(('\t', p + 2))
    } else if e == 'b' {
        Some(('\u{8}', p + 2))
    } else if e == 'f' {
        Some(('\u{c}', p + 2))
    } else if e == 'u' && len - p > 5 && t[p + 2] == '0' && t[p + 3] == '0' {
        let hi = match hex_val(t[p + 4]) {
            Some(v) => v,
            None => return None,
        };
        let lo = match hex_val(t[p + 5]) {
            Some(v) => v,
            None => return None,
        };
        let v = hi * 16 + lo;
        if v < 32 && v != 8 && v != 9 && v != 10 && v != 12 && v != 13 {
            Some((control_char(v), p + 6))
        } else {
            None
        }
    } else {
        None
    }
}

fn parse_string(t: &Vec<char>, p: usize) -> (r: Option<(String, usize)>)
    ensures
        match parse_string_at(t@, p as int) {
            Some((x, q)) => r matches Some((s, q2)) && s@ == x && q2 == q && q <= t@.len(),
            None => r is None,
        },
{
    let len = t.len();
    assert(t@.len() == len);
    if !has_char(t, p, '"') {
        return None;
    }
    let mut acc = String::new();
    let mut i: usize = p + 1;
    loop
        invariant
            p < i <= t@.len(),
            t@.len() <= usize::MAX,
            scan_string(t@, i as int, acc@) == parse_string_at(t@, p as int),
        decreases t@.len() - i,
    {
        if i >= t.len() {
            return None;
        }
        let c = t[i];
        if c == '"' {
            return Some((acc, i + 1));
        } else if c == '\\' {
            match unescape(t, i) {
                Some((d, q)) => {
                    push_char(&mut acc, d);
                    i = q;
                },
                None => return None,
            }
        } else if (c as u32) < 32 {
            return None;
        } else {
            push_char(&mut acc, c);
            i += 1;
        }
    }
}

fn parse_opt_string(t: &Vec<char>, p: usize) -> (r: Option<(Option<String>, usize)>)
    ensures
        match parse_opt_string_at(t@, p as int) {
            Some((x, q)) => r matches Some((s, q2)) && opt_view(s) == x && q2 == q && q <= t@.len(),
            None => r is None,
        },
{
    let len = t.len();
    assert(t@.len() == len);
    proof {
        reveal_strlit("null");
        assert("null"@ =~= seq!['n', 'u', 'l', 'l']);
    }
    if has_lit_exec(t, p, "null") {
        return Some((None, p + 4));
    }
    match parse_string(t, p) {
        Some((s, q)) => Some((Some(s), q)),
        None => None,
    }
}

fn parse_color(t: &Vec<char>, p: usize) -> (r: Option<(Option<TextBoxColor>, usize)>)
    ensures
        match parse_color_at(t@, p as int) {
            Some((x, q)) => r matches Some((c, q2)) && c == x && q2 == q && q <= t@.len(),
            None => r is None,
        },
{
    let len = t.len();
    assert(t@.len() == len);
    proof {
        reveal_strlit("null");
        assert("null"@ =~= seq!['n', 'u', 'l', 'l']);
    }
    if has_lit_exec(t, p, "null") {
        return Some((None, p + 4));
    }
    match parse_string(t, p) {
        Some((s, q)) => {
            let c = if s == "Grey".to_string() {
                TextBoxColor::Grey
            } else if s == "Blue".to_string() {
                TextBoxColor::Blue
            } else if s == "Green".to_string() {
                TextBoxColor::Green
            } else if s == "Red".to_string() {
                TextBoxColor::Red
            } else if s == "Yellow".to_string() {
                TextBoxColor::Yellow
            } else {
                return None;
            };
            Some((Some(c), q))
        },
        None => None,
    }
}

fn parse_block(t: &Vec<char>, p: usize) -> (r: Option<(Block, usize)>)
    ensures
        match parse_block_at(t@, p as int) {
            Some((b, q)) => r matches Some((blk, q2)) && blk@ == b && q2 == q && q <= t@.len(),
            None => r is None,
        },
{
    let len = t.len();
    assert(t@.len() == len);
    if has_lit_exec(t, p, P_PARAGRAPH) {
        let (x0, q0) = match parse_string(t, p + P_PARAGRAPH.unicode_len()) {
            Some(r) => r,
            None => return None,
        };
        if !has_char(t, q0, '}') {
            return None;
        }
        return Some((Block::Paragraph { body_text: x0 }, q0 + 1));
    }
    if has_lit_exec(t, p, P_IMAGE) {
        let (x0, q0) = match parse_string(t, p + P_IMAGE.unicode_len()) {
            Some(r) => r,
            None => return None,
        };
        if !has_lit_exec(t, q0, K_CAPTION) {
            return None;
        }
        let (x1, q1) = match parse_string(t, q0 + K_CAPTION.unicode_len()) {
            Some(r) => r,
            None => return None,
        };
        let q2 = if has_lit_exec(t, q1, K_IMAGE_DATA_NULL) {
            q1 + K_IMAGE_DATA_NULL.unicode_len()
        } else {
            q1
        };
        if !has_char(t, q2, '}') {
            return None;
        }
        return Some((Block::Image { id: x0, caption: x1 }, q2 + 1));
    }
    if has_lit_exec(t, p, P_QUOTE) {
        let (x0, q0) = match parse_string(t, p + P_QUOTE.unicode_len()) {
            Some(r) => r,
            None => return None,
        };
        if !has_lit_exec(t, q0, K_CITATION) {
            return None;
        }
        let (x1, q1) = match parse_string(t, q0 + K_CITATION.unicode_len()) {
            Some(r) => r,
            None => return None,
        };
        if !has_char(t, q1, '}') {
            return None;
        }
        return Some((Block::Quote { quote: x0, citation: x1 }, q1 + 1));
    }
    if has_lit_exec(t, p, P_HEADING) {
        let (x0, q0) = match parse_string(t, p + P_HEADING.unicode_len()) {
            Some(r) => r,
            None => return None,
        };
        if !has_char(t, q0, '}') {
            return None;
        }
        return Some((Block::Heading { heading: x0 }, q0 + 1));
    }
    if has_lit_exec(t, p, P_RAW_HTML) {
        let (x0, q0) = match parse_string(t, p + P_RAW_HTML.unicode_len()) {
            Some(r) => r,
            None => return None,
        };
        if !has_char(t, q0, '}') {
            return None;
        }
        return Some((Block::RawHtml { html: x0 }, q0 + 1));
    }
    if has_lit_exec(t, p, P_YOUTUBE) {
        let (x0, q0) = match parse_string(t, p + P_YOUTUBE.unicode_len()) {
            Some(r) => r,
            None => return None,
        };
        if !has_lit_exec(t, q0, K_CAPTION) {
            return None;
        }
        let (x1, q1) = match parse_opt_string(t, q0 + K_CAPTION.unicode_len()) {
            Some(r) => r,
            None => return None,
        };
        if !has_char(t, q1, '}') {
            return None;
        }
        return Some((Block::YouTube { video_link: x0, caption: x1 }, q1 + 1));
    }
    if has_lit_exec(t, p, P_TEXT_BOX) {
        let (x0, q0) = match parse_string(t, p + P_TEXT_BOX.unicode_len()) {
            Some(r) => r,
            None => return None,
        };
        if !has_lit_exec(t, q0, K_COLOR) {
            return None;
        }
        let (x1, q1) = match parse_color(t, q0 + K_COLOR.unicode_len()) {
            Some(r) => r,
            None => return None,
        };
        if !has_char(t, q1, '}') {
            return None;
        }
        return Some((Block::TextBox { text: x0, color: x1 }, q1 + 1));
    }
    None
}

/// The block sequence that a stored text holds; `None` where the text is not
/// the stored form of one.
pub fn decode_blocks(text: &str) -> (r: Option<Vec<Block>>)
    ensures
        match parse_blocks(text@) {
            Some(bs) => r matches Some(v) && v@.map_values(|b: Block| b@) == bs,
            None => r is None,
        },
{
    let t = chars_of(text);
    if t.len() == 2 && has_char(&t, 0, '[') && has_char(&t, 1, ']') {
        let ghost pair = seq!['[', ']'];
        assert(t@.subrange(0, 2) =~= pair) by {
            assert(t@.subrange(0, 1)[0] == t@[0]);
            assert(t@.subrange(1, 2)[0] == t@[1]);
        }
        let v: Vec<Block> = Vec::new();
        assert(v@.map_values(|b: Block| b@) =~= Seq::<BlockView>::empty());
        return Some(v);
    }
    proof {
        if has_lit(t@, 0, seq!['[', ']']) && t@.len() == 2 {
            assert(t@.subrange(0, 2)[0] == t@[0]);
            assert(t@.subrange(0, 2)[1] == t@[1]);
            assert(t@.subrange(0, 1) =~= seq!['[']);
            assert(t@.subrange(1, 2) =~= seq![']']);
        }
    }
    if !has_char(&t, 0, '[') {
        return None;
    }
    let mut acc: Vec<Block> = Vec::new();
    let mut p: usize = 1;
    assert(acc@.map_values(|b: Block| b@) =~= Seq::<BlockView>::empty());
    loop
        invariant
            p <= t@.len(),
            parse_items(t@, p as int, acc@.map_values(|b: Block| b@)) == parse_blocks(text@),
            t@ == text@,
        decreases t@.len() - p,
    {
        let ghost before = acc@.map_values(|b: Block| b@);
        let (b, q) = match parse_block(&t, p) {
            Some(r) => r,
            None => return None,
        };
        if !(p < q) {
            return None;
        }
        let ghost bv = b@;
        acc.push(b);
        assert(acc@.map_values(|b: Block| b@) =~= before.push(bv));
        if has_char(&t, q, ',') {
            p = q + 1;
        } else if has_char(&t, q, ']') && q + 1 == t.len() {
            return Some(acc);
        } else {
            return None;
        }
    }
}

} // verus!
