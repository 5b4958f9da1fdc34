//! Styled text lines produced by the renderers: each span carries its text and a style
//! expressed with the colour roles of the active theme.

use vstd::prelude::*;

verus! {

/// A colour role of the active theme, fixed black, or a colour given by red, green, blue.
#[derive(Debug, Clone, Copy, PartialEq, Eq, Structural)]
pub enum ThemeColor {
    Black,
    Rgb(u8, u8, u8),
    Border,
    TextPrimary,
    BgElevated,
    BgPrimary,
    Info,
    Highlight,
    BrandAccent,
    Muted,
    Success,
    Warning,
    Destructive,
}

/// Style of a span: foreground and optional background role, and text modifiers (bold,
/// underlined, italic, dimmed).
#[derive(Debug, Clone, Copy, PartialEq, Eq, Structural)]
pub struct SpanStyle {
    pub fg: Option<ThemeColor>,
    pub bg: Option<ThemeColor>,
    pub bold: bool,
    pub underlined: bool,
    pub italic: bool,
    pub dim: bool,
}

/// A run of text with one style.
#[derive(Debug, Clone)]
pub struct StyledSpan {
    pub text: String,
    pub style: SpanStyle,
}

/// One rendered line.
#[derive(Debug, Clone)]
pub struct StyledLine {
    pub spans: Vec<StyledSpan>,
}

/// Abstract view of a span: its characters and its style.
pub open spec fn span_view(s: StyledSpan) -> (Seq<char>, SpanStyle) {
    (s.text@, s.style)
}

/// Abstract view of a line: the views of its spans.
pub open spec fn line_view(l: StyledLine) -> Seq<(Seq<char>, SpanStyle)> {
    l.spans@.map_values(|s: StyledSpan| span_view(s))
}

/// Abstract view of a list of lines.
pub open spec fn lines_view(ls: Seq<StyledLine>) -> Seq<Seq<(Seq<char>, SpanStyle)>> {
    ls.map_values(|l: StyledLine| line_view(l))
}

/// Foreground-only style.
pub open spec fn fg(c: ThemeColor) -> SpanStyle {
    SpanStyle { fg: Some(c), bg: None, bold: false, underlined: false, italic: false, dim: false }
}

/// Bold foreground style.
pub open spec fn fg_bold(c: ThemeColor) -> SpanStyle {
    SpanStyle { fg: Some(c), bg: None, bold: true, underlined: false, italic: false, dim: false }
}

/// Unstyled text.
pub open spec fn plain_style() -> SpanStyle {
    SpanStyle { fg: None, bg: None, bold: false, underlined: false, italic: false, dim: false }
}

pub fn style_fg(c: ThemeColor) -> (s: SpanStyle)
    ensures
        s == fg(c),
{
    SpanStyle { fg: Some(c), bg: None, bold: false, underlined: false, italic: false, dim: false }
}

pub fn style_fg_bold(c: ThemeColor) -> (s: SpanStyle)
    ensures
        s == fg_bold(c),
{
    SpanStyle { fg: Some(c), bg: None, bold: true, underlined: false, italic: false, dim: false }
}

/// A span from characters and a style.
pub fn span_from(text: &[char], style: SpanStyle) -> (s: StyledSpan)
    ensures
        span_view(s) == (text@, style),
{
    StyledSpan { text: crate::text::string_from_chars(text), style }
}

/// A span from a string slice and a style.
pub fn span_str(text: &str, style: SpanStyle) -> (s: StyledSpan)
    ensures
        span_view(s) == (text@, style),
{
    StyledSpan { text: text.to_owned(), style }
}

/// A line holding the given spans.
pub fn line_from(spans: Vec<StyledSpan>) -> (l: StyledLine)
    ensures
        l.spans@ == spans@,
{
    StyledLine { spans }
}

/// A line of one span.
pub fn line_of(span: StyledSpan) -> (l: StyledLine)
    ensures
        line_view(l) == seq![span_view(span)],
{
    let mut v: Vec<StyledSpan> = Vec::new();
    v.push(span);
    let l = StyledLine { spans: v };
    assert(line_view(l) =~= seq![span_view(span)]);
    l
}


/// The unstyled style.
pub fn style_plain() -> (s: SpanStyle)
    ensures
        s == plain_style(),
{
    SpanStyle { fg: None, bg: None, bold: false, underlined: false, italic: false, dim: false }
}

/// Pushing a line onto a list of lines pushes its view onto their views.
pub proof fn lemma_lines_view_push(xs: Seq<StyledLine>, l: StyledLine)
    ensures
        lines_view(xs.push(l)) == lines_view(xs).push(line_view(l)),
{
    assert(lines_view(xs.push(l)) =~= lines_view(xs).push(line_view(l)));
}

/// Appends a line.
pub fn push_line(out: &mut Vec<StyledLine>, l: StyledLine)
    ensures
        lines_view(final(out)@) == lines_view(old(out)@).push(line_view(l)),
{
    let ghost before = out@;
    out.push(l);
    proof {
        lemma_lines_view_push(before, l);
        assert(out@ =~= before.push(l));
    }
}

} // verus!
