use vstd::prelude::*;
use pulldown_cmark::{html, Event, Options, Parser as MarkdownParser};
use pulldown_latex::config::DisplayMode;
use pulldown_latex::{push_mathml, Parser as LatexParser, RenderConfig, Storage};

verus! {

/// The HTML that pulldown-cmark writes, with every extension on, for the
/// events of `source` as `map_event` leaves them.
pub uninterp spec fn markdown_html(source: Seq<char>) -> Seq<char>;

/// What pulldown-latex makes of a LaTeX formula: the MathML, or the text of
/// the error it reported.
pub uninterp spec fn latex_mathml(latex: Seq<char>, inline: bool) -> Result<Seq<char>, Seq<char>>;

pub open spec fn outcome_view(r: Result<String, String>) -> Result<Seq<char>, Seq<char>> {
    match r {
        Ok(s) => Ok(s@),
        Err(e) => Err(e@),
    }
}

pub open spec fn error_span_open(inline: bool) -> Seq<char> {
    if inline {
        "<span class=\"math math-inline math-error\">"@
    } else {
        "<span class=\"math math-display math-error\">"@
    }
}

/// The markup that stands for a formula: its MathML, or, when the formula
/// could not be rendered, the error text inside a span marked as a math error.
pub open spec fn math_fragment_text(outcome: Result<Seq<char>, Seq<char>>, inline: bool) -> Seq<char> {
    match outcome {
        Ok(mathml) => mathml,
        Err(message) => error_span_open(inline) + message + "</span>"@,
    }
}

/// Relies on pulldown_latex::push_mathml (with Parser and Storage): renders
/// a formula inline or as a block; its result depends on the formula and
/// the mode alone.
#[verifier::external_body]
fn render_latex_to_mathml(latex: &str, inline: bool) -> (r: Result<String, String>)
    ensures
        outcome_view(r) == latex_mathml(latex@, inline),
{
    let storage = Storage::new();
    let mut config = RenderConfig::default();
    config.display_mode = if inline { DisplayMode::Inline } else { DisplayMode::Block };
    let mut mathml = String::new();
    match push_mathml(&mut mathml, LatexParser::new(latex, &storage), config) {
        Ok(()) => Ok(mathml),
        Err(e) => Err(e.to_string()),
    }
}

/// The markup for a formula once pulldown-latex has been asked for it.
pub fn math_fragment(outcome: Result<String, String>, inline: bool) -> (r: String)
    ensures
        r@ == math_fragment_text(outcome_view(outcome), inline),
{
    match outcome {
        Ok(mathml) => mathml,
        Err(message) => {
            let open = if inline {
                "<span class=\"math math-inline math-error\">"
            } else {
                "<span class=\"math math-display math-error\">"
            };
            String::from_str(open).concat(message.as_str()).concat("</span>")
        },
    }
}

/// An inline formula (`$...$`) as markup.
pub fn render_inline_latex_to_html(latex: &str) -> (r: String)
    ensures
        r@ == math_fragment_text(latex_mathml(latex@, true), true),
{
    math_fragment(render_latex_to_mathml(latex, true), true)
}

/// A display formula (`$$...$$`) as markup.
pub fn render_display_latex_to_html(latex: &str) -> (r: String)
    ensures
        r@ == math_fragment_text(latex_mathml(latex@, false), false),
{
    math_fragment(render_latex_to_mathml(latex, false), false)
}

/// The markup that a soft line break in the source becomes.
pub fn line_break_html() -> (r: String)
    ensures
        r@ == "<br>"@,
{
    String::from_str("<br>")
}

#[verifier::external_type_specification]
#[verifier::external_body]
pub struct ExMarkdownEvent<'a>(Event<'a>);

/// What the renderer needs to know of a markdown event: whether it is one
/// that this library replaces, with the formula's text for math spans.
#[derive(Debug)]
pub enum MarkdownEventKind {
    SoftBreak,
    InlineMath(String),
    DisplayMath(String),
    Other,
}

/// Which markup, if any, replaces an event of the given kind.
pub open spec fn substitution(kind: MarkdownEventKind) -> Option<Seq<char>> {
    match kind {
        MarkdownEventKind::SoftBreak => Some("<br>"@),
        MarkdownEventKind::InlineMath(latex) => Some(
            math_fragment_text(latex_mathml(latex@, true), true),
        ),
        MarkdownEventKind::DisplayMath(latex) => Some(
            math_fragment_text(latex_mathml(latex@, false), false),
        ),
        MarkdownEventKind::Other => None,
    }
}

/// Relies on pulldown_cmark::Event: tells its variants apart and copies
/// the text of a math span.
#[verifier::external_body]
fn classify_event(event: &Event) -> (r: MarkdownEventKind) {
    match event {
        Event::SoftBreak => MarkdownEventKind::SoftBreak,
        Event::InlineMath(s) => MarkdownEventKind::InlineMath(s.to_string()),
        Event::DisplayMath(s) => MarkdownEventKind::DisplayMath(s.to_string()),
        _ => MarkdownEventKind::Other,
    }
}

/// Relies on pulldown_cmark::Event::Html: raw markup passed to the output.
#[verifier::external_body]
fn html_event<'a>(html: String) -> (r: Event<'a>) {
    Event::Html(html.into())
}

/// The markup that replaces an event of kind `kind`, or `None` where the
/// event is left as it is.
pub fn substitute(kind: &MarkdownEventKind) -> (r: Option<String>)
    ensures
        match r {
            Some(s) => substitution(*kind) == Some(s@),
            None => substitution(*kind) is None,
        },
{
    match kind {
        MarkdownEventKind::SoftBreak => Some(line_break_html()),
        MarkdownEventKind::InlineMath(latex) => Some(render_inline_latex_to_html(latex.as_str())),
        MarkdownEventKind::DisplayMath(latex) => Some(render_display_latex_to_html(latex.as_str())),
        MarkdownEventKind::Other => None,
    }
}

/// One event on its way to pulldown-cmark's HTML writer: soft breaks and
/// math spans become raw markup as `substitute` gives it; the rest passes.
pub fn map_event<'a>(event: Event<'a>) -> Event<'a> {
    match substitute(&classify_event(&event)) {
        Some(html) => html_event(html),
        None => event,
    }
}

/// Relies on pulldown_cmark's Parser (all extensions) and html::push_html:
/// the fragment depends on the source alone.
#[verifier::external_body]
pub(crate) fn render_markdown_to_html(source: &str) -> (r: String)
    ensures
        r@ == markdown_html(source@),
{
    let mut out = String::new();
    let events = MarkdownParser::new_ext(source, Options::all()).map(|event| map_event(event));
    html::push_html(&mut out, events);
    out
}

} // verus!
