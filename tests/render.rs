use mdpreview::{
    line_break_html, map_event, math_fragment, render_display_latex_to_html,
    render_inline_latex_to_html, render_static_page, substitute, Fonts, MarkdownEventKind,
};
use pulldown_cmark::{CowStr, Event};

fn empty_fonts() -> Fonts {
    Fonts {
        font_regular: String::new(),
        font_medium: String::new(),
        font_light: String::new(),
        favicon: String::new(),
    }
}

#[test]
fn math_fragment_passes_mathml_through() {
    assert_eq!(math_fragment(Ok("<math></math>".to_string()), true), "<math></math>");
}

#[test]
fn math_fragment_wraps_errors() {
    assert_eq!(
        math_fragment(Err("oops".to_string()), true),
        "<span class=\"math math-inline math-error\">oops</span>"
    );
    assert_eq!(
        math_fragment(Err("oops".to_string()), false),
        "<span class=\"math math-display math-error\">oops</span>"
    );
}

#[test]
fn inline_latex_becomes_mathml() {
    let out = render_inline_latex_to_html("x^2");
    assert!(out.contains("<math"));
    assert!(out.contains("<msup>"));
    assert!(!out.contains("display=\"block\""));
}

#[test]
fn display_latex_becomes_block_mathml() {
    let out = render_display_latex_to_html("x^2");
    assert!(out.contains("<math"));
    assert!(out.contains("display=\"block\""));
}

#[test]
fn soft_break_markup() {
    assert_eq!(line_break_html(), "<br>");
}

#[test]
fn markdown_features_render() {
    let page = render_static_page(None, "line one\nline two\n\n$a+b$", "", &empty_fonts());
    assert!(page.contains("line one<br>line two"));
    assert!(page.contains("<math"));
}

#[test]
fn substitute_soft_break_and_other() {
    assert_eq!(substitute(&MarkdownEventKind::SoftBreak), Some("<br>".to_string()));
    assert_eq!(substitute(&MarkdownEventKind::Other), None);
}

#[test]
fn substitute_math_uses_the_math_renderers() {
    let inline = substitute(&MarkdownEventKind::InlineMath("x^2".to_string())).unwrap();
    assert_eq!(inline, render_inline_latex_to_html("x^2"));
    let display = substitute(&MarkdownEventKind::DisplayMath("x^2".to_string())).unwrap();
    assert_eq!(display, render_display_latex_to_html("x^2"));
}

#[test]
fn map_event_replaces_only_breaks_and_math() {
    assert_eq!(map_event(Event::SoftBreak), Event::Html(CowStr::from("<br>")));
    let math = map_event(Event::InlineMath(CowStr::from("y")));
    assert_eq!(math, Event::Html(CowStr::from(render_inline_latex_to_html("y"))));
    assert_eq!(map_event(Event::Text(CowStr::from("t"))), Event::Text(CowStr::from("t")));
    assert_eq!(map_event(Event::HardBreak), Event::HardBreak);
}
