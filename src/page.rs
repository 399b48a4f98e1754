use vstd::prelude::*;
use base64::engine::general_purpose::STANDARD;
use base64::Engine as _;

verus! {

/// What base64 makes of a byte string with its standard, padded alphabet.
pub uninterp spec fn base64_text(bytes: Seq<u8>) -> Seq<char>;

/// Relies on base64's `STANDARD` engine (`Engine::encode`): standard
/// alphabet with padding; the text depends on the bytes alone, and holds
/// four characters for each started group of three bytes (`encoded_len`).
#[verifier::external_body]
fn encode_base64(bytes: &[u8]) -> (r: String)
    ensures
        r@ == base64_text(bytes@),
        r@.len() == 4 * ((bytes@.len() + 2) / 3),
{
    STANDARD.encode(bytes)
}

/// The embedded assets of a page, each as base64 text.
pub struct Fonts {
    pub font_regular: String,
    pub font_medium: String,
    pub font_light: String,
    pub favicon: String,
}

/// Encodes the raw font and icon files for embedding in a page.
pub fn read_fonts(regular: &[u8], medium: &[u8], light: &[u8], favicon: &[u8]) -> (r: Fonts)
    ensures
        r.font_regular@ == base64_text(regular@),
        r.font_medium@ == base64_text(medium@),
        r.font_light@ == base64_text(light@),
        r.favicon@ == base64_text(favicon@),
        r.font_regular@.len() == 4 * ((regular@.len() + 2) / 3),
        r.font_medium@.len() == 4 * ((medium@.len() + 2) / 3),
        r.font_light@.len() == 4 * ((light@.len() + 2) / 3),
        r.favicon@.len() == 4 * ((favicon@.len() + 2) / 3),
{
    Fonts {
        font_regular: encode_base64(regular),
        font_medium: encode_base64(medium),
        font_light: encode_base64(light),
        favicon: encode_base64(favicon),
    }
}

pub const PAGE_HEAD: &'static str = r#"
<!DOCTYPE html>
<html lang="en">
<head>
    <meta charset="UTF-8">
    <meta name="viewport" content="width=device-width, initial-scale=1.0">
    <link rel="icon" href="data:image/x-icon;base64,"#;

pub const PAGE_AFTER_ICON: &'static str = r#"">
    <link rel="stylesheet" href="https://cdn.jsdelivr.net/gh/carloskiki/pulldown-latex@0.7.0/styles.min.css">
    <link rel="preload" href="https://cdn.jsdelivr.net/gh/carloskiki/pulldown-latex@0.7.0/font/" as="font" crossorigin="anonymous">
    <script>
        document.addEventListener('DOMContentLoaded', function() {
            const footnotes = document.querySelectorAll('.footnote-definition');
            if (footnotes.length > 0) {
                const container = document.createElement('div');
                container.id = 'footnote-container';
                footnotes.forEach(footnote => container.appendChild(footnote));
                document.body.appendChild(container);
            }
        });
    </script>
    <style>
        @font-face {
            font-family: 'Oswald';
            src: url(data:font/truetype;charset=utf-8;base64,"#;

pub const PAGE_AFTER_REGULAR: &'static str = r#") format('truetype');
            font-weight: 400;
            font-style: normal;
        }
        @font-face {
            font-family: 'Oswald';
            src: url(data:font/truetype;charset=utf-8;base64,"#;

pub const PAGE_AFTER_MEDIUM: &'static str = r#") format('truetype');
            font-weight: 700;
            font-style: normal;
        }
        @font-face {
            font-family: 'Oswald';
            src: url(data:font/truetype;charset=utf-8;base64,"#;

pub const PAGE_AFTER_LIGHT: &'static str = r#") format('truetype');
            font-weight: 300;
            font-style: normal;
        }
        "#;

pub const PAGE_AFTER_STYLE: &'static str = r#"
    </style>
    <title>
        "#;

pub const PAGE_AFTER_TITLE: &'static str = r#"
    </title>
</head>
<body>
    "#;

pub const PAGE_AFTER_BODY: &'static str = r#"
    "#;

pub const PAGE_TAIL: &'static str = r#"
</body>
</html>
"#;

/// The client logic that reloads the page on each signal from `/events`.
pub const RELOAD_SCRIPT: &'static str = r#"
        <script>
            var evtSource = new EventSource("/events");
            evtSource.onmessage = function(e) {
                if (e.data === "reload") {
                    location.reload();
                }
            };
        </script>
        "#;

/// The stylesheet that every page carries.
pub const STYLE_CSS: &'static str = r#"
body {
    font-family: 'Oswald', sans-serif;
    max-width: 52em;
    margin: 2em auto;
    padding: 0 1em;
    line-height: 1.5;
    color: #222;
}
pre, code {
    font-family: monospace;
    background: #f4f4f4;
}
pre {
    padding: 0.75em;
    overflow-x: auto;
}
table {
    border-collapse: collapse;
}
th, td {
    border: 1px solid #ccc;
    padding: 0.25em 0.5em;
}
blockquote {
    border-left: 4px solid #ccc;
    margin-left: 0;
    padding-left: 1em;
    color: #555;
}
#footnote-container {
    border-top: 1px solid #ccc;
    margin-top: 2em;
    font-size: 0.9em;
}
"#;

pub open spec fn reload_part(enable_reload: bool) -> Seq<char> {
    if enable_reload {
        RELOAD_SCRIPT@
    } else {
        ""@
    }
}

/// The complete page: the template with the icon, the three font faces,
/// the stylesheet, the title, the rendered body and, in live mode, the
/// reload client, each in its place.
pub open spec fn full_html(
    file_name: Seq<char>,
    body: Seq<char>,
    style: Seq<char>,
    fonts: Fonts,
    enable_reload: bool,
) -> Seq<char> {
    PAGE_HEAD@ + fonts.favicon@ + PAGE_AFTER_ICON@ + fonts.font_regular@ + PAGE_AFTER_REGULAR@
        + fonts.font_medium@ + PAGE_AFTER_MEDIUM@ + fonts.font_light@ + PAGE_AFTER_LIGHT@ + style
        + PAGE_AFTER_STYLE@ + file_name + PAGE_AFTER_TITLE@ + body + PAGE_AFTER_BODY@
        + reload_part(enable_reload) + PAGE_TAIL@
}

/// The stylesheet embedded in every page.
pub fn read_style_css() -> (r: String)
    ensures
        r@ == STYLE_CSS@,
{
    String::from_str(STYLE_CSS)
}

/// Wraps a rendered fragment into a displayable page titled `file_name`.
pub fn build_full_html(
    file_name: &str,
    html_output: &str,
    style: &str,
    fonts: &Fonts,
    enable_reload: bool,
) -> (r: String)
    ensures
        r@ == full_html(file_name@, html_output@, style@, *fonts, enable_reload),
{
    let reload_script = if enable_reload {
        RELOAD_SCRIPT
    } else {
        ""
    };
    let mut page = String::from_str(PAGE_HEAD);
    page.append(fonts.favicon.as_str());
    page.append(PAGE_AFTER_ICON);
    page.append(fonts.font_regular.as_str());
    page.append(PAGE_AFTER_REGULAR);
    page.append(fonts.font_medium.as_str());
    page.append(PAGE_AFTER_MEDIUM);
    page.append(fonts.font_light.as_str());
    page.append(PAGE_AFTER_LIGHT);
    page.append(style);
    page.append(PAGE_AFTER_STYLE);
    page.append(file_name);
    page.append(PAGE_AFTER_TITLE);
    page.append(html_output);
    page.append(PAGE_AFTER_BODY);
    page.append(reload_script);
    page.append(PAGE_TAIL);
    page
}

} // verus!
