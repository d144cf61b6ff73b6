//! The page that every request receives: the Markdown document, turned into
//! HTML and set into a fixed frame.

use crate::text::{str_view, text_view};
use vstd::prelude::*;

verus! {

/// The frame up to the place of the title.
pub const FRAME_OPENING: &'static str = "<!DOCTYPE html>\n            <html>\n                <head>\n                    <meta charset=\"utf-8\">\n                    ";

/// The frame between the title and the background colour.
pub const FRAME_BEFORE_BACKGROUND: &'static str = "\n                    <style>\n                        body { font-family: sans-serif; \n                            background-color: #";

/// The frame between the background colour and the text colour.
pub const FRAME_BEFORE_COLOR: &'static str = ";\n                            color: #";

/// The frame between the text colour and the document.
pub const FRAME_BEFORE_BODY: &'static str = ";\n                            max-width: 800px; \n                            margin: auto;\n                            padding: 2rem;\n                        }\n                        a {\n                            color: #007acc;\n                            text-decoration: none;\n                        }\n                        a:hover { text-decoration: underline; }\n                    </style>\n                </head>\n                <body>";

/// The frame after the document.
pub const FRAME_CLOSING: &'static str = "</body>\n            </html>";

/// The Markdown that stands in for a document that cannot be read.
pub const MISSING_FILE_MARKDOWN: &'static str = "# File not found";

/// How the page is to look, and what its Markdown may hold.
#[derive(Clone, Debug, PartialEq, Eq)]
pub struct PageConfig {
    /// The page's title; empty for a page without one.
    pub title: String,
    /// The colour of the text: the hexadecimal digits, without `#`.
    pub text_col: String,
    /// The colour of the background: the hexadecimal digits, without `#`.
    pub bg_col: String,
    /// Whether HTML in the Markdown passes into the page as it is.
    pub allow_html: bool,
}

/// The `<title>` element for `title`; nothing for an empty title.
pub open spec fn title_tag_text(title: Seq<char>) -> Seq<char> {
    if title.len() == 0 {
        title
    } else {
        "<title>"@ + title + "</title>"@
    }
}

/// The frame, filled in: `title_tag` in the head, the two colours in the
/// style sheet, `content` as the body.
pub open spec fn page_text(
    title_tag: Seq<char>,
    bg_col: Seq<char>,
    text_col: Seq<char>,
    content: Seq<char>,
) -> Seq<char> {
    FRAME_OPENING@ + title_tag + FRAME_BEFORE_BACKGROUND@ + bg_col + FRAME_BEFORE_COLOR@ + text_col
        + FRAME_BEFORE_BODY@ + content + FRAME_CLOSING@
}

/// The `<title>` element for `title`; nothing for an empty title.
pub fn title_tag(title: &str) -> (tag: String)
    ensures
        tag@ == title_tag_text(title@),
{
    if title.unicode_len() == 0 {
        title.to_owned()
    } else {
        let mut tag = String::new();
        tag.append("<title>");
        tag.append(title);
        tag.append("</title>");
        assert(tag@ =~= title_tag_text(title@));
        tag
    }
}

/// The whole page for `content`, the document as HTML, in the looks that
/// `config` asks for.
pub fn html_page(config: &PageConfig, content: &str) -> (page: String)
    ensures
        page@ == page_text(title_tag_text(config.title@), config.bg_col@, config.text_col@, content@),
{
    let tag = title_tag(config.title.as_str());
    let mut page = String::new();
    page.append(FRAME_OPENING);
    page.append(tag.as_str());
    page.append(FRAME_BEFORE_BACKGROUND);
    page.append(config.bg_col.as_str());
    page.append(FRAME_BEFORE_COLOR);
    page.append(config.text_col.as_str());
    page.append(FRAME_BEFORE_BODY);
    page.append(content);
    page.append(FRAME_CLOSING);
    assert(page@ =~= page_text(
        title_tag_text(config.title@),
        config.bg_col@,
        config.text_col@,
        content@,
    ));
    page
}

/// What `markdown::to_html_with_options` makes of the Markdown `source`,
/// with every option at its default but `allow_dangerous_html`: the HTML, or
/// the text of the message it fails with.
pub uninterp spec fn markdown_outcome(source: Seq<char>, allow_dangerous_html: bool) -> Result<
    Seq<char>,
    Seq<char>,
>;

/// The characters of an outcome of rendering, on either side.
pub open spec fn outcome_view(outcome: Result<String, String>) -> Result<Seq<char>, Seq<char>> {
    match outcome {
        Ok(html) => Ok(html@),
        Err(message) => Err(message@),
    }
}

/// Calls `markdown::to_html_with_options` on `source`, with the default
/// options but for `allow_dangerous_html`, and writes a failure out as text.
/// The contract gives the outcome its name and claims nothing else of it.
#[verifier::external_body]
fn compile_markdown(source: &str, allow_dangerous_html: bool) -> (outcome: Result<String, String>)
    ensures
        outcome_view(outcome) == markdown_outcome(source@, allow_dangerous_html),
{
    let compile = markdown::CompileOptions {
        allow_dangerous_html,
        ..markdown::CompileOptions::default()
    };
    let options = markdown::Options { compile, ..markdown::Options::default() };
    markdown::to_html_with_options(source, &options).map_err(|message| message.to_string())
}

/// The Markdown to render: the document, or the stand-in where the document
/// could not be read.
pub open spec fn source_text(document: Option<Seq<char>>) -> Seq<char> {
    match document {
        Some(text) => text,
        None => MISSING_FILE_MARKDOWN@,
    }
}

/// What the page shows for an outcome of rendering: the HTML, or the
/// failure's message as preformatted text.
pub open spec fn content_text(outcome: Result<Seq<char>, Seq<char>>) -> Seq<char> {
    match outcome {
        Ok(html) => html,
        Err(message) => "<pre>"@ + message + "</pre>"@,
    }
}

/// The Markdown to render: the document, or the stand-in where the document
/// could not be read.
pub fn markdown_source<'a>(document: Option<&'a str>) -> (source: &'a str)
    ensures
        source@ == source_text(str_view(document)),
{
    match document {
        Some(text) => text,
        None => MISSING_FILE_MARKDOWN,
    }
}

/// What the page shows for an outcome of rendering: the HTML, or the
/// failure's message as preformatted text.
pub fn content_html(outcome: &Result<String, String>) -> (content: String)
    ensures
        content@ == content_text(outcome_view(*outcome)),
{
    match outcome {
        Ok(html) => html.clone(),
        Err(message) => {
            let mut content = String::new();
            content.append("<pre>");
            content.append(message.as_str());
            content.append("</pre>");
            assert(content@ =~= "<pre>"@ + message@ + "</pre>"@);
            content
        },
    }
}

/// A page, and what went wrong on the way to it.
#[derive(Clone, Debug, PartialEq, Eq)]
pub struct RenderedPage {
    /// The whole page.
    pub html: String,
    /// Whether the document could not be read, so that the page shows the
    /// stand-in.
    pub file_missing: bool,
    /// The message of the failure, where rendering failed and the page shows
    /// that message.
    pub render_error: Option<String>,
}

/// The message of a failed rendering.
pub open spec fn failure_text(outcome: Result<Seq<char>, Seq<char>>) -> Option<Seq<char>> {
    match outcome {
        Ok(_) => None,
        Err(message) => Some(message),
    }
}

/// The page for an outcome of rendering, in the looks that `config` asks
/// for: the HTML in the frame, or in its place the failure's message, which
/// is then handed on as well.
pub fn page_for_outcome(
    config: &PageConfig,
    file_missing: bool,
    outcome: Result<String, String>,
) -> (rendered: RenderedPage)
    ensures
        rendered.html@ == page_text(
            title_tag_text(config.title@),
            config.bg_col@,
            config.text_col@,
            content_text(outcome_view(outcome)),
        ),
        rendered.file_missing == file_missing,
        text_view(rendered.render_error) == failure_text(outcome_view(outcome)),
{
    let content = content_html(&outcome);
    let html = html_page(config, content.as_str());
    let render_error: Option<String> = match outcome {
        Ok(_) => None,
        Err(message) => Some(message),
    };
    RenderedPage { html, file_missing, render_error }
}

/// The page for one request. `document` is the Markdown file as it was read
/// just now, or `None` where it could not be read: the page then shows the
/// stand-in. Where rendering fails, the page shows the failure's message.
pub fn render_page(config: &PageConfig, document: Option<&str>) -> (rendered: RenderedPage)
    ensures
        rendered.html@ == page_text(
            title_tag_text(config.title@),
            config.bg_col@,
            config.text_col@,
            content_text(
                markdown_outcome(source_text(str_view(document)), config.allow_html),
            ),
        ),
        rendered.file_missing == (document is None),
        text_view(rendered.render_error) == failure_text(
            markdown_outcome(source_text(str_view(document)), config.allow_html),
        ),
{
    let source = markdown_source(document);
    let outcome = compile_markdown(source, config.allow_html);
    page_for_outcome(config, document.is_none(), outcome)
}

} // verus!
