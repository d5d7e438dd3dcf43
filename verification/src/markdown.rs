//! Markdown to HTML, and the headings of a document.
//!
//! Parsing and rendering are done by `pulldown_cmark`. This module chooses
//! the extensions, wraps the rendered text into a result, and folds the
//! parser's events into the list of headings.

use vstd::prelude::*;
use vstd::string::StringExecFns;

verus! {

/// The parser's set of enabled extensions.
#[verifier::external_type_specification]
#[verifier::external_body]
pub struct ExOptions(pulldown_cmark::Options);

/// The extensions to CommonMark that the parser knows.
#[derive(Clone, Copy, Debug, PartialEq, Eq)]
pub enum Extension {
    Tables,
    Footnotes,
    Strikethrough,
    Tasklists,
    SmartPunctuation,
    HeadingAttributes,
}

/// The extensions that are switched on in `options`.
pub uninterp spec fn enabled(options: pulldown_cmark::Options) -> Set<Extension>;

/// The HTML that `pulldown_cmark` renders for `source` with exactly the
/// extensions in `extensions` switched on.
pub uninterp spec fn rendered_html(source: Seq<char>, extensions: Set<Extension>) -> Seq<char>;

/// `Options::empty` of `pulldown_cmark`: the option set with no extension
/// switched on.
#[verifier::external_body]
fn no_extensions() -> (options: pulldown_cmark::Options)
    ensures
        enabled(options) == Set::<Extension>::empty(),
{
    pulldown_cmark::Options::empty()
}

/// `Options::insert` of `pulldown_cmark`, with the flag that stands for
/// `extension`: switches that extension on and leaves the others as they
/// were.
#[verifier::external_body]
fn enable(options: &mut pulldown_cmark::Options, extension: Extension)
    ensures
        enabled(*final(options)) == enabled(*old(options)).insert(extension),
{
    options.insert(
        match extension {
            Extension::Tables => pulldown_cmark::Options::ENABLE_TABLES,
            Extension::Footnotes => pulldown_cmark::Options::ENABLE_FOOTNOTES,
            Extension::Strikethrough => pulldown_cmark::Options::ENABLE_STRIKETHROUGH,
            Extension::Tasklists => pulldown_cmark::Options::ENABLE_TASKLISTS,
            Extension::SmartPunctuation => pulldown_cmark::Options::ENABLE_SMART_PUNCTUATION,
            Extension::HeadingAttributes => pulldown_cmark::Options::ENABLE_HEADING_ATTRIBUTES,
        },
    )
}

/// `Parser::new_ext` and `html::push_html` of `pulldown_cmark`: parses
/// `markdown` with `options` and renders the events into a fresh string. The
/// text depends on the source and on the enabled extensions alone, and the
/// contract gives it the name [`rendered_html`].
#[verifier::external_body]
fn render(markdown: &str, options: pulldown_cmark::Options) -> (html: String)
    ensures
        html@ == rendered_html(markdown@, enabled(options)),
{
    let mut html = String::new();
    pulldown_cmark::html::push_html(&mut html, pulldown_cmark::Parser::new_ext(markdown, options));
    html
}

/// The outcome of a conversion as the front-end sees it.
#[derive(Debug)]
pub struct ParseResult {
    html: String,
    success: bool,
    error: String,
}

/// A conversion outcome by the plain values it carries.
pub struct ParseResultView {
    pub html: Seq<char>,
    pub success: bool,
    pub error: Seq<char>,
}

impl View for ParseResult {
    type V = ParseResultView;

    closed spec fn view(&self) -> ParseResultView {
        ParseResultView { html: self.html@, success: self.success, error: self.error@ }
    }
}

/// The words in front of the cause in a failed result.
pub open spec fn error_prefix() -> Seq<char> {
    "Parse error: "@
}

/// The result that stands for `outcome`: the HTML and no error text when
/// rendering succeeded, no HTML and the prefixed cause when it failed.
pub open spec fn result_of(outcome: Result<Seq<char>, Seq<char>>) -> ParseResultView {
    match outcome {
        Ok(html) => ParseResultView { html, success: true, error: Seq::<char>::empty() },
        Err(cause) => ParseResultView {
            html: Seq::<char>::empty(),
            success: false,
            error: error_prefix() + cause,
        },
    }
}

/// The outcome of a rendering by the plain values it carries.
pub open spec fn outcome_view(outcome: Result<String, String>) -> Result<Seq<char>, Seq<char>> {
    match outcome {
        Ok(html) => Ok(html@),
        Err(cause) => Err(cause@),
    }
}

impl ParseResult {
    /// Wraps the outcome of a rendering: `Ok` with the HTML, or `Err` with
    /// the cause of the failure.
    pub fn from_outcome(outcome: Result<String, String>) -> (result: ParseResult)
        ensures
            result@ == result_of(outcome_view(outcome)),
    {
        match outcome {
            Ok(html) => ParseResult { html, success: true, error: String::new() },
            Err(cause) => {
                let error = String::from_str("Parse error: ").concat(cause.as_str());
                ParseResult { html: String::new(), success: false, error }
            },
        }
    }

    /// The rendered HTML; empty after a failure.
    pub fn html(&self) -> (html: String)
        ensures
            html@ == self@.html,
    {
        self.html.clone()
    }

    /// Whether the conversion succeeded.
    pub fn success(&self) -> (success: bool)
        ensures
            success == self@.success,
    {
        self.success
    }

    /// The description of the failure; empty after a success.
    pub fn error(&self) -> (error: String)
        ensures
            error@ == self@.error,
    {
        self.error.clone()
    }
}

/// The extensions of the default conversion.
pub open spec fn default_extensions() -> Set<Extension> {
    Set::<Extension>::empty().insert(Extension::Strikethrough).insert(Extension::Tables).insert(
        Extension::Tasklists,
    ).insert(Extension::SmartPunctuation)
}

/// The extensions chosen by the three switches of the custom conversion.
pub open spec fn chosen_extensions(tables: bool, strikethrough: bool, tasklists: bool) -> Set<
    Extension,
> {
    Set::new(
        |extension: Extension|
            match extension {
                Extension::Tables => tables,
                Extension::Strikethrough => strikethrough,
                Extension::Tasklists => tasklists,
                _ => false,
            },
    )
}

/// The result of converting `source` with `extensions`.
pub open spec fn converted(source: Seq<char>, extensions: Set<Extension>) -> ParseResultView {
    result_of(Ok(rendered_html(source, extensions)))
}

/// Converts markdown to HTML with strikethrough, tables, task lists and
/// smart punctuation switched on.
pub fn parse_markdown(markdown: &str) -> (result: ParseResult)
    ensures
        result@ == converted(markdown@, default_extensions()),
{
    let mut options = no_extensions();
    enable(&mut options, Extension::Strikethrough);
    enable(&mut options, Extension::Tables);
    enable(&mut options, Extension::Tasklists);
    enable(&mut options, Extension::SmartPunctuation);
    ParseResult::from_outcome(Ok(render(markdown, options)))
}

/// Converts markdown to HTML with exactly the chosen extensions among
/// tables, strikethrough and task lists.
pub fn parse_markdown_with_options(
    markdown: &str,
    enable_tables: bool,
    enable_strikethrough: bool,
    enable_tasklists: bool,
) -> (result: ParseResult)
    ensures
        result@ == converted(
            markdown@,
            chosen_extensions(enable_tables, enable_strikethrough, enable_tasklists),
        ),
{
    let mut options = no_extensions();
    if enable_tables {
        enable(&mut options, Extension::Tables);
    }
    if enable_strikethrough {
        enable(&mut options, Extension::Strikethrough);
    }
    if enable_tasklists {
        enable(&mut options, Extension::Tasklists);
    }
    proof {
        assert(enabled(options) =~= chosen_extensions(
            enable_tables,
            enable_strikethrough,
            enable_tasklists,
        ));
    }
    ParseResult::from_outcome(Ok(render(markdown, options)))
}

/// Converts each document as [`parse_markdown`] does, in order.
pub fn batch_parse_markdown(markdowns: Vec<String>) -> (results: Vec<ParseResult>)
    ensures
        results@.len() == markdowns@.len(),
        forall|i: int|
            0 <= i < markdowns@.len() ==> (#[trigger] results@[i])@ == converted(
                markdowns@[i]@,
                default_extensions(),
            ),
{
    let mut results: Vec<ParseResult> = Vec::new();
    let mut i: usize = 0;
    while i < markdowns.len()
        invariant
            i <= markdowns@.len(),
            results@.len() == i,
            forall|k: int|
                0 <= k < i ==> (#[trigger] results@[k])@ == converted(
                    markdowns@[k]@,
                    default_extensions(),
                ),
        decreases markdowns@.len() - i,
    {
        results.push(parse_markdown(markdowns[i].as_str()));
        i += 1;
    }
    results
}

} // verus!
