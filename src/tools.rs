use vstd::prelude::*;

verus! {

/// The Markdown that html2md makes of an HTML document.
pub uninterp spec fn markdown_of(html: Seq<char>) -> Seq<char>;

/// Relies on html2md::parse_html: the document parsed and walked with the
/// standard tag handlers only, so the result depends on the text alone.
#[verifier::external_body]
fn parse_html(html: &str) -> (r: String)
    ensures
        r@ == markdown_of(html@),
{
    html2md::parse_html(html)
}

/// The tool that tells the date and time.
#[derive(Debug)]
pub struct GetDate;

/// The date tool takes no argument.
#[derive(Debug)]
pub struct GetDateArgs;

/// The date could not be read.
#[derive(Debug, PartialEq, Eq)]
pub struct DateError;

/// The tool that fetches a page and hands it on as Markdown.
#[derive(Debug)]
pub struct LinkToMarkdown;

#[derive(Debug)]
pub struct LinkToMarkdownArgs {
    pub url: String,
}

/// The page could not be fetched or converted.
#[derive(Debug, PartialEq, Eq)]
pub struct LinkToMarkdownError;

/// The tool that searches the web.
#[derive(Debug)]
pub struct WebSearch;

#[derive(Debug)]
pub struct WebSearchArgs {
    pub query: String,
}

/// One hit of a web search.
#[derive(Debug)]
pub struct WebSearchResult {
    pub title: String,
    pub url: String,
    pub description: String,
}

/// The search failed.
#[derive(Debug, PartialEq, Eq)]
pub struct SearchError;

impl GetDate {
    pub fn name() -> (r: String)
        ensures
            r@ == "get_date"@,
    {
        String::from_str("get_date")
    }

    pub fn description() -> (r: String)
        ensures
            r@ == "Returns today's date and time in YYYY-MM-DD HH:MM:SS format"@,
    {
        String::from_str("Returns today's date and time in YYYY-MM-DD HH:MM:SS format")
    }
}

impl DateError {
    pub fn message(&self) -> (r: String)
        ensures
            r@ == "Date retrieval error"@,
    {
        String::from_str("Date retrieval error")
    }
}

impl LinkToMarkdown {
    pub fn name() -> (r: String)
        ensures
            r@ == "link_to_markdown"@,
    {
        String::from_str("link_to_markdown")
    }

    pub fn description() -> (r: String)
        ensures
            r@ == "Fetches the contents of a link for better context and converts it to markdown"@,
    {
        String::from_str(
            "Fetches the contents of a link for better context and converts it to markdown",
        )
    }

    /// The fetched page, as Markdown.
    pub fn convert(html: &str) -> (r: String)
        ensures
            r@ == markdown_of(html@),
    {
        parse_html(html)
    }
}

impl LinkToMarkdownError {
    pub fn message(&self) -> (r: String)
        ensures
            r@ == "Failed to fetch or convert link contents"@,
    {
        String::from_str("Failed to fetch or convert link contents")
    }
}

impl WebSearch {
    pub fn name() -> (r: String)
        ensures
            r@ == "web_search"@,
    {
        String::from_str("web_search")
    }

    pub fn description() -> (r: String)
        ensures
            r@ == "Searches the web and returns title, url, and description for each result"@,
    {
        String::from_str("Searches the web and returns title, url, and description for each result")
    }
}

impl SearchError {
    pub fn message(&self) -> (r: String)
        ensures
            r@ == "Search error"@,
    {
        String::from_str("Search error")
    }
}

} // verus!
