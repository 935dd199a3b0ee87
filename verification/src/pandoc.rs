use vstd::prelude::*;
use crate::path::plain_extension;
use crate::text::{owned, same_text};

verus! {

/// Why a page could not be rendered.
#[derive(Debug, PartialEq, Eq)]
pub enum Error {
    /// The renderer failed; the text is its report.
    PandocError(String),
    /// The renderer answers, but not with the HTML it is known to give.
    PandocWrongOutput { expected: String, actual: String },
}

pub enum ErrorView {
    PandocError(Seq<char>),
    PandocWrongOutput { expected: Seq<char>, actual: Seq<char> },
}

impl View for Error {
    type V = ErrorView;

    open spec fn view(&self) -> ErrorView {
        match self {
            Error::PandocError(report) => ErrorView::PandocError(report@),
            Error::PandocWrongOutput { expected, actual } => ErrorView::PandocWrongOutput {
                expected: expected@,
                actual: actual@,
            },
        }
    }
}

impl Clone for Error {
    fn clone(&self) -> (copy: Error)
        ensures
            copy@ == self@,
    {
        match self {
            Error::PandocError(report) => Error::PandocError(report.clone()),
            Error::PandocWrongOutput { expected, actual } => Error::PandocWrongOutput {
                expected: expected.clone(),
                actual: actual.clone(),
            },
        }
    }
}

/// The markup a page is written in.
#[derive(Debug, Clone, Copy, PartialEq, Eq, Structural)]
pub enum Format {
    Native,
    Json,
    Markdown,
    MarkdownStrict,
    MarkdownPhpextra,
    MarkdownGithub,
    Commonmark,
    Textile,
    Rst,
    Html,
    DocBook,
    T2t,
    Docx,
    Epub,
    Opml,
    Org,
    MediaWiki,
    Twiki,
    Haddock,
    Latex,
}

/// A request's choice of format.
#[derive(Debug, Clone, Copy)]
pub struct QueryFormat {
    pub format: Format,
}

impl QueryFormat {
    pub fn into(self) -> (format: Format)
        ensures
            format == self.format,
    {
        self.format
    }
}

/// The format that pages with the file extension `extension` are written
/// in, if any.
pub open spec fn format_of_extension(extension: Seq<char>) -> Option<Format> {
    if extension == "lhs"@ {
        Some(Format::Native)
    } else if extension == "json"@ {
        Some(Format::Json)
    } else if extension == "md"@ {
        Some(Format::Markdown)
    } else if extension == "textile"@ {
        Some(Format::Textile)
    } else if extension == "rst"@ {
        Some(Format::Rst)
    } else if extension == "html"@ {
        Some(Format::Html)
    } else if extension == "dbk"@ {
        Some(Format::DocBook)
    } else if extension == "t2t"@ {
        Some(Format::T2t)
    } else if extension == "docx"@ {
        Some(Format::Docx)
    } else if extension == "epub"@ {
        Some(Format::Epub)
    } else if extension == "opml"@ {
        Some(Format::Opml)
    } else if extension == "org"@ {
        Some(Format::Org)
    } else if extension == "wiki"@ {
        Some(Format::MediaWiki)
    } else if extension == "twiki"@ {
        Some(Format::Twiki)
    } else if extension == "hs"@ {
        Some(Format::Haddock)
    } else if extension == "tex"@ {
        Some(Format::Latex)
    } else {
        None
    }
}

/// The file extension under which a page in `format` is stored.
pub open spec fn extension_of(format: Format) -> Seq<char> {
    match format {
        Format::Native => "lhs"@,
        Format::Json => "json"@,
        Format::Markdown => "md"@,
        Format::MarkdownStrict => "md"@,
        Format::MarkdownPhpextra => "md"@,
        Format::MarkdownGithub => "md"@,
        Format::Commonmark => "md"@,
        Format::Textile => "textile"@,
        Format::Rst => "rst"@,
        Format::Html => "html"@,
        Format::DocBook => "dbk"@,
        Format::T2t => "t2t"@,
        Format::Docx => "docx"@,
        Format::Epub => "epub"@,
        Format::Opml => "opml"@,
        Format::Org => "org"@,
        Format::MediaWiki => "wiki"@,
        Format::Twiki => "twiki"@,
        Format::Haddock => "hs"@,
        Format::Latex => "tex"@,
    }
}

/// The format that a request names as `name`, if it names one.
pub open spec fn format_of_name(name: Seq<char>) -> Option<Format> {
    if name == "native"@ {
        Some(Format::Native)
    } else if name == "json"@ {
        Some(Format::Json)
    } else if name == "markdown"@ {
        Some(Format::Markdown)
    } else if name == "markdown_strict"@ {
        Some(Format::MarkdownStrict)
    } else if name == "markdown_phpextra"@ {
        Some(Format::MarkdownPhpextra)
    } else if name == "markdown_github"@ {
        Some(Format::MarkdownGithub)
    } else if name == "commonmark"@ {
        Some(Format::Commonmark)
    } else if name == "rst"@ {
        Some(Format::Rst)
    } else if name == "html"@ {
        Some(Format::Html)
    } else if name == "latex"@ {
        Some(Format::Latex)
    } else if name == "mediawiki"@ {
        Some(Format::MediaWiki)
    } else if name == "textile"@ {
        Some(Format::Textile)
    } else if name == "org"@ {
        Some(Format::Org)
    } else if name == "opml"@ {
        Some(Format::Opml)
    } else if name == "docx"@ {
        Some(Format::Docx)
    } else if name == "haddock"@ {
        Some(Format::Haddock)
    } else if name == "epub"@ {
        Some(Format::Epub)
    } else if name == "docbook"@ {
        Some(Format::DocBook)
    } else if name == "t2t"@ {
        Some(Format::T2t)
    } else if name == "twiki"@ {
        Some(Format::Twiki)
    } else {
        None
    }
}

impl Format {
    pub fn from_extension(extension: &str) -> (format: Option<Format>)
        ensures
            format == format_of_extension(extension@),
    {
        if same_text(extension, "lhs") {
            Some(Format::Native)
        } else if same_text(extension, "json") {
            Some(Format::Json)
        } else if same_text(extension, "md") {
            Some(Format::Markdown)
        } else if same_text(extension, "textile") {
            Some(Format::Textile)
        } else if same_text(extension, "rst") {
            Some(Format::Rst)
        } else if same_text(extension, "html") {
            Some(Format::Html)
        } else if same_text(extension, "dbk") {
            Some(Format::DocBook)
        } else if same_text(extension, "t2t") {
            Some(Format::T2t)
        } else if same_text(extension, "docx") {
            Some(Format::Docx)
        } else if same_text(extension, "epub") {
            Some(Format::Epub)
        } else if same_text(extension, "opml") {
            Some(Format::Opml)
        } else if same_text(extension, "org") {
            Some(Format::Org)
        } else if same_text(extension, "wiki") {
            Some(Format::MediaWiki)
        } else if same_text(extension, "twiki") {
            Some(Format::Twiki)
        } else if same_text(extension, "hs") {
            Some(Format::Haddock)
        } else if same_text(extension, "tex") {
            Some(Format::Latex)
        } else {
            None
        }
    }

    pub fn extension(&self) -> (extension: &'static str)
        ensures
            extension@ == extension_of(*self),
    {
        match self {
            Format::Native => "lhs",
            Format::Json => "json",
            Format::Markdown => "md",
            Format::MarkdownStrict => "md",
            Format::MarkdownPhpextra => "md",
            Format::MarkdownGithub => "md",
            Format::Commonmark => "md",
            Format::Textile => "textile",
            Format::Rst => "rst",
            Format::Html => "html",
            Format::DocBook => "dbk",
            Format::T2t => "t2t",
            Format::Docx => "docx",
            Format::Epub => "epub",
            Format::Opml => "opml",
            Format::Org => "org",
            Format::MediaWiki => "wiki",
            Format::Twiki => "twiki",
            Format::Haddock => "hs",
            Format::Latex => "tex",
        }
    }

    /// The format that a request names as `name`; `None` for a name that
    /// stands for no format.
    pub fn from_name(name: &str) -> (format: Option<Format>)
        ensures
            format == format_of_name(name@),
    {
        if same_text(name, "native") {
            Some(Format::Native)
        } else if same_text(name, "json") {
            Some(Format::Json)
        } else if same_text(name, "markdown") {
            Some(Format::Markdown)
        } else if same_text(name, "markdown_strict") {
            Some(Format::MarkdownStrict)
        } else if same_text(name, "markdown_phpextra") {
            Some(Format::MarkdownPhpextra)
        } else if same_text(name, "markdown_github") {
            Some(Format::MarkdownGithub)
        } else if same_text(name, "commonmark") {
            Some(Format::Commonmark)
        } else if same_text(name, "rst") {
            Some(Format::Rst)
        } else if same_text(name, "html") {
            Some(Format::Html)
        } else if same_text(name, "latex") {
            Some(Format::Latex)
        } else if same_text(name, "mediawiki") {
            Some(Format::MediaWiki)
        } else if same_text(name, "textile") {
            Some(Format::Textile)
        } else if same_text(name, "org") {
            Some(Format::Org)
        } else if same_text(name, "opml") {
            Some(Format::Opml)
        } else if same_text(name, "docx") {
            Some(Format::Docx)
        } else if same_text(name, "haddock") {
            Some(Format::Haddock)
        } else if same_text(name, "epub") {
            Some(Format::Epub)
        } else if same_text(name, "docbook") {
            Some(Format::DocBook)
        } else if same_text(name, "t2t") {
            Some(Format::T2t)
        } else if same_text(name, "twiki") {
            Some(Format::Twiki)
        } else {
            None
        }
    }
}

/// A format found by its extension is stored under that same extension.
pub proof fn extension_round_trip(extension: Seq<char>)
    requires
        format_of_extension(extension) is Some,
    ensures
        extension_of(format_of_extension(extension).unwrap()) == extension,
{
}

/// No extension of a format holds a separator of path segments.
pub proof fn extensions_are_plain(format: Format)
    ensures
        plain_extension(extension_of(format)),
{
    reveal_strlit("lhs");
    reveal_strlit("json");
    reveal_strlit("md");
    reveal_strlit("textile");
    reveal_strlit("rst");
    reveal_strlit("html");
    reveal_strlit("dbk");
    reveal_strlit("t2t");
    reveal_strlit("docx");
    reveal_strlit("epub");
    reveal_strlit("opml");
    reveal_strlit("org");
    reveal_strlit("wiki");
    reveal_strlit("twiki");
    reveal_strlit("hs");
    reveal_strlit("tex");
}

/// The HTML that the renderer is known to give for the heading
/// `# Hello, world!`.
pub open spec fn expected_output() -> Seq<char> {
    "<h1 id=\"hello-world\">Hello, world!</h1>\n"@
}

/// Holds what the renderer gave for the heading `# Hello, world!` against
/// what it is known to give.
pub fn test_output(actual: String) -> (result: Result<(), Error>)
    ensures
        match result {
            Ok(_) => actual@ == expected_output(),
            Err(error) => actual@ != expected_output() && error@ == (ErrorView::PandocWrongOutput {
                expected: expected_output(),
                actual: actual@,
            }),
        },
{
    let expected: String = owned("<h1 id=\"hello-world\">Hello, world!</h1>\n");
    if expected != actual {
        return Err(Error::PandocWrongOutput { expected, actual });
    }
    Ok(())
}

} // verus!
