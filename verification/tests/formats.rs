use gitalite::pandoc::{test_output, Error, Format, QueryFormat};

const BY_EXTENSION: [(&str, Format); 16] = [
    ("lhs", Format::Native),
    ("json", Format::Json),
    ("md", Format::Markdown),
    ("textile", Format::Textile),
    ("rst", Format::Rst),
    ("html", Format::Html),
    ("dbk", Format::DocBook),
    ("t2t", Format::T2t),
    ("docx", Format::Docx),
    ("epub", Format::Epub),
    ("opml", Format::Opml),
    ("org", Format::Org),
    ("wiki", Format::MediaWiki),
    ("twiki", Format::Twiki),
    ("hs", Format::Haddock),
    ("tex", Format::Latex),
];

#[test]
fn every_extension_has_its_format() {
    for (extension, format) in BY_EXTENSION {
        assert_eq!(Format::from_extension(extension), Some(format));
    }
}

#[test]
fn every_format_found_by_extension_gives_it_back() {
    for (extension, format) in BY_EXTENSION {
        assert_eq!(format.extension(), extension);
        assert_eq!(Format::from_extension(extension).unwrap().extension(), extension);
    }
}

#[test]
fn unknown_extensions_have_no_format() {
    for extension in ["", "MD", "markdown", "txt", "md ", ".md", "htm"] {
        assert_eq!(Format::from_extension(extension), None);
    }
}

#[test]
fn markdown_dialects_share_an_extension() {
    for format in [
        Format::Markdown,
        Format::MarkdownStrict,
        Format::MarkdownPhpextra,
        Format::MarkdownGithub,
        Format::Commonmark,
    ] {
        assert_eq!(format.extension(), "md");
    }
}

#[test]
fn formats_are_named_as_the_renderer_names_them() {
    let names = [
        ("native", Format::Native),
        ("json", Format::Json),
        ("markdown", Format::Markdown),
        ("markdown_strict", Format::MarkdownStrict),
        ("markdown_phpextra", Format::MarkdownPhpextra),
        ("markdown_github", Format::MarkdownGithub),
        ("commonmark", Format::Commonmark),
        ("rst", Format::Rst),
        ("html", Format::Html),
        ("latex", Format::Latex),
        ("mediawiki", Format::MediaWiki),
        ("textile", Format::Textile),
        ("org", Format::Org),
        ("opml", Format::Opml),
        ("docx", Format::Docx),
        ("haddock", Format::Haddock),
        ("epub", Format::Epub),
        ("docbook", Format::DocBook),
        ("t2t", Format::T2t),
        ("twiki", Format::Twiki),
    ];
    for (name, format) in names {
        assert_eq!(Format::from_name(name), Some(format));
    }
    assert_eq!(Format::from_name("md"), None);
    assert_eq!(Format::from_name("Markdown"), None);
    assert_eq!(Format::from_name(""), None);
}

#[test]
fn query_format_gives_its_format() {
    assert_eq!(QueryFormat { format: Format::Org }.into(), Format::Org);
}

#[test]
fn known_output_passes() {
    assert_eq!(test_output("<h1 id=\"hello-world\">Hello, world!</h1>\n".to_string()), Ok(()));
}

#[test]
fn other_output_is_reported_with_both_texts() {
    assert_eq!(
        test_output("<h1>Hello, world!</h1>\n".to_string()),
        Err(Error::PandocWrongOutput {
            expected: "<h1 id=\"hello-world\">Hello, world!</h1>\n".to_string(),
            actual: "<h1>Hello, world!</h1>\n".to_string(),
        })
    );
    assert!(test_output(String::new()).is_err());
}
