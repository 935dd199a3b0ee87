use vstd::prelude::*;
use vstd::string::*;
use crate::front_matter::{enclosed_split, extract_enclosed, FrontMatter};
use crate::git;
use crate::mime::{guess_media_type, media_type_of};
use crate::pandoc;
use crate::pandoc::{extension_of, extensions_are_plain, format_of_extension, Format};
use crate::path;
use crate::path::{extension_of_path, file_stem_of, path_with_extension, stripped_path};
use crate::text::{
    is_prefix, list_contains, owned, same_text, starts_with, strip_prefix, text_of, texts_of,
    without_prefix,
};
use crate::user::{User, UserView};

verus! {

/// Why a request on a page failed.
#[derive(Debug, PartialEq, Eq)]
pub enum Error {
    /// The page's file does not lie under the pages' directory.
    MakeRelativeError,
    /// The filesystem failed; the text is its report.
    Io(String),
    /// The page's front matter does not parse; the text is the parser's report.
    FrontMatterError(String),
    Git(git::Error),
    Pandoc(pandoc::Error),
    /// A file's bytes are not UTF-8 text.
    Utf8,
    /// The path belongs to the wiki itself.
    ReservedPage { url: String },
}

pub enum ErrorView {
    MakeRelativeError,
    Io(Seq<char>),
    FrontMatterError(Seq<char>),
    Git(git::ErrorView),
    Pandoc(pandoc::ErrorView),
    Utf8,
    ReservedPage { url: Seq<char> },
}

impl View for Error {
    type V = ErrorView;

    open spec fn view(&self) -> ErrorView {
        match self {
            Error::MakeRelativeError => ErrorView::MakeRelativeError,
            Error::Io(report) => ErrorView::Io(report@),
            Error::FrontMatterError(report) => ErrorView::FrontMatterError(report@),
            Error::Git(error) => ErrorView::Git(error@),
            Error::Pandoc(error) => ErrorView::Pandoc(error@),
            Error::Utf8 => ErrorView::Utf8,
            Error::ReservedPage { url } => ErrorView::ReservedPage { url: url@ },
        }
    }
}

impl Clone for Error {
    fn clone(&self) -> (copy: Error)
        ensures
            copy@ == self@,
    {
        match self {
            Error::MakeRelativeError => Error::MakeRelativeError,
            Error::Io(report) => Error::Io(report.clone()),
            Error::FrontMatterError(report) => Error::FrontMatterError(report.clone()),
            Error::Git(error) => Error::Git(error.clone()),
            Error::Pandoc(error) => Error::Pandoc(error.clone()),
            Error::Utf8 => Error::Utf8,
            Error::ReservedPage { url } => Error::ReservedPage { url: url.clone() },
        }
    }
}

/// A page: the path it is asked for under, and the file that holds it.
#[derive(Debug, PartialEq, Eq)]
pub struct Page {
    /// The logical path: relative, and without the format's extension.
    pub path: String,
    /// The file on disk, with the format's extension.
    pub filepath: String,
    pub format: Option<Format>,
    pub user: Option<User>,
}

/// What a page's template is filled with.
#[derive(Debug, PartialEq, Eq)]
pub struct PageContext {
    pub path: String,
    pub revision: Option<String>,
    pub title: String,
    pub user: Option<User>,
}

pub struct PageContextView {
    pub path: Seq<char>,
    pub revision: Option<Seq<char>>,
    pub title: Seq<char>,
    pub user: Option<UserView>,
}

/// An optional user, as mathematical values.
pub open spec fn user_of(user: Option<User>) -> Option<UserView> {
    match user {
        Some(u) => Some(u@),
        None => None,
    }
}

impl View for PageContext {
    type V = PageContextView;

    open spec fn view(&self) -> PageContextView {
        PageContextView {
            path: self.path@,
            revision: text_of(self.revision),
            title: self.title@,
            user: user_of(self.user),
        }
    }
}

/// The line that opens and closes a page's front matter.
pub open spec fn delimiter() -> Seq<char> {
    "+++"@
}

/// The raw front matter of a page's file, where it has one, and the text
/// that is left.
pub open spec fn parts_of(file: Seq<char>) -> (Option<Seq<char>>, Seq<char>) {
    if is_prefix(delimiter(), file) {
        (Some(enclosed_split(file, delimiter()).0), enclosed_split(file, delimiter()).1)
    } else {
        (None, file)
    }
}

/// The path of the page that a request's path asks for: the request's path
/// without the first of the prefixes `/meta/new/`, `/meta/history/`,
/// `/meta/edit/`, `/meta/raw/` and `/` that it begins with.
pub open spec fn page_path_of(uri: Seq<char>) -> Seq<char> {
    if let Some(rest) = without_prefix(uri, "/meta/new/"@) {
        rest
    } else if let Some(rest) = without_prefix(uri, "/meta/history/"@) {
        rest
    } else if let Some(rest) = without_prefix(uri, "/meta/edit/"@) {
        rest
    } else if let Some(rest) = without_prefix(uri, "/meta/raw/"@) {
        rest
    } else if let Some(rest) = without_prefix(uri, "/"@) {
        rest
    } else {
        uri
    }
}

/// The first segment of every path that the wiki keeps for itself.
pub open spec fn reserved_prefix() -> Seq<char> {
    "/meta"@
}

/// The path of `filepath` relative to the directory `root`, where it lies
/// there.
pub open spec fn relative_to(filepath: Seq<char>, root: Seq<char>) -> Option<Seq<char>> {
    stripped_path(filepath, root)
}

/// The address of the page at `path`: a slash, and the path without the
/// extension of its file name.
pub open spec fn url_of(path: Seq<char>) -> Seq<char> {
    "/"@ + path_with_extension(path, Seq::empty())
}

/// The page that the file at `filepath` holds: none where the file's
/// extension stands for no format.
pub open spec fn page_of_file(filepath: Seq<char>) -> Option<(Seq<char>, Format)> {
    match extension_of_path(filepath) {
        Some(extension) => match format_of_extension(extension) {
            Some(format) => Some((path_with_extension(filepath, Seq::empty()), format)),
            None => None,
        },
        None => None,
    }
}

/// Why no file was found for a page.
#[derive(Debug, PartialEq, Eq, Structural, Clone, Copy)]
pub enum Missing {
    /// The path names a directory.
    IsDirectory,
    /// The path has no file name.
    NoFileName,
    /// No file of the directory has the page's name.
    NotFound,
}

/// The first position in `entries` of a file whose stem is `stem`, from
/// `from` on; `None` where there is none.
pub open spec fn first_with_stem(entries: Seq<Seq<char>>, stem: Seq<char>, from: int) -> Option<
    int,
>
    decreases entries.len() - from,
{
    if from < 0 || from >= entries.len() {
        None
    } else if file_stem_of(entries[from]) == Some(stem) {
        Some(from)
    } else {
        first_with_stem(entries, stem, from + 1)
    }
}

/// The name under which the file of the page asked for as `wanted` is
/// looked for: the stem of `wanted`, unless `wanted` is a directory or has
/// no file name.
pub open spec fn name_of(wanted: Seq<char>, is_directory: bool) -> Result<Seq<char>, Missing> {
    if is_directory {
        Err(Missing::IsDirectory)
    } else {
        match file_stem_of(wanted) {
            None => Err(Missing::NoFileName),
            Some(stem) => Ok(stem),
        }
    }
}

/// The file that holds the page of the name `name` among the files
/// `entries` of its directory: the first whose own name, without extension,
/// is `name`.
pub open spec fn found_file(name: Seq<char>, entries: Seq<Seq<char>>) -> Result<Seq<char>, Missing> {
    match first_with_stem(entries, name, 0) {
        Some(at) => Ok(entries[at]),
        None => Err(Missing::NotFound),
    }
}

/// The message of the commit that records a new page.
pub open spec fn create_message(path: Seq<char>) -> Seq<char> {
    "[create] "@ + path
}

/// The message of the commit that records an edit.
pub open spec fn update_message(path: Seq<char>) -> Seq<char> {
    "[update] "@ + path
}

impl Page {
    /// Refuses the paths under `/meta`.
    pub fn check_if_reserved(path: &str) -> (result: Result<(), Error>)
        ensures
            match result {
                Ok(_) => !is_prefix(reserved_prefix(), path@),
                Err(error) => is_prefix(reserved_prefix(), path@) && error@ == (
                ErrorView::ReservedPage { url: path@ }),
            },
    {
        if starts_with(path, "/meta") {
            return Err(Error::ReservedPage { url: owned(path) });
        }
        Ok(())
    }

    /// The page's file, relative to the pages' directory; an error where the
    /// file does not lie there.
    pub fn relative_path(&self, pages_directory: &str) -> (result: Result<String, Error>)
        ensures
            match result {
                Ok(path) => relative_to(self.filepath@, pages_directory@) == Some(path@),
                Err(error) => relative_to(self.filepath@, pages_directory@) is None && error@
                    == ErrorView::MakeRelativeError,
            },
    {
        match path::strip_prefix(self.filepath.as_str(), pages_directory) {
            Some(rest) => Ok(rest),
            None => Err(Error::MakeRelativeError),
        }
    }

    /// The address under which the page is shown.
    pub fn url_path(&self) -> (address: String)
        ensures
            address@ == url_of(self.path@),
    {
        assert("".view() =~= Seq::<char>::empty()) by {
            reveal_strlit("");
        }
        let bare: String = path::with_extension(self.path.as_str(), "");
        let mut address: String = owned("/");
        address.append(bare.as_str());
        address
    }

    /// The page, of nobody yet, that the file at `filepath` holds; none
    /// where the file's extension stands for no format.
    pub fn of_file(filepath: &str) -> (page: Option<Page>)
        ensures
            match page {
                Some(p) => page_of_file(filepath@) == Some((p.path@, p.format.unwrap()))
                    && p.format is Some && p.filepath@ == filepath@ && p.user is None,
                None => page_of_file(filepath@) is None,
            },
    {
        let format: Format = match path::extension(filepath) {
            Some(extension) => match Format::from_extension(extension.as_str()) {
                Some(format) => format,
                None => {
                    return None;
                },
            },
            None => {
                return None;
            },
        };
        assert("".view() =~= Seq::<char>::empty()) by {
            reveal_strlit("");
        }
        Some(
            Page {
                path: path::with_extension(filepath, ""),
                filepath: owned(filepath),
                format: Some(format),
                user: None,
            },
        )
    }

    /// The file of a new page in `format` that is asked for as `wanted`.
    pub fn file_for(wanted: &str, format: Format) -> (filepath: String)
        ensures
            filepath@ == path_with_extension(wanted@, extension_of(format)),
    {
        proof {
            extensions_are_plain(format);
        }
        path::with_extension(wanted, format.extension())
    }

    /// The path of the page that the request for `uri` is about.
    pub fn path_of_request(uri: &str) -> (path: String)
        ensures
            path@ == page_path_of(uri@),
    {
        if let Some(rest) = strip_prefix(uri, "/meta/new/") {
            owned(rest)
        } else if let Some(rest) = strip_prefix(uri, "/meta/history/") {
            owned(rest)
        } else if let Some(rest) = strip_prefix(uri, "/meta/edit/") {
            owned(rest)
        } else if let Some(rest) = strip_prefix(uri, "/meta/raw/") {
            owned(rest)
        } else if let Some(rest) = strip_prefix(uri, "/") {
            owned(rest)
        } else {
            owned(uri)
        }
    }

    /// Whether a page whose path has the extension `extension` is shown,
    /// going by the media type guessed for it. A path without extension is
    /// taken for plain text.
    pub fn viewable(extension: Option<&str>, allowed: &Vec<String>) -> (shown: bool)
        ensures
            shown == match extension {
                Some(e) => media_type_of(e@).0 == "text"@ || texts_of(allowed@).contains(
                    media_type_of(e@).1,
                ),
                None => true,
            },
    {
        match extension {
            Some(e) => {
                let (media_type, essence) = guess_media_type(e);
                Page::may_view(media_type.as_str(), essence.as_str(), allowed)
            },
            None => true,
        }
    }

    /// Whether a page of this media type is shown: text always is, and
    /// anything else where its essence is among the allowed types.
    pub fn may_view(media_type: &str, essence: &str, allowed: &Vec<String>) -> (shown: bool)
        ensures
            shown == (media_type@ == "text"@ || texts_of(allowed@).contains(essence@)),
    {
        same_text(media_type, "text") || list_contains(allowed, essence)
    }

    /// Splits a page's file into its raw front matter and its text. A file
    /// that does not begin with the delimiter has no front matter and is
    /// all text.
    pub fn front_matter(&self, file: &str) -> (parts: (Option<String>, String))
        ensures
            (text_of(parts.0), parts.1@) == parts_of(file@),
    {
        if starts_with(file, FrontMatter::DELIMITER) {
            let (front, data) = extract_enclosed(file, FrontMatter::DELIMITER);
            (Some(front), data)
        } else {
            (None, owned(file))
        }
    }

    /// The context of this page, given its parsed front matter and its
    /// text: the title is the front matter's, or the page's path where it
    /// gives none; no revision is set.
    pub fn context_with(&self, front_matter: FrontMatter, data: String) -> (result: (
        PageContext,
        String,
    ))
        ensures
            result.1 == data,
            result.0@ == (PageContextView {
                path: self.path@,
                revision: None,
                title: match front_matter.title {
                    Some(title) => title@,
                    None => self.path@,
                },
                user: user_of(self.user),
            }),
    {
        let title: String = match front_matter.title {
            Some(title) => title,
            None => self.path.clone(),
        };
        let user: Option<User> = match &self.user {
            Some(u) => Some(u.clone()),
            None => None,
        };
        (PageContext { title, user, path: self.path.clone(), revision: None }, data)
    }
}

/// The name under which to look for the file of the page asked for as
/// `wanted`, the page's path under the pages' directory. `is_directory`
/// says whether `wanted` itself is a directory, which holds no page.
pub fn name_to_find(wanted: &str, is_directory: bool) -> (result: Result<String, Missing>)
    ensures
        match result {
            Ok(name) => name_of(wanted@, is_directory) == Ok::<Seq<char>, Missing>(name@),
            Err(missing) => name_of(wanted@, is_directory) == Err::<Seq<char>, Missing>(
                missing,
            ),
        },
{
    if is_directory {
        return Err(Missing::IsDirectory);
    }
    match path::file_stem(wanted) {
        Some(stem) => Ok(stem),
        None => Err(Missing::NoFileName),
    }
}

/// Finds the file that holds the page of the name `name` among
/// `entries`, the files of the page's directory, in their order.
pub fn find_file(name: &str, entries: &Vec<String>) -> (result: Result<String, Missing>)
    ensures
        match result {
            Ok(file) => found_file(name@, texts_of(entries@)) == Ok::<Seq<char>, Missing>(
                file@,
            ),
            Err(missing) => found_file(name@, texts_of(entries@)) == Err::<
                Seq<char>,
                Missing,
            >(missing),
        },
{
    let ghost names = texts_of(entries@);
    let mut i: usize = 0;
    while i < entries.len()
        invariant
            i <= entries.len(),
            names == texts_of(entries@),
            first_with_stem(names, name@, 0) == first_with_stem(names, name@, i as int),
        decreases entries.len() - i,
    {
        assert(names[i as int] == entries@[i as int]@);
        let same: bool = match path::file_stem(entries[i].as_str()) {
            Some(stem) => same_text(stem.as_str(), name),
            None => false,
        };
        if same {
            assert(first_with_stem(names, name@, i as int) == Some(i as int));
            return Ok(entries[i].clone());
        }
        assert(first_with_stem(names, name@, i as int) == first_with_stem(
            names,
            name@,
            i + 1,
        ));
        i = i + 1;
    }
    Err(Missing::NotFound)
}

/// What a request to make a page carries.
#[derive(Debug, PartialEq, Eq)]
pub struct NewPage {
    pub body: String,
    pub format: Format,
}

/// Whether the front matter lists the category `c`.
pub open spec fn lists(front_matter: FrontMatter, c: Seq<char>) -> bool {
    front_matter.categories matches Some(list) && texts_of(list@).contains(c)
}

/// Whether one of the first `upto` front matters lists the category `c`.
pub open spec fn listed_among(front_matters: Seq<FrontMatter>, upto: int, c: Seq<char>) -> bool {
    exists|i: int| 0 <= i < upto && i < front_matters.len() && lists(#[trigger] front_matters[i], c)
}

/// Adds `name` to `all` unless it is there.
fn add_once(all: &mut Vec<String>, name: &str)
    requires
        texts_of(old(all)@).no_duplicates(),
    ensures
        texts_of(final(all)@).no_duplicates(),
        forall|c: Seq<char>| #[trigger]
            texts_of(final(all)@).contains(c) <==> (texts_of(old(all)@).contains(c) || c == name@),
{
    if !list_contains(all, name) {
        let ghost before = texts_of(all@);
        all.push(owned(name));
        proof {
            let after = texts_of(all@);
            assert(after =~= before.push(name@));
            assert forall|c: Seq<char>| #[trigger] after.contains(c) <==> (before.contains(c) || c
                == name@) by {
                if before.contains(c) {
                    let i = choose|i: int| 0 <= i < before.len() && before[i] == c;
                    assert(after[i] == c);
                }
                if c == name@ {
                    assert(after[before.len() as int] == c);
                }
                if after.contains(c) {
                    let i = choose|i: int| 0 <= i < after.len() && after[i] == c;
                    if i < before.len() {
                        assert(before[i] == c);
                    }
                }
            }
        }
    }
}

/// The categories that the pages with these front matters are filed under,
/// each of them once.
pub fn categories(front_matters: &Vec<FrontMatter>) -> (all: Vec<String>)
    ensures
        texts_of(all@).no_duplicates(),
        forall|c: Seq<char>| #[trigger]
            texts_of(all@).contains(c) <==> listed_among(
                front_matters@,
                front_matters@.len() as int,
                c,
            ),
{
    let mut all: Vec<String> = Vec::new();
    let mut k: usize = 0;
    assert(texts_of(all@) =~= Seq::<Seq<char>>::empty());
    while k < front_matters.len()
        invariant
            k <= front_matters.len(),
            texts_of(all@).no_duplicates(),
            forall|c: Seq<char>| #[trigger]
                texts_of(all@).contains(c) <==> listed_among(front_matters@, k as int, c),
        decreases front_matters.len() - k,
    {
        let ghost names: Seq<Seq<char>> = match front_matters@[k as int].categories {
            Some(list) => texts_of(list@),
            None => Seq::empty(),
        };
        match &front_matters[k].categories {
            Some(list) => {
                let mut j: usize = 0;
                while j < list.len()
                    invariant
                        j <= list.len(),
                        k < front_matters.len(),
                        names == texts_of(list@),
                        texts_of(all@).no_duplicates(),
                        forall|c: Seq<char>| #[trigger]
                            texts_of(all@).contains(c) <==> (listed_among(
                                front_matters@,
                                k as int,
                                c,
                            ) || names.take(j as int).contains(c)),
                    decreases list.len() - j,
                {
                    let ghost before = texts_of(all@);
                    add_once(&mut all, list[j].as_str());
                    proof {
                        assert(names[j as int] == list@[j as int]@);
                        assert(names.take(j + 1) =~= names.take(j as int).push(names[j as int]));
                        assert forall|c: Seq<char>| #[trigger]
                            texts_of(all@).contains(c) <==> (listed_among(
                                front_matters@,
                                k as int,
                                c,
                            ) || names.take(j + 1).contains(c)) by {
                            let shorter = names.take(j as int);
                            let longer = names.take(j + 1);
                            if shorter.contains(c) {
                                let i = choose|i: int| 0 <= i < shorter.len() && shorter[i] == c;
                                assert(longer[i] == c);
                            }
                            if c == names[j as int] {
                                assert(longer[j as int] == c);
                            }
                            if longer.contains(c) {
                                let i = choose|i: int| 0 <= i < longer.len() && longer[i] == c;
                                if i < j {
                                    assert(shorter[i] == c);
                                }
                            }
                        }
                    }
                    j = j + 1;
                }
                assert(names.take(list.len() as int) =~= names);
            },
            None => {},
        }
        proof {
            assert forall|c: Seq<char>| #[trigger]
                texts_of(all@).contains(c) <==> listed_among(front_matters@, k + 1, c) by {
                assert(names.contains(c) <==> lists(front_matters@[k as int], c));
                if listed_among(front_matters@, k as int, c) {
                    let i = choose|i: int|
                        0 <= i < k && i < front_matters@.len() && lists(
                            #[trigger] front_matters@[i],
                            c,
                        );
                    assert(lists(front_matters@[i], c));
                }
                if lists(front_matters@[k as int], c) {
                    assert(listed_among(front_matters@, k + 1, c));
                }
                if listed_among(front_matters@, k + 1, c) {
                    let i = choose|i: int|
                        0 <= i < k + 1 && i < front_matters@.len() && lists(
                            #[trigger] front_matters@[i],
                            c,
                        );
                    if i < k {
                        assert(listed_among(front_matters@, k as int, c));
                    }
                }
            }
        }
        k = k + 1;
    }
    all
}

/// The tabs above a page.
#[derive(Debug, Clone, Copy, PartialEq, Eq, Structural)]
pub enum PageTab {
    View,
    Edit,
    History,
}

/// Where the tab `tab` of the page at `path` leads.
pub open spec fn tab_target(tab: PageTab, path: Seq<char>) -> Seq<char> {
    match tab {
        PageTab::View => "/"@ + path,
        PageTab::Edit => "/meta/edit/"@ + path,
        PageTab::History => "/meta/history/"@ + path,
    }
}

impl PageTab {
    /// The address that this tab links to for the page at `path`.
    pub fn target(self, path: &str) -> (address: String)
        ensures
            address@ == tab_target(self, path@),
    {
        let mut address: String = match self {
            PageTab::View => owned("/"),
            PageTab::Edit => owned("/meta/edit/"),
            PageTab::History => owned("/meta/history/"),
        };
        address.append(path);
        address
    }

    /// The tab's label.
    pub fn label(self) -> (label: &'static str)
        ensures
            label@ == match self {
                PageTab::View => "view"@,
                PageTab::Edit => "edit"@,
                PageTab::History => "history"@,
            },
    {
        match self {
            PageTab::View => "view",
            PageTab::Edit => "edit",
            PageTab::History => "history",
        }
    }
}

} // verus!
