use vstd::prelude::*;
use vstd::string::*;
use crate::page::{Error, ErrorView};
use crate::text::{is_prefix, owned, strip_prefix};

verus! {

/// The text that `text` stands for once its percent-encoded bytes are
/// decoded and read as UTF-8; `None` where they are no UTF-8.
pub uninterp spec fn percent_decoded(text: Seq<char>) -> Option<Seq<char>>;

/// Calls `urlencoding::decode`, which reads nothing but the text, and
/// copies out what it gives. The contract only gives the outcome its name.
#[verifier::external_body]
pub(crate) fn percent_decode(text: &str) -> (decoded: Option<String>)
    ensures
        match decoded {
            Some(t) => percent_decoded(text@) == Some(t@),
            None => percent_decoded(text@) is None,
        },
{
    urlencoding::decode(text).ok().map(|decoded| decoded.into_owned())
}

/// How the search for a page's file ended.
#[derive(Debug, PartialEq, Eq, Structural, Clone, Copy)]
pub enum Lookup {
    /// The file is there.
    Found,
    /// Nothing is there under that name.
    Missing,
    /// The search itself failed.
    Failed,
}

/// What answers a request that no other route takes.
#[derive(Debug, PartialEq, Eq)]
pub enum Route {
    /// The file of that path in the static directory.
    Static,
    /// A redirect to the form that makes the page.
    New { location: String },
    /// The failure of the search.
    Fail,
    /// The page as it was at `revision`.
    Revision { revision: String },
    /// The page as it is.
    View,
}

pub enum RouteView {
    Static,
    New { location: Seq<char> },
    Fail,
    Revision { revision: Seq<char> },
    View,
}

impl View for Route {
    type V = RouteView;

    open spec fn view(&self) -> RouteView {
        match self {
            Route::Static => RouteView::Static,
            Route::New { location } => RouteView::New { location: location@ },
            Route::Fail => RouteView::Fail,
            Route::Revision { revision } => RouteView::Revision { revision: revision@ },
            Route::View => RouteView::View,
        }
    }
}

/// The path that a request's path asks for: what follows its leading
/// slash, percent-decoded.
pub fn requested_path(uri_path: &str) -> (path: Result<String, Error>)
    requires
        is_prefix("/"@, uri_path@),
    ensures
        match path {
            Ok(p) => percent_decoded(uri_path@.subrange("/"@.len() as int, uri_path@.len() as int))
                == Some(p@),
            Err(error) => percent_decoded(
                uri_path@.subrange("/"@.len() as int, uri_path@.len() as int),
            ) is None && error@ == ErrorView::Utf8,
        },
{
    let rest: &str = match strip_prefix(uri_path, "/") {
        Some(rest) => rest,
        None => uri_path,
    };
    match percent_decode(rest) {
        Some(path) => Ok(path),
        None => Err(Error::Utf8),
    }
}

/// Decides what answers the request for `path`: a static file wins over a
/// page, a page that is missing sends to the form that makes it, and a page
/// that is there is shown, at the revision asked for where one is.
pub fn route(path: &str, is_static: bool, lookup: Lookup, revision: Option<String>) -> (answer:
    Route)
    ensures
        answer@ == (if is_static {
            RouteView::Static
        } else {
            match lookup {
                Lookup::Missing => RouteView::New { location: "/meta/new/"@ + path@ },
                Lookup::Failed => RouteView::Fail,
                Lookup::Found => match revision {
                    Some(r) => RouteView::Revision { revision: r@ },
                    None => RouteView::View,
                },
            }
        }),
{
    if is_static {
        return Route::Static;
    }
    match lookup {
        Lookup::Missing => {
            let mut location: String = owned("/meta/new/");
            location.append(path);
            Route::New { location }
        },
        Lookup::Failed => Route::Fail,
        Lookup::Found => match revision {
            Some(revision) => Route::Revision { revision },
            None => Route::View,
        },
    }
}

} // verus!
