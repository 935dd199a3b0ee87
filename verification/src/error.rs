use vstd::prelude::*;

verus! {

/// What the error page is asked to show.
#[derive(Debug, PartialEq, Eq)]
pub enum ErrorPage {
    ReservedPage { url: String },
    Unknown,
}

pub enum ErrorPageView {
    ReservedPage { url: Seq<char> },
    Unknown,
}

impl View for ErrorPage {
    type V = ErrorPageView;

    open spec fn view(&self) -> ErrorPageView {
        match self {
            ErrorPage::ReservedPage { url } => ErrorPageView::ReservedPage { url: url@ },
            ErrorPage::Unknown => ErrorPageView::Unknown,
        }
    }
}

impl ErrorPage {
    /// The error page for a query that may or may not have been read as
    /// one: anything unreadable is shown as unknown.
    pub fn from_query(read: Option<ErrorPage>) -> (page: ErrorPage)
        ensures
            page == (match read {
                Some(error) => error,
                None => ErrorPage::Unknown,
            }),
    {
        match read {
            Some(error) => error,
            None => ErrorPage::Unknown,
        }
    }
}

} // verus!
