use gitalite::front_matter::FrontMatter;
use gitalite::page::{categories, find_file, name_to_find, Error, Missing, Page, PageContext, PageTab};
use gitalite::pandoc::Format;
use gitalite::user::User;

fn page(path: &str, filepath: &str) -> Page {
    Page { path: path.to_string(), filepath: filepath.to_string(), format: Some(Format::Markdown), user: None }
}

#[test]
fn meta_paths_are_reserved() {
    assert_eq!(Page::check_if_reserved("/home"), Ok(()));
    assert_eq!(Page::check_if_reserved(""), Ok(()));
    assert_eq!(Page::check_if_reserved("/met"), Ok(()));
    assert_eq!(Page::check_if_reserved("meta"), Ok(()));
    assert_eq!(Page::check_if_reserved("/meta"), Err(Error::ReservedPage { url: "/meta".to_string() }));
    assert_eq!(
        Page::check_if_reserved("/meta/edit/home"),
        Err(Error::ReservedPage { url: "/meta/edit/home".to_string() })
    );
    assert_eq!(
        Page::check_if_reserved("/metadata"),
        Err(Error::ReservedPage { url: "/metadata".to_string() })
    );
}

#[test]
fn relative_path_is_what_follows_the_root() {
    assert_eq!(page("home", "/srv/wiki/home.md").relative_path("/srv/wiki"), Ok("home.md".to_string()));
    assert_eq!(page("a/b", "/srv/wiki/a/b.rst").relative_path("/srv/wiki"), Ok("a/b.rst".to_string()));
    assert_eq!(page("a/b", "/srv/wiki/a/b.rst").relative_path("/srv/wiki/"), Ok("a/b.rst".to_string()));
    assert_eq!(page("", "/srv/wiki").relative_path("/srv/wiki"), Ok(String::new()));
    assert_eq!(page("x", "x.md").relative_path(""), Ok("x.md".to_string()));
    assert_eq!(page("x", "/x.md").relative_path("/"), Ok("x.md".to_string()));
    assert_eq!(
        page("\u{e9}t\u{e9}", "/wiki/\u{e9}/\u{e9}t\u{e9}.md").relative_path("/wiki/\u{e9}"),
        Ok("\u{e9}t\u{e9}.md".to_string())
    );
}

#[test]
fn file_outside_the_root_has_no_relative_path() {
    assert_eq!(page("home", "/srv/wikis/home.md").relative_path("/srv/wiki"), Err(Error::MakeRelativeError));
    assert_eq!(page("home", "/srv/home.md").relative_path("/srv/wiki"), Err(Error::MakeRelativeError));
    assert_eq!(page("home", "/srv/wik").relative_path("/srv/wiki"), Err(Error::MakeRelativeError));
    assert_eq!(page("home", "home.md").relative_path("/srv/wiki"), Err(Error::MakeRelativeError));
}

#[test]
fn address_is_the_path_without_extension() {
    assert_eq!(page("home", "/srv/wiki/home.md").url_path(), "/home");
    assert_eq!(page("notes/today.md", "/srv/wiki/notes/today.md").url_path(), "/notes/today");
    assert_eq!(page("a.b/c", "/srv/wiki/a.b/c.md").url_path(), "/a.b/c");
    assert_eq!(page("archive.tar.gz", "x").url_path(), "/archive.tar");
}

#[test]
fn files_with_a_known_extension_hold_pages() {
    assert_eq!(
        Page::of_file("/srv/wiki/notes/today.rst"),
        Some(Page {
            path: "/srv/wiki/notes/today".to_string(),
            filepath: "/srv/wiki/notes/today.rst".to_string(),
            format: Some(Format::Rst),
            user: None,
        })
    );
    assert_eq!(Page::of_file("/srv/wiki/logo.png"), None);
    assert_eq!(Page::of_file("/srv/wiki/README"), None);
    assert_eq!(Page::of_file("/srv/wiki/.md"), None);
}

#[test]
fn new_page_is_stored_under_its_format_s_extension() {
    assert_eq!(Page::file_for("/srv/wiki/notes/today", Format::Markdown), "/srv/wiki/notes/today.md");
    assert_eq!(Page::file_for("/srv/wiki/home", Format::Latex), "/srv/wiki/home.tex");
    assert_eq!(Page::file_for("/srv/wiki/home.txt", Format::Org), "/srv/wiki/home.org");
}

#[test]
fn page_is_looked_for_under_its_stem() {
    assert_eq!(name_to_find("/srv/wiki/home", false), Ok("home".to_string()));
    assert_eq!(name_to_find("/srv/wiki/home.md", false), Ok("home".to_string()));
    assert_eq!(name_to_find("/srv/wiki/notes", true), Err(Missing::IsDirectory));
    assert_eq!(name_to_find("/", false), Err(Missing::NoFileName));
    assert_eq!(name_to_find("/srv/wiki/..", false), Err(Missing::NoFileName));
    assert_eq!(name_to_find("/", true), Err(Missing::IsDirectory));
}

#[test]
fn first_file_with_the_page_s_name_is_found() {
    let entries = vec![
        "/srv/wiki/about.md".to_string(),
        "/srv/wiki/home.rst".to_string(),
        "/srv/wiki/home.md".to_string(),
        "/srv/wiki/homes.md".to_string(),
    ];
    assert_eq!(find_file("home", &entries), Ok("/srv/wiki/home.rst".to_string()));
    assert_eq!(find_file("homes", &entries), Ok("/srv/wiki/homes.md".to_string()));
    assert_eq!(find_file("hom", &entries), Err(Missing::NotFound));
    assert_eq!(find_file("home.md", &entries), Err(Missing::NotFound));
    assert_eq!(find_file("home", &vec![]), Err(Missing::NotFound));
}

#[test]
fn request_path_loses_its_first_known_prefix() {
    assert_eq!(Page::path_of_request("/home"), "home");
    assert_eq!(Page::path_of_request("/meta/new/a/b"), "a/b");
    assert_eq!(Page::path_of_request("/meta/history/home"), "home");
    assert_eq!(Page::path_of_request("/meta/edit/home"), "home");
    assert_eq!(Page::path_of_request("/meta/raw/home"), "home");
    assert_eq!(Page::path_of_request("/meta/other/home"), "meta/other/home");
    assert_eq!(Page::path_of_request("/meta/new"), "meta/new");
    assert_eq!(Page::path_of_request("home"), "home");
    assert_eq!(Page::path_of_request("/"), "");
    assert_eq!(Page::path_of_request(""), "");
}

#[test]
fn text_is_always_shown() {
    let allowed = vec!["image/png".to_string()];
    assert!(Page::may_view("text", "text/plain", &allowed));
    assert!(Page::may_view("text", "text/x-anything", &vec![]));
    assert!(Page::may_view("image", "image/png", &allowed));
    assert!(!Page::may_view("image", "image/jpeg", &allowed));
    assert!(!Page::may_view("application", "application/pdf", &vec![]));
}

#[test]
fn file_without_delimiter_has_no_front_matter() {
    let home = page("home", "/srv/wiki/home.md");
    assert_eq!(home.front_matter("# Title\n+++\n"), (None, "# Title\n+++\n".to_string()));
    assert_eq!(home.front_matter(""), (None, String::new()));
    assert_eq!(home.front_matter("++ +"), (None, "++ +".to_string()));
}

#[test]
fn front_matter_stands_between_two_delimiter_lines() {
    let home = page("home", "/srv/wiki/home.md");
    assert_eq!(
        home.front_matter("+++\ntitle = \"Home\"\n+++\n# Welcome\n"),
        (Some("title = \"Home\"\n".to_string()), "# Welcome\n".to_string())
    );
    assert_eq!(
        home.front_matter("+++\r\ntitle = \"Home\"\r\n+++\r\nbody"),
        (Some("title = \"Home\"\r\n".to_string()), "body".to_string())
    );
}

#[test]
fn front_matter_without_a_closing_line_takes_everything() {
    let home = page("home", "/srv/wiki/home.md");
    assert_eq!(
        home.front_matter("+++\ntitle = \"Home\"\n# Welcome\n"),
        (Some("title = \"Home\"\n# Welcome\n".to_string()), String::new())
    );
}

#[test]
fn delimiter_is_three_plus_signs() {
    assert_eq!(FrontMatter::DELIMITER, "+++");
    assert_eq!(FrontMatter::default(), FrontMatter { title: None, categories: None });
}

#[test]
fn context_takes_the_title_from_the_front_matter() {
    let user = User {
        name: "Ada".to_string(),
        email: "ada@example.org".to_string(),
        url: "https://ada.example.org/".to_string(),
        approved: true,
        roles: vec![],
    };
    let home = Page {
        path: "notes/home".to_string(),
        filepath: "/srv/wiki/notes/home.md".to_string(),
        format: Some(Format::Markdown),
        user: Some(user.clone()),
    };
    let titled = FrontMatter { title: Some("Home".to_string()), categories: None };
    assert_eq!(
        home.context_with(titled, "body".to_string()),
        (
            PageContext {
                path: "notes/home".to_string(),
                revision: None,
                title: "Home".to_string(),
                user: Some(user.clone()),
            },
            "body".to_string()
        )
    );
    assert_eq!(
        home.context_with(FrontMatter::default(), "body".to_string()).0,
        PageContext {
            path: "notes/home".to_string(),
            revision: None,
            title: "notes/home".to_string(),
            user: Some(user),
        }
    );
}

#[test]
fn tabs_lead_to_their_pages() {
    assert_eq!(PageTab::View.target("home"), "/home");
    assert_eq!(PageTab::Edit.target("home"), "/meta/edit/home");
    assert_eq!(PageTab::History.target("a/b"), "/meta/history/a/b");
    assert_eq!(PageTab::View.label(), "view");
    assert_eq!(PageTab::Edit.label(), "edit");
    assert_eq!(PageTab::History.label(), "history");
}

#[test]
fn pages_are_shown_by_their_media_type() {
    let allowed = vec!["image/png".to_string()];
    assert!(Page::viewable(None, &allowed));
    assert!(Page::viewable(Some("md"), &vec![]));
    assert!(Page::viewable(Some("txt"), &vec![]));
    assert!(Page::viewable(Some("unknown-extension"), &vec![]));
    assert!(Page::viewable(Some("png"), &allowed));
    assert!(Page::viewable(Some("PNG"), &allowed));
    assert!(!Page::viewable(Some("png"), &vec![]));
    assert!(!Page::viewable(Some("pdf"), &allowed));
}

#[test]
fn categories_are_gathered_once_each() {
    let front_matters = vec![
        FrontMatter { title: None, categories: Some(vec!["notes".to_string(), "drafts".to_string()]) },
        FrontMatter { title: Some("x".to_string()), categories: None },
        FrontMatter { title: None, categories: Some(vec![]) },
        FrontMatter { title: None, categories: Some(vec!["drafts".to_string(), "Notes".to_string(), "notes".to_string()]) },
    ];
    assert_eq!(
        categories(&front_matters),
        vec!["notes".to_string(), "drafts".to_string(), "Notes".to_string()]
    );
    assert!(categories(&vec![]).is_empty());
}
