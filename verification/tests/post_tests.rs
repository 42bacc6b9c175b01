use mdblog::error::Error;
use mdblog::metadata::Metadata;
use mdblog::post::Post;

#[test]
fn well_formed_post_loads() {
    let mut p = Post::new("root", "posts/hello.md");
    let r = p.load("date: 2020-01-01\ntags: b, a, a\n\nbody text\n");
    assert!(r.is_ok());
    assert_eq!(p.head.as_str(), "date: 2020-01-01\ntags: b, a, a");
    assert_eq!(p.body.as_str(), "body text\n");
    assert_eq!(p.metadata.get("date"), Some("2020-01-01".to_string()));
    assert_eq!(p.metadata.get("tags"), Some("b, a, a".to_string()));
    assert_eq!(p.metadata.get("missing"), None);
    assert_eq!(p.metadata.entries.len(), 2);
}

#[test]
fn header_values_are_trimmed() {
    let mut p = Post::new("root", "posts/a.md");
    let r = p.load("  key  :   value with spaces  \n\nbody");
    assert!(r.is_ok());
    assert_eq!(p.metadata.get("key"), Some("value with spaces".to_string()));
}

#[test]
fn duplicate_keys_last_write_wins() {
    let mut p = Post::new("root", "posts/a.md");
    let r = p.load("k: one\nk: two\n\nbody");
    assert!(r.is_ok());
    assert_eq!(p.metadata.get("k"), Some("two".to_string()));
    assert_eq!(p.metadata.entries.len(), 1);
}

#[test]
fn empty_body_is_accepted() {
    let mut p = Post::new("root", "posts/a.md");
    assert!(p.load("k: v\n\n").is_ok());
    assert_eq!(p.head.as_str(), "k: v");
    assert_eq!(p.body.as_str(), "");
}

#[test]
fn empty_head_is_accepted() {
    let mut p = Post::new("root", "posts/a.md");
    assert!(p.load("\n\nbody").is_ok());
    assert_eq!(p.head.as_str(), "");
    assert_eq!(p.body.as_str(), "body");
    assert_eq!(p.metadata.entries.len(), 0);
}

#[test]
fn split_happens_at_the_first_blank_line() {
    let mut p = Post::new("root", "posts/a.md");
    assert!(p.load("a: b\n\n\nbody\n\nmore").is_ok());
    assert_eq!(p.head.as_str(), "a: b");
    assert_eq!(p.body.as_str(), "\nbody\n\nmore");
}

#[test]
fn missing_separator_fails() {
    let mut p = Post::new("root", "posts/a.md");
    let r = p.load("date: 2020-01-01\nno blank line here");
    match r {
        Err(Error::FormatError(m)) => {
            assert_eq!(
                m.as_str(),
                "post(posts/a.md) must both have `head` and `body` parts"
            );
        }
        _ => panic!("expected a format error"),
    }
    // the post is left as it was: nothing usable
    assert_eq!(p.head.as_str(), "");
    assert_eq!(p.body.as_str(), "");
    assert_eq!(p.metadata.entries.len(), 0);
}

#[test]
fn header_line_without_colon_fails_naming_the_line() {
    let mut p = Post::new("root", "posts/a.md");
    let r = p.load("date: 2020-01-01\nbadline\n\nbody");
    match r {
        Err(Error::FormatError(m)) => {
            assert_eq!(
                m.as_str(),
                "post(posts/a.md) `head` part parse error: badline"
            );
        }
        _ => panic!("expected a format error"),
    }
    assert_eq!(p.head.as_str(), "");
    assert_eq!(p.metadata.entries.len(), 0);
}

#[test]
fn tags_sorted_with_duplicates_kept() {
    let mut p = Post::new("root", "posts/a.md");
    p.load("tags: b, a, a\n\nbody").unwrap();
    assert_eq!(
        p.tags(),
        vec!["a".to_string(), "a".to_string(), "b".to_string()]
    );
}

#[test]
fn tags_trailing_comma_drops_empty_entry() {
    let mut p = Post::new("root", "posts/a.md");
    p.load("tags: a,\n\nbody").unwrap();
    assert_eq!(p.tags(), vec!["a".to_string()]);
}

#[test]
fn tags_absent_header_yields_no_tags() {
    let mut p = Post::new("root", "posts/a.md");
    p.load("date: 2020-01-01\n\nbody").unwrap();
    assert_eq!(p.tags(), Vec::<String>::new());
}

#[test]
fn title_is_file_stem() {
    let p = Post::new("root", "posts/hello.md");
    assert_eq!(p.title().unwrap().as_str(), "hello");
    let q = Post::new("root", "posts/archive/deep.note.md");
    assert_eq!(q.title().unwrap().as_str(), "deep.note");
}

#[test]
fn title_ignores_trailing_slashes() {
    let p = Post::new("root", "posts/");
    assert_eq!(p.title().unwrap().as_str(), "posts");
}

#[test]
fn title_fails_without_file_name() {
    let p = Post::new("root", "");
    match p.title() {
        Err(Error::FormatError(m)) => {
            assert_eq!(m.as_str(), "post filename format error: ");
        }
        _ => panic!("expected a format error"),
    }
}

#[test]
fn title_fails_on_dot_components() {
    let dot = Post::new("root", ".");
    assert!(dot.title().is_err());
    let dotdot = Post::new("root", "posts/..");
    match dotdot.title() {
        Err(Error::FormatError(m)) => {
            assert_eq!(m.as_str(), "post filename format error: posts/..");
        }
        _ => panic!("expected a format error"),
    }
}

#[test]
fn datetime_reads_the_date_header() {
    let mut p = Post::new("root", "posts/a.md");
    p.load("date: 2020-01-01 10:00:00\n\nbody").unwrap();
    assert_eq!(p.datetime().unwrap().as_str(), "2020-01-01 10:00:00");
}

#[test]
fn datetime_fails_without_date_header() {
    let mut p = Post::new("root", "posts/a.md");
    p.load("tags: x\n\nbody").unwrap();
    match p.datetime() {
        Err(Error::FormatError(m)) => {
            assert_eq!(m.as_str(), "post(posts/a.md) require date header");
        }
        _ => panic!("expected a format error"),
    }
}

#[test]
fn path_derivations() {
    let p = Post::new("myroot", "posts/hello.md");
    assert_eq!(p.src().as_str(), "myroot/posts/hello.md");
    assert_eq!(p.dest().as_str(), "myroot/_builds/blog/posts/hello.html");
    assert_eq!(p.url().as_str(), "/blog/posts/hello.html");
}

#[test]
fn url_appends_html_when_no_extension() {
    let p = Post::new("r", "posts/plain");
    assert_eq!(p.url().as_str(), "/blog/posts/plain.html");
}

#[test]
fn absolute_post_path_stands_alone() {
    let p = Post::new("myroot", "/abs/p.md");
    assert_eq!(p.src().as_str(), "/abs/p.md");
    assert_eq!(p.url().as_str(), "/abs/p.html");
    assert_eq!(p.dest().as_str(), "/abs/p.html");
}

#[test]
fn empty_root_adds_no_separator() {
    let p = Post::new("", "posts/a.md");
    assert_eq!(p.src().as_str(), "posts/a.md");
}

#[test]
fn content_renders_markdown() {
    let mut p = Post::new("root", "posts/a.md");
    p.load("date: x\n\n# hello\n\nhello world!\n").unwrap();
    assert_eq!(
        p.content().as_str(),
        "<h1>hello</h1>\n<p>hello world!</p>\n"
    );
}

#[test]
fn content_renders_tables() {
    let mut p = Post::new("root", "posts/a.md");
    p.load("date: x\n\n| a | b |\n| - | - |\n| 1 | 2 |\n").unwrap();
    assert!(p.content().contains("<table>"));
}

#[test]
fn map_projection_holds_title_url_datetime() {
    let mut p = Post::new("root", "posts/hello.md");
    p.load("date: 2020-01-01\n\nbody").unwrap();
    let m = p.map().unwrap();
    assert_eq!(m.get("title").unwrap().as_str(), Some("hello"));
    assert_eq!(m.get("url").unwrap().as_str(), Some("/blog/posts/hello.html"));
    assert_eq!(m.get("datetime").unwrap().as_str(), Some("2020-01-01"));
    assert_eq!(m.len(), 3);
}

#[test]
fn map_fails_without_date() {
    let mut p = Post::new("root", "posts/hello.md");
    p.load("tags: x\n\nbody").unwrap();
    assert!(p.map().is_err());
}

#[test]
fn metadata_insert_and_get() {
    let mut md = Metadata::new();
    md.insert("a".to_string(), "1".to_string());
    md.insert("b".to_string(), "2".to_string());
    md.insert("a".to_string(), "3".to_string());
    assert_eq!(md.get("a"), Some("3".to_string()));
    assert_eq!(md.get("b"), Some("2".to_string()));
    assert_eq!(md.entries.len(), 2);
}

#[test]
fn error_messages() {
    assert_eq!(
        Error::AlreadyExists.message().as_str(),
        "directory already exists"
    );
    assert_eq!(
        Error::IOError("boom".to_string()).message().as_str(),
        "io error: boom"
    );
    assert_eq!(
        Error::FormatError("bad".to_string()).message().as_str(),
        "bad"
    );
    assert_eq!(
        Error::ThemeNotFound("x".to_string()).message().as_str(),
        "theme not found: x"
    );
}
