use mdblog::error::Error;
use mdblog::post::Post;
use mdblog::tag::Tag;
use mdblog::Mdblog;

#[test]
fn init_on_existing_root_fails() {
    let m = Mdblog::new("blog");
    match m.init(true) {
        Err(Error::AlreadyExists) => {}
        _ => panic!("expected already-exists"),
    }
}

#[test]
fn init_scaffolds_exactly_two_files() {
    let m = Mdblog::new("blog");
    let files = m.init(false).unwrap();
    assert_eq!(files.len(), 2);
    assert_eq!(files[0].rel_path.as_str(), "posts/hello.md");
    assert_eq!(files[1].rel_path.as_str(), "config.toml");
    assert_eq!(files[1].data.as_str(), "[blog]\ntheme = \"simple\"\n");
}

#[test]
fn scaffolded_hello_post_has_the_hello_tag() {
    let m = Mdblog::new("blog");
    let files = m.init(false).unwrap();
    let mut p = Post::new("blog", "posts/hello.md");
    p.load(files[0].data.as_str()).unwrap();
    assert_eq!(p.tags(), vec!["hello".to_string()]);
    assert_eq!(p.title().unwrap().as_str(), "hello");
}

#[test]
fn build_loads_the_named_theme() {
    let mut m = Mdblog::new("blog");
    assert!(m.build("simple", None).is_ok());
    assert_eq!(m.theme.name.as_str(), "simple");
    match m.build("other", None) {
        Err(Error::ThemeNotFound(n)) => assert_eq!(n.as_str(), "other"),
        _ => panic!("expected theme not found"),
    }
}

#[test]
fn tag_counts_every_add() {
    let mut t = Tag::new("rust", "/blog/tags/rust.html");
    assert_eq!(t.num, 0);
    assert_eq!(t.posts.len(), 0);
    t.add(3);
    t.add(3);
    t.add(7);
    assert_eq!(t.num, 3);
    assert_eq!(t.posts.len(), 3);
    assert_eq!(t.posts, vec![3, 3, 7]);
    assert_eq!(t.name.as_str(), "rust");
    assert_eq!(t.url.as_str(), "/blog/tags/rust.html");
}
