use mdblog::error::Error;
use mdblog::theme::simple_source;
use mdblog::theme::Theme;
use mdblog::theme::ThemeBundle;

fn bundle(seed: u8) -> ThemeBundle {
    ThemeBundle {
        favicon: vec![seed, 1],
        logo: vec![seed, 2],
        main_css: vec![seed, 3],
        main_js: vec![seed, 4],
        base: vec![seed, 5],
        index: vec![seed, 6],
        post: vec![seed, 7],
        tag: vec![seed, 8],
    }
}

#[test]
fn load_simple_uses_builtin_bundle() {
    let mut t = Theme::new("root");
    assert!(t.load("simple", None).is_ok());
    let b = simple_source();
    assert_eq!(t.name.as_str(), "simple");
    assert_eq!(t.favicon, b.favicon);
    assert_eq!(t.logo, b.logo);
    assert_eq!(t.main_css, b.main_css);
    assert_eq!(t.main_js, b.main_js);
    assert_eq!(t.base, b.base);
    assert_eq!(t.index, b.index);
    assert_eq!(t.post, b.post);
    assert_eq!(t.tag, b.tag);
}

#[test]
fn load_prefers_override_bytes() {
    let mut t = Theme::new("root");
    let b = bundle(9);
    assert!(t.load("simple", Some(bundle(9))).is_ok());
    assert_eq!(t.name.as_str(), "simple");
    assert_eq!(t.favicon, b.favicon);
    assert_ne!(t.favicon, simple_source().favicon);
    assert_eq!(t.tag, b.tag);
}

#[test]
fn load_unknown_name_fails() {
    let mut t = Theme::new("root");
    match t.load("nonexistent", None) {
        Err(Error::ThemeNotFound(n)) => assert_eq!(n.as_str(), "nonexistent"),
        _ => panic!("expected theme not found"),
    }
    // the theme is left as it was
    assert_eq!(t.name.as_str(), "");
    assert!(t.favicon.is_empty());
}

#[test]
fn load_replaces_a_previous_theme_whole() {
    let mut t = Theme::new("root");
    t.load("one", Some(bundle(1))).unwrap();
    t.load("two", Some(bundle(2))).unwrap();
    assert_eq!(t.name.as_str(), "two");
    assert_eq!(t.favicon, vec![2, 1]);
    assert_eq!(t.tag, vec![2, 8]);
}

#[test]
fn clear_empties_everything() {
    let mut t = Theme::new("root");
    t.load("simple", None).unwrap();
    t.clear();
    assert_eq!(t.name.as_str(), "");
    assert!(t.favicon.is_empty());
    assert!(t.tag.is_empty());
}

#[test]
fn init_dir_lists_the_eight_files() {
    let mut t = Theme::new("root");
    t.load("simple", None).unwrap();
    let files = t.init_dir("custom");
    assert_eq!(files.len(), 8);
    assert_eq!(files[0].rel_path.as_str(), "_themes/custom/static/favicon.png");
    assert_eq!(files[1].rel_path.as_str(), "_themes/custom/static/logo.png");
    assert_eq!(files[2].rel_path.as_str(), "_themes/custom/static/main.css");
    assert_eq!(files[3].rel_path.as_str(), "_themes/custom/static/main.js");
    assert_eq!(files[4].rel_path.as_str(), "_themes/custom/templates/base.tpl");
    assert_eq!(files[5].rel_path.as_str(), "_themes/custom/templates/index.tpl");
    assert_eq!(files[6].rel_path.as_str(), "_themes/custom/templates/post.tpl");
    assert_eq!(files[7].rel_path.as_str(), "_themes/custom/templates/tag.tpl");
    assert_eq!(files[0].data, t.favicon);
    assert_eq!(files[7].data, t.tag);
}

#[test]
fn export_static_lists_the_four_assets() {
    let mut t = Theme::new("root");
    t.load("simple", None).unwrap();
    let files = t.export_static("root/_builds/simple");
    assert_eq!(files.len(), 4);
    assert_eq!(
        files[0].rel_path.as_str(),
        "root/_builds/simple/static/favicon.png"
    );
    assert_eq!(
        files[3].rel_path.as_str(),
        "root/_builds/simple/static/main.js"
    );
    assert_eq!(files[0].data, t.favicon);
    assert_eq!(files[3].data, t.main_js);
}

#[test]
fn scaffold_and_reload_round_trip() {
    let mut t1 = Theme::new("root");
    t1.load("simple", None).unwrap();
    let files = t1.init_dir("custom");
    let b = ThemeBundle {
        favicon: files[0].data.clone(),
        logo: files[1].data.clone(),
        main_css: files[2].data.clone(),
        main_js: files[3].data.clone(),
        base: files[4].data.clone(),
        index: files[5].data.clone(),
        post: files[6].data.clone(),
        tag: files[7].data.clone(),
    };
    let mut t2 = Theme::new("root");
    t2.load("custom", Some(b)).unwrap();
    assert_eq!(t2.name.as_str(), "custom");
    assert_eq!(t2.favicon, t1.favicon);
    assert_eq!(t2.logo, t1.logo);
    assert_eq!(t2.main_css, t1.main_css);
    assert_eq!(t2.main_js, t1.main_js);
    assert_eq!(t2.base, t1.base);
    assert_eq!(t2.index, t1.index);
    assert_eq!(t2.post, t1.post);
    assert_eq!(t2.tag, t1.tag);
}
