//! A static-blog core: posts with `key: value` headers and a Markdown body,
//! tags grouping posts, and themes (template and asset bundles) that render
//! them.  All filesystem work is left to the caller: the library computes,
//! from plain values, what is to be read or written.

use vstd::prelude::*;
use vstd::string::StringExecFns;

pub mod error;
pub mod files;
pub mod jsonmap;
pub mod markdown;
pub mod metadata;
pub mod post;
pub mod tag;
pub mod text;
pub mod theme;

use crate::error::Error;
use crate::files::TextFile;
use crate::theme::Theme;
use crate::theme::ThemeBundle;

verus! {

/// The text of the example post `init` scaffolds.
pub open spec fn hello_post_text() -> Seq<char> {
    "published: 2016-06-05 17:14:43\ntags: hello\n\n# hello\n\nhello world!\n"@
}

/// The text of the configuration file `init` scaffolds: a TOML `[blog]`
/// table whose `theme` key selects the built-in theme.
pub open spec fn config_text() -> Seq<char> {
    "[blog]\ntheme = \"simple\"\n"@
}

/// The top of the blog: its root directory and the one active theme.
pub struct Mdblog {
    /// The blog's base directory.
    pub root: String,
    /// The active theme.
    pub theme: Theme,
}

impl Mdblog {
    /// A blog bound to `root`, its theme still empty.
    pub fn new(root: &str) -> (m: Mdblog)
        ensures
            m.root@ == root@,
            m.theme.root@ == root@,
            m.theme.name@.len() == 0,
            m.theme.favicon@.len() == 0,
            m.theme.logo@.len() == 0,
            m.theme.main_css@.len() == 0,
            m.theme.main_js@.len() == 0,
            m.theme.base@.len() == 0,
            m.theme.index@.len() == 0,
            m.theme.post@.len() == 0,
            m.theme.tag@.len() == 0,
    {
        Mdblog { root: root.to_owned(), theme: Theme::new(root) }
    }

    /// The files that scaffold a fresh blog, for the caller to write: an
    /// example post and a configuration selecting the `simple` theme.  A
    /// root that already exists is refused, and nothing is to be written.
    pub fn init(&self, root_exists: bool) -> (r: Result<Vec<TextFile>, Error>)
        ensures
            match r {
                Ok(files) => {
                    &&& !root_exists
                    &&& files@.len() == 2
                    &&& files@[0].rel_path@ == "posts/hello.md"@
                    &&& files@[0].data@ == hello_post_text()
                    &&& files@[1].rel_path@ == "config.toml"@
                    &&& files@[1].data@ == config_text()
                },
                Err(e) => root_exists && e == Error::AlreadyExists,
            },
    {
        if root_exists {
            return Err(Error::AlreadyExists);
        }
        let mut files: Vec<TextFile> = Vec::new();
        files.push(
            TextFile {
                rel_path: String::from_str("posts/hello.md"),
                data: String::from_str(
                    "published: 2016-06-05 17:14:43\ntags: hello\n\n# hello\n\nhello world!\n",
                ),
            },
        );
        files.push(
            TextFile {
                rel_path: String::from_str("config.toml"),
                data: String::from_str("[blog]\ntheme = \"simple\"\n"),
            },
        );
        Ok(files)
    }

    /// Loads the named theme into the blog: the caller hands in the bytes
    /// of an override directory when one exists, else the built-in bundle
    /// or a `ThemeNotFound` failure decides.
    pub fn build(&mut self, theme: &str, source: Option<ThemeBundle>) -> (r: Result<(), Error>)
        ensures
            final(self).root == old(self).root,
            final(self).theme.root == old(self).theme.root,
            match r {
                Ok(()) => final(self).theme.name@ == theme@ && (match source {
                    Some(b) => final(self).theme.has_bundle(b),
                    None => theme@ == "simple"@ && final(self).theme.is_builtin_simple(),
                }),
                Err(e) => {
                    &&& source is None && theme@ != "simple"@
                    &&& *final(self) == *old(self)
                    &&& e matches Error::ThemeNotFound(n) && n@ == theme@
                },
            },
    {
        self.theme.load(theme, source)
    }
}

} // verus!
