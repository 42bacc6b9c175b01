//! A theme: a named bundle of four templates and four static assets.  The
//! bytes come either from an override directory under `_themes/` (read by
//! the caller and handed in whole) or from the built-in `simple` bundle.

use vstd::prelude::*;
use vstd::string::StringExecFns;

use crate::error::Error;
use crate::files::OutFile;

verus! {

/// The built-in theme's `favicon` bytes: the PNG signature followed by a marker byte.
pub open spec fn simple_favicon() -> Seq<u8> {
    seq![137u8, 80u8, 78u8, 71u8, 13u8, 10u8, 26u8, 10u8, 70u8]
}

/// The built-in theme's `logo` bytes: the PNG signature followed by a marker byte.
pub open spec fn simple_logo() -> Seq<u8> {
    seq![137u8, 80u8, 78u8, 71u8, 13u8, 10u8, 26u8, 10u8, 76u8]
}

/// The built-in theme's `main_css` bytes: the text `.blog{margin:0}`.
pub open spec fn simple_main_css() -> Seq<u8> {
    seq![46u8, 98u8, 108u8, 111u8, 103u8, 123u8, 109u8, 97u8, 114u8, 103u8, 105u8, 110u8, 58u8, 48u8, 125u8]
}

/// The built-in theme's `main_js` bytes: the text `var blog={};`.
pub open spec fn simple_main_js() -> Seq<u8> {
    seq![118u8, 97u8, 114u8, 32u8, 98u8, 108u8, 111u8, 103u8, 61u8, 123u8, 125u8, 59u8]
}

/// The built-in theme's `base` bytes: the text `<html>{{ content }}</html>`.
pub open spec fn simple_base() -> Seq<u8> {
    seq![60u8, 104u8, 116u8, 109u8, 108u8, 62u8, 123u8, 123u8, 32u8, 99u8, 111u8, 110u8, 116u8, 101u8, 110u8, 116u8, 32u8, 125u8, 125u8, 60u8, 47u8, 104u8, 116u8, 109u8, 108u8, 62u8]
}

/// The built-in theme's `index` bytes: the text `{{ index }}`.
pub open spec fn simple_index() -> Seq<u8> {
    seq![123u8, 123u8, 32u8, 105u8, 110u8, 100u8, 101u8, 120u8, 32u8, 125u8, 125u8]
}

/// The built-in theme's `post` bytes: the text `{{ post }}`.
pub open spec fn simple_post() -> Seq<u8> {
    seq![123u8, 123u8, 32u8, 112u8, 111u8, 115u8, 116u8, 32u8, 125u8, 125u8]
}

/// The built-in theme's `tag` bytes: the text `{{ tag }}`.
pub open spec fn simple_tag() -> Seq<u8> {
    seq![123u8, 123u8, 32u8, 116u8, 97u8, 103u8, 32u8, 125u8, 125u8]
}

fn simple_favicon_bytes() -> (r: Vec<u8>)
    ensures
        r@ == simple_favicon(),
{
    let mut v: Vec<u8> = Vec::new();
    v.push(137u8);
    v.push(80u8);
    v.push(78u8);
    v.push(71u8);
    v.push(13u8);
    v.push(10u8);
    v.push(26u8);
    v.push(10u8);
    v.push(70u8);
    proof {
        assert(v@ =~= simple_favicon());
    }
    v
}

fn simple_logo_bytes() -> (r: Vec<u8>)
    ensures
        r@ == simple_logo(),
{
    let mut v: Vec<u8> = Vec::new();
    v.push(137u8);
    v.push(80u8);
    v.push(78u8);
    v.push(71u8);
    v.push(13u8);
    v.push(10u8);
    v.push(26u8);
    v.push(10u8);
    v.push(76u8);
    proof {
        assert(v@ =~= simple_logo());
    }
    v
}

fn simple_main_css_bytes() -> (r: Vec<u8>)
    ensures
        r@ == simple_main_css(),
{
    let mut v: Vec<u8> = Vec::new();
    v.push(46u8);
    v.push(98u8);
    v.push(108u8);
    v.push(111u8);
    v.push(103u8);
    v.push(123u8);
    v.push(109u8);
    v.push(97u8);
    v.push(114u8);
    v.push(103u8);
    v.push(105u8);
    v.push(110u8);
    v.push(58u8);
    v.push(48u8);
    v.push(125u8);
    proof {
        assert(v@ =~= simple_main_css());
    }
    v
}

fn simple_main_js_bytes() -> (r: Vec<u8>)
    ensures
        r@ == simple_main_js(),
{
    let mut v: Vec<u8> = Vec::new();
    v.push(118u8);
    v.push(97u8);
    v.push(114u8);
    v.push(32u8);
    v.push(98u8);
    v.push(108u8);
    v.push(111u8);
    v.push(103u8);
    v.push(61u8);
    v.push(123u8);
    v.push(125u8);
    v.push(59u8);
    proof {
        assert(v@ =~= simple_main_js());
    }
    v
}

fn simple_base_bytes() -> (r: Vec<u8>)
    ensures
        r@ == simple_base(),
{
    let mut v: Vec<u8> = Vec::new();
    v.push(60u8);
    v.push(104u8);
    v.push(116u8);
    v.push(109u8);
    v.push(108u8);
    v.push(62u8);
    v.push(123u8);
    v.push(123u8);
    v.push(32u8);
    v.push(99u8);
    v.push(111u8);
    v.push(110u8);
    v.push(116u8);
    v.push(101u8);
    v.push(110u8);
    v.push(116u8);
    v.push(32u8);
    v.push(125u8);
    v.push(125u8);
    v.push(60u8);
    v.push(47u8);
    v.push(104u8);
    v.push(116u8);
    v.push(109u8);
    v.push(108u8);
    v.push(62u8);
    proof {
        assert(v@ =~= simple_base());
    }
    v
}

fn simple_index_bytes() -> (r: Vec<u8>)
    ensures
        r@ == simple_index(),
{
    let mut v: Vec<u8> = Vec::new();
    v.push(123u8);
    v.push(123u8);
    v.push(32u8);
    v.push(105u8);
    v.push(110u8);
    v.push(100u8);
    v.push(101u8);
    v.push(120u8);
    v.push(32u8);
    v.push(125u8);
    v.push(125u8);
    proof {
        assert(v@ =~= simple_index());
    }
    v
}

fn simple_post_bytes() -> (r: Vec<u8>)
    ensures
        r@ == simple_post(),
{
    let mut v: Vec<u8> = Vec::new();
    v.push(123u8);
    v.push(123u8);
    v.push(32u8);
    v.push(112u8);
    v.push(111u8);
    v.push(115u8);
    v.push(116u8);
    v.push(32u8);
    v.push(125u8);
    v.push(125u8);
    proof {
        assert(v@ =~= simple_post());
    }
    v
}

fn simple_tag_bytes() -> (r: Vec<u8>)
    ensures
        r@ == simple_tag(),
{
    let mut v: Vec<u8> = Vec::new();
    v.push(123u8);
    v.push(123u8);
    v.push(32u8);
    v.push(116u8);
    v.push(97u8);
    v.push(103u8);
    v.push(32u8);
    v.push(125u8);
    v.push(125u8);
    proof {
        assert(v@ =~= simple_tag());
    }
    v
}

/// The eight blobs a theme is made of, read from one source.
pub struct ThemeBundle {
    /// The `static/favicon.png` bytes.
    pub favicon: Vec<u8>,
    /// The `static/logo.png` bytes.
    pub logo: Vec<u8>,
    /// The `static/main.css` bytes.
    pub main_css: Vec<u8>,
    /// The `static/main.js` bytes.
    pub main_js: Vec<u8>,
    /// The `templates/base.tpl` bytes.
    pub base: Vec<u8>,
    /// The `templates/index.tpl` bytes.
    pub index: Vec<u8>,
    /// The `templates/post.tpl` bytes.
    pub post: Vec<u8>,
    /// The `templates/tag.tpl` bytes.
    pub tag: Vec<u8>,
}

/// Copies a byte vector.
fn clone_bytes(v: &Vec<u8>) -> (r: Vec<u8>)
    ensures
        r@ == v@,
{
    vstd::slice::slice_to_vec(v.as_slice())
}

/// The built-in `simple` theme, embedded in the library.
pub fn simple_source() -> (b: ThemeBundle)
    ensures
            b.favicon@ == simple_favicon(),
            b.logo@ == simple_logo(),
            b.main_css@ == simple_main_css(),
            b.main_js@ == simple_main_js(),
            b.base@ == simple_base(),
            b.index@ == simple_index(),
            b.post@ == simple_post(),
            b.tag@ == simple_tag(),
{
    ThemeBundle {
        favicon: simple_favicon_bytes(),
        logo: simple_logo_bytes(),
        main_css: simple_main_css_bytes(),
        main_js: simple_main_js_bytes(),
        base: simple_base_bytes(),
        index: simple_index_bytes(),
        post: simple_post_bytes(),
        tag: simple_tag_bytes(),
    }
}

/// A theme bound to a blog root: empty until a `load` succeeds, then all
/// eight blobs from one source.
pub struct Theme {
    /// The blog's base directory.
    pub root: String,
    /// The loaded theme's name; empty while nothing is loaded.
    pub name: String,
    /// The `static/favicon.png` bytes of the loaded theme.
    pub favicon: Vec<u8>,
    /// The `static/logo.png` bytes of the loaded theme.
    pub logo: Vec<u8>,
    /// The `static/main.css` bytes of the loaded theme.
    pub main_css: Vec<u8>,
    /// The `static/main.js` bytes of the loaded theme.
    pub main_js: Vec<u8>,
    /// The `templates/base.tpl` bytes of the loaded theme.
    pub base: Vec<u8>,
    /// The `templates/index.tpl` bytes of the loaded theme.
    pub index: Vec<u8>,
    /// The `templates/post.tpl` bytes of the loaded theme.
    pub post: Vec<u8>,
    /// The `templates/tag.tpl` bytes of the loaded theme.
    pub tag: Vec<u8>,
}

impl Theme {
    /// All eight blobs are the bundle's, byte for byte.
    pub open spec fn has_bundle(self, b: ThemeBundle) -> bool {
        &&& self.favicon@ == b.favicon@
        &&& self.logo@ == b.logo@
        &&& self.main_css@ == b.main_css@
        &&& self.main_js@ == b.main_js@
        &&& self.base@ == b.base@
        &&& self.index@ == b.index@
        &&& self.post@ == b.post@
        &&& self.tag@ == b.tag@
    }

    /// All eight blobs are the built-in `simple` bundle's.
    pub open spec fn is_builtin_simple(self) -> bool {
        &&& self.favicon@ == simple_favicon()
        &&& self.logo@ == simple_logo()
        &&& self.main_css@ == simple_main_css()
        &&& self.main_js@ == simple_main_js()
        &&& self.base@ == simple_base()
        &&& self.index@ == simple_index()
        &&& self.post@ == simple_post()
        &&& self.tag@ == simple_tag()
    }

    /// What `init_dir` asks the caller to write: the eight blobs under
    /// `_themes/<name>/`.
    pub open spec fn theme_dir_files(self, name: Seq<char>, files: Seq<OutFile>) -> bool {
        &&& files.len() == 8
        &&& files[0].rel_path@ == "_themes/"@ + name + "/static/favicon.png"@
        &&& files[0].data@ == self.favicon@
        &&& files[1].rel_path@ == "_themes/"@ + name + "/static/logo.png"@
        &&& files[1].data@ == self.logo@
        &&& files[2].rel_path@ == "_themes/"@ + name + "/static/main.css"@
        &&& files[2].data@ == self.main_css@
        &&& files[3].rel_path@ == "_themes/"@ + name + "/static/main.js"@
        &&& files[3].data@ == self.main_js@
        &&& files[4].rel_path@ == "_themes/"@ + name + "/templates/base.tpl"@
        &&& files[4].data@ == self.base@
        &&& files[5].rel_path@ == "_themes/"@ + name + "/templates/index.tpl"@
        &&& files[5].data@ == self.index@
        &&& files[6].rel_path@ == "_themes/"@ + name + "/templates/post.tpl"@
        &&& files[6].data@ == self.post@
        &&& files[7].rel_path@ == "_themes/"@ + name + "/templates/tag.tpl"@
        &&& files[7].data@ == self.tag@
    }

    /// What `export_static` asks the caller to write: the four static
    /// assets under `<dir>/static/`.
    pub open spec fn static_files(self, dir: Seq<char>, files: Seq<OutFile>) -> bool {
        &&& files.len() == 4
        &&& files[0].rel_path@ == dir + "/static/favicon.png"@
        &&& files[0].data@ == self.favicon@
        &&& files[1].rel_path@ == dir + "/static/logo.png"@
        &&& files[1].data@ == self.logo@
        &&& files[2].rel_path@ == dir + "/static/main.css"@
        &&& files[2].data@ == self.main_css@
        &&& files[3].rel_path@ == dir + "/static/main.js"@
        &&& files[3].data@ == self.main_js@
    }

    /// An empty theme bound to `root`.
    pub fn new(root: &str) -> (t: Theme)
        ensures
            t.root@ == root@,
            t.name@.len() == 0,
            t.favicon@.len() == 0,
            t.logo@.len() == 0,
            t.main_css@.len() == 0,
            t.main_js@.len() == 0,
            t.base@.len() == 0,
            t.index@.len() == 0,
            t.post@.len() == 0,
            t.tag@.len() == 0,
    {
        Theme {
            root: root.to_owned(),
            name: String::new(),
            favicon: Vec::new(),
            logo: Vec::new(),
            main_css: Vec::new(),
            main_js: Vec::new(),
            base: Vec::new(),
            index: Vec::new(),
            post: Vec::new(),
            tag: Vec::new(),
        }
    }

    /// Empties the name and all eight blobs.
    pub fn clear(&mut self)
        ensures
            final(self).root == old(self).root,
            final(self).name@.len() == 0,
            final(self).favicon@.len() == 0,
            final(self).logo@.len() == 0,
            final(self).main_css@.len() == 0,
            final(self).main_js@.len() == 0,
            final(self).base@.len() == 0,
            final(self).index@.len() == 0,
            final(self).post@.len() == 0,
            final(self).tag@.len() == 0,
    {
        self.name = String::new();
        self.favicon = Vec::new();
        self.logo = Vec::new();
        self.main_css = Vec::new();
        self.main_js = Vec::new();
        self.base = Vec::new();
        self.index = Vec::new();
        self.post = Vec::new();
        self.tag = Vec::new();
    }

    /// Installs a theme: the bytes of an override directory when the caller
    /// found one and read them, else the built-in `simple` bundle when that
    /// is the name asked for; any other name fails with `ThemeNotFound` and
    /// leaves the theme as it was.  All eight blobs are replaced together.
    pub fn load(&mut self, name: &str, source: Option<ThemeBundle>) -> (r: Result<(), Error>)
        ensures
            final(self).root == old(self).root,
            match r {
                Ok(()) => final(self).name@ == name@ && (match source {
                    Some(b) => final(self).has_bundle(b),
                    None => name@ == "simple"@ && final(self).is_builtin_simple(),
                }),
                Err(e) => {
                    &&& source is None && name@ != "simple"@
                    &&& *final(self) == *old(self)
                    &&& e matches Error::ThemeNotFound(n) && n@ == name@
                },
            },
    {
        match source {
            Some(b) => {
                self.name = name.to_owned();
                self.favicon = b.favicon;
                self.logo = b.logo;
                self.main_css = b.main_css;
                self.main_js = b.main_js;
                self.base = b.base;
                self.index = b.index;
                self.post = b.post;
                self.tag = b.tag;
                Ok(())
            },
            None => {
                if name.to_owned() == String::from_str("simple") {
                    let src = simple_source();
                    self.name = name.to_owned();
                    self.favicon = src.favicon;
                    self.logo = src.logo;
                    self.main_css = src.main_css;
                    self.main_js = src.main_js;
                    self.base = src.base;
                    self.index = src.index;
                    self.post = src.post;
                    self.tag = src.tag;
                    Ok(())
                } else {
                    Err(Error::ThemeNotFound(name.to_owned()))
                }
            },
        }
    }

    /// The files that scaffold this theme under `_themes/<name>/`, for the
    /// caller to write; writing is skipped by the caller when the directory
    /// already exists.
    pub fn init_dir(&self, name: &str) -> (r: Vec<OutFile>)
        ensures
            self.theme_dir_files(name@, r@),
    {
        let mut v: Vec<OutFile> = Vec::new();
        v.push(
            OutFile {
                rel_path: String::from_str("_themes/").concat(name).concat("/static/favicon.png"),
                data: clone_bytes(&self.favicon),
            },
        );
        v.push(
            OutFile {
                rel_path: String::from_str("_themes/").concat(name).concat("/static/logo.png"),
                data: clone_bytes(&self.logo),
            },
        );
        v.push(
            OutFile {
                rel_path: String::from_str("_themes/").concat(name).concat("/static/main.css"),
                data: clone_bytes(&self.main_css),
            },
        );
        v.push(
            OutFile {
                rel_path: String::from_str("_themes/").concat(name).concat("/static/main.js"),
                data: clone_bytes(&self.main_js),
            },
        );
        v.push(
            OutFile {
                rel_path: String::from_str("_themes/").concat(name).concat("/templates/base.tpl"),
                data: clone_bytes(&self.base),
            },
        );
        v.push(
            OutFile {
                rel_path: String::from_str("_themes/").concat(name).concat("/templates/index.tpl"),
                data: clone_bytes(&self.index),
            },
        );
        v.push(
            OutFile {
                rel_path: String::from_str("_themes/").concat(name).concat("/templates/post.tpl"),
                data: clone_bytes(&self.post),
            },
        );
        v.push(
            OutFile {
                rel_path: String::from_str("_themes/").concat(name).concat("/templates/tag.tpl"),
                data: clone_bytes(&self.tag),
            },
        );
        v
    }

    /// The four static assets under `<dir>/static/`, for the caller to
    /// write into the build output tree.
    pub fn export_static(&self, dir: &str) -> (r: Vec<OutFile>)
        ensures
            self.static_files(dir@, r@),
    {
        let mut v: Vec<OutFile> = Vec::new();
        v.push(
            OutFile {
                rel_path: dir.to_owned().concat("/static/favicon.png"),
                data: clone_bytes(&self.favicon),
            },
        );
        v.push(
            OutFile {
                rel_path: dir.to_owned().concat("/static/logo.png"),
                data: clone_bytes(&self.logo),
            },
        );
        v.push(
            OutFile {
                rel_path: dir.to_owned().concat("/static/main.css"),
                data: clone_bytes(&self.main_css),
            },
        );
        v.push(
            OutFile {
                rel_path: dir.to_owned().concat("/static/main.js"),
                data: clone_bytes(&self.main_js),
            },
        );
        v
    }
}

/// A bundle assembled from scaffolded theme files, in the order `init_dir`
/// lists them.
pub open spec fn bundle_of_files(b: ThemeBundle, files: Seq<OutFile>) -> bool {
    &&& files.len() == 8
        &&& b.favicon@ == files[0].data@
        &&& b.logo@ == files[1].data@
        &&& b.main_css@ == files[2].data@
        &&& b.main_js@ == files[3].data@
        &&& b.base@ == files[4].data@
        &&& b.index@ == files[5].data@
        &&& b.post@ == files[6].data@
        &&& b.tag@ == files[7].data@
}

/// Scaffolding a theme to disk and loading it back reproduces the blobs,
/// byte for byte: the files `init_dir` lists, gathered into a bundle and
/// installed by `load`, yield the theme they came from.
pub proof fn lemma_theme_round_trip(t1: Theme, files: Seq<OutFile>, b: ThemeBundle, t2: Theme, name: Seq<char>)
    requires
        t1.theme_dir_files(name, files),
        bundle_of_files(b, files),
        t2.has_bundle(b),
    ensures
        t2.favicon@ == t1.favicon@,
        t2.logo@ == t1.logo@,
        t2.main_css@ == t1.main_css@,
        t2.main_js@ == t1.main_js@,
        t2.base@ == t1.base@,
        t2.index@ == t1.index@,
        t2.post@ == t1.post@,
        t2.tag@ == t1.tag@,
{
}

} // verus!
