//! One Markdown article: a `key: value` header block, a blank-line
//! separator, and a Markdown body.  `load` parses the file's text; the other
//! methods derive the title, date, tags and output paths.

use vstd::multiset::Multiset;
use vstd::prelude::*;
use vstd::string::StrSliceExecFns;
use vstd::string::StringExecFns;

use crate::error::Error;
use crate::jsonmap::json_entries;
use crate::jsonmap::json_map_insert_str;
use crate::jsonmap::json_map_new;
use crate::markdown::html_of;
use crate::markdown::render_markdown;
use crate::metadata::Metadata;
use crate::text::find_char;
use crate::text::find_char_spec;
use crate::text::lemma_find_char_spec;
use crate::text::lemma_rfind_char_spec;
use crate::text::rfind_char;
use crate::text::rfind_char_spec;
use crate::text::sort_strs;
use crate::text::sorted_lex;
use crate::text::split_char;
use crate::text::split_char_spec;
use crate::text::trim;
use crate::text::trim_spec;

verus! {

/// The position of the first blank line (two consecutive newlines) in `s`.
pub open spec fn blank_split_spec(s: Seq<char>) -> Option<int>
    decreases s.len(),
{
    if s.len() < 2 {
        None
    } else if s[0] == '\n' && s[1] == '\n' {
        Some(0int)
    } else {
        match blank_split_spec(s.drop_first()) {
            None => None,
            Some(i) => Some(i + 1),
        }
    }
}

/// What `blank_split_spec` returns: the least position of a blank line, or
/// no position at all.
pub proof fn lemma_blank_split_spec(s: Seq<char>)
    ensures
        match blank_split_spec(s) {
            Some(i) => 0 <= i && i + 1 < s.len() && s[i] == '\n' && s[i + 1] == '\n' && (forall|
                j: int,
            |
                0 <= j < i ==> !((#[trigger] s[j]) == '\n' && s[j + 1] == '\n')),
            None => forall|j: int|
                0 <= j && j + 1 < s.len() ==> !((#[trigger] s[j]) == '\n' && s[j + 1] == '\n'),
        },
    decreases s.len(),
{
    if s.len() < 2 {
    } else if s[0] == '\n' && s[1] == '\n' {
    } else {
        lemma_blank_split_spec(s.drop_first());
        match blank_split_spec(s) {
            Some(i) => {
                assert forall|j: int| 0 <= j < i implies !((#[trigger] s[j]) == '\n' && s[j + 1]
                    == '\n') by {
                    if j > 0 {
                        assert(s[j] == s.drop_first()[j - 1]);
                        assert(s[j + 1] == s.drop_first()[j]);
                    }
                }
            },
            None => {
                assert forall|j: int| 0 <= j && j + 1 < s.len() implies !((#[trigger] s[j]) == '\n'
                    && s[j + 1] == '\n') by {
                    if j > 0 {
                        assert(s[j] == s.drop_first()[j - 1]);
                        assert(s[j + 1] == s.drop_first()[j]);
                    }
                }
            },
        }
    }
}

/// The first blank line of `s`, if any.
fn find_blank(s: &str) -> (r: Option<usize>)
    ensures
        match blank_split_spec(s@) {
            Some(i) => r matches Some(u) && u as int == i,
            None => r is None,
        },
{
    let n = s.unicode_len();
    if n < 2 {
        proof {
            lemma_blank_split_spec(s@);
        }
        return None;
    }
    let mut i: usize = 0;
    while i + 1 < n
        invariant
            i + 1 <= n,
            n == s@.len(),
            forall|j: int| 0 <= j < i ==> !((#[trigger] s@[j]) == '\n' && s@[j + 1] == '\n'),
        decreases n - i,
    {
        if s.get_char(i) == '\n' && s.get_char(i + 1) == '\n' {
            proof {
                lemma_blank_split_spec(s@);
            }
            return Some(i);
        }
        i += 1;
    }
    proof {
        lemma_blank_split_spec(s@);
    }
    None
}

/// The lines of a header block: what splitting on newlines yields, and no
/// line at all for an empty block.
pub open spec fn spec_lines(s: Seq<char>) -> Seq<Seq<char>> {
    if s.len() == 0 {
        Seq::empty()
    } else {
        split_char_spec(s, '\n')
    }
}

/// The key/value pair a header line declares: the parts left and right of
/// its first colon, trimmed.  A line without a colon declares none.
pub open spec fn line_kv(l: Seq<char>) -> Option<(Seq<char>, Seq<char>)> {
    match find_char_spec(l, ':') {
        None => None,
        Some(i) => Some(
            (trim_spec(l.subrange(0, i)), trim_spec(l.subrange(i + 1, l.len() as int))),
        ),
    }
}

/// Every line declares a pair.
pub open spec fn lines_ok(lines: Seq<Seq<char>>) -> bool {
    forall|i: int| 0 <= i < lines.len() ==> #[trigger] line_kv(lines[i]) is Some
}

/// The mapping a header block declares, line by line, a later line
/// overwriting an earlier one of the same key.
pub open spec fn head_map(lines: Seq<Seq<char>>) -> Map<Seq<char>, Seq<char>>
    decreases lines.len(),
{
    if lines.len() == 0 {
        Map::empty()
    } else {
        let m = head_map(lines.drop_last());
        match line_kv(lines.last()) {
            None => m,
            Some(kv) => m.insert(kv.0, kv.1),
        }
    }
}

/// A well-formed header block declares exactly its lines' keys: the mapping
/// holds a key if and only if some line declares it, with the trimmed value
/// `line_kv` gives that line.
pub proof fn lemma_head_map_keys(lines: Seq<Seq<char>>)
    requires
        lines_ok(lines),
    ensures
        forall|k: Seq<char>|
            head_map(lines).contains_key(k) <==> (exists|i: int|
                0 <= i < lines.len() && (#[trigger] line_kv(lines[i]))->Some_0.0 == k),
    decreases lines.len(),
{
    if lines.len() == 0 {
    } else {
        let dl = lines.drop_last();
        assert(lines_ok(dl)) by {
            assert forall|i: int| 0 <= i < dl.len() implies #[trigger] line_kv(dl[i]) is Some by {
                assert(dl[i] == lines[i]);
            }
        }
        lemma_head_map_keys(dl);
        let lastkv = line_kv(lines.last())->Some_0;
        assert(line_kv(lines[lines.len() - 1]) is Some);
        assert forall|k: Seq<char>| head_map(lines).contains_key(k) implies (exists|i: int|
            0 <= i < lines.len() && (#[trigger] line_kv(lines[i]))->Some_0.0 == k) by {
            if k == lastkv.0 {
                assert(line_kv(lines[lines.len() - 1])->Some_0.0 == k);
            } else {
                assert(head_map(lines) == head_map(dl).insert(lastkv.0, lastkv.1));
                assert(head_map(dl).contains_key(k));
                assert(exists|i: int|
                    0 <= i < dl.len() && (#[trigger] line_kv(dl[i]))->Some_0.0 == k);
                let i = choose|i: int|
                    0 <= i < dl.len() && (#[trigger] line_kv(dl[i]))->Some_0.0 == k;
                assert(dl[i] == lines[i]);
                assert(line_kv(lines[i])->Some_0.0 == k);
            }
        }
        assert forall|k: Seq<char>|
            (exists|i: int|
                0 <= i < lines.len() && (#[trigger] line_kv(lines[i]))->Some_0.0 == k) implies
            head_map(lines).contains_key(k) by {
            let i = choose|i: int|
                0 <= i < lines.len() && (#[trigger] line_kv(lines[i]))->Some_0.0 == k;
            if i < lines.len() - 1 {
                assert(dl[i] == lines[i]);
                assert(line_kv(dl[i])->Some_0.0 == k);
                assert(head_map(dl).contains_key(k));
            }
        }
    }
}

/// The error text for a post file without a blank-line separator.
pub open spec fn missing_parts_msg(path: Seq<char>) -> Seq<char> {
    "post("@ + path + ") must both have `head` and `body` parts"@
}

/// The error text for a header line without a colon.
pub open spec fn head_parse_msg(path: Seq<char>, line: Seq<char>) -> Seq<char> {
    "post("@ + path + ") `head` part parse error: "@ + line
}

/// The error text for a path without a file name.
pub open spec fn no_stem_msg(path: Seq<char>) -> Seq<char> {
    "post filename format error: "@ + path
}

/// The error text for a post without a `date` header.
pub open spec fn no_date_msg(path: Seq<char>) -> Seq<char> {
    "post("@ + path + ") require date header"@
}

/// `p` without its trailing slashes, which path handling ignores when it
/// names the final component.
pub open spec fn strip_slashes_spec(p: Seq<char>) -> Seq<char>
    decreases p.len(),
{
    if p.len() > 0 && p.last() == '/' {
        strip_slashes_spec(p.drop_last())
    } else {
        p
    }
}

/// The file-name part of a path: everything after the last slash, trailing
/// slashes ignored.
pub open spec fn spec_file_name(p: Seq<char>) -> Seq<char> {
    let q = strip_slashes_spec(p);
    match rfind_char_spec(q, '/') {
        None => q,
        Some(i) => q.subrange(i + 1, q.len() as int),
    }
}

/// Whether a file name yields a stem: the empty name and the dot
/// components `.` and `..` do not.
pub open spec fn spec_valid_name(name: Seq<char>) -> bool {
    name.len() > 0 && name != "."@ && name != ".."@
}

/// `tail` under `root`: the two joined with a separator, except that an
/// absolute tail stands alone and an empty root adds nothing, as the
/// standard path join has it.
pub open spec fn spec_join(root: Seq<char>, tail: Seq<char>) -> Seq<char> {
    if tail.len() > 0 && tail[0] == '/' {
        tail
    } else if root.len() == 0 {
        tail
    } else {
        root + "/"@ + tail
    }
}

/// The stem of a file name: everything before the last dot, except that a
/// name with no dot, or only a leading one, is its own stem.
pub open spec fn spec_stem_of(name: Seq<char>) -> Seq<char> {
    match rfind_char_spec(name, '.') {
        None => name,
        Some(i) => if i == 0 {
            name
        } else {
            name.subrange(0, i)
        },
    }
}

/// The title a post path derives: the stem of its file name.
pub open spec fn spec_title(p: Seq<char>) -> Seq<char> {
    spec_stem_of(spec_file_name(p))
}

/// `p` with its extension rewritten to `.html`, trailing slashes dropped.
pub open spec fn spec_with_html(p: Seq<char>) -> Seq<char> {
    let q = strip_slashes_spec(p);
    q.subrange(0, q.len() - spec_file_name(p).len()) + spec_stem_of(spec_file_name(p)) + ".html"@
}

/// `p` without its trailing slashes.
fn strip_slashes(p: &str) -> (r: &str)
    ensures
        r@ == strip_slashes_spec(p@),
    decreases p@.len(),
{
    let n = p.unicode_len();
    if n > 0 && p.get_char(n - 1) == '/' {
        strip_slashes(p.substring_char(0, n - 1))
    } else {
        p
    }
}

/// The file-name part of `p`.
fn file_name_of(p: &str) -> (r: &str)
    ensures
        r@ == spec_file_name(p@),
{
    let q = strip_slashes(p);
    let n = q.unicode_len();
    proof {
        lemma_rfind_char_spec(q@, '/');
    }
    match rfind_char(q, '/') {
        None => q,
        Some(i) => q.substring_char(i + 1, n),
    }
}

/// `tail` under `root`, joined as the standard path join would.
fn join_path(root: &str, tail: &str) -> (r: String)
    ensures
        r@ == spec_join(root@, tail@),
{
    if tail.unicode_len() > 0 && tail.get_char(0) == '/' {
        tail.to_owned()
    } else if root.unicode_len() == 0 {
        tail.to_owned()
    } else {
        root.to_owned().concat("/").concat(tail)
    }
}

/// The stem of a file name.
fn stem_of_name(name: &str) -> (r: &str)
    ensures
        r@ == spec_stem_of(name@),
{
    proof {
        lemma_rfind_char_spec(name@, '.');
    }
    match rfind_char(name, '.') {
        None => name,
        Some(j) => if j == 0 {
            name
        } else {
            name.substring_char(0, j)
        },
    }
}

/// `p` with its extension rewritten to `.html`.
fn with_html_ext(p: &str) -> (r: String)
    ensures
        r@ == spec_with_html(p@),
{
    let q = strip_slashes(p);
    let n = q.unicode_len();
    proof {
        lemma_rfind_char_spec(q@, '/');
    }
    let start: usize = match rfind_char(q, '/') {
        None => 0,
        Some(i) => i + 1,
    };
    let dir = q.substring_char(0, start);
    let name = q.substring_char(start, n);
    let stem = stem_of_name(name);
    let r = dir.to_owned().concat(stem).concat(".html");
    proof {
        assert(name@ == spec_file_name(p@));
        assert(r@ =~= spec_with_html(p@));
    }
    r
}

/// One blog post, read from `root/path`.
pub struct Post {
    /// The blog's base directory.
    pub root: String,
    /// The post file's path, relative to `root`.
    pub path: String,
    /// The raw header block, before the first blank line.
    pub head: String,
    /// The raw Markdown body, after the first blank line.
    pub body: String,
    /// The mapping the header block declares.
    pub metadata: Metadata,
}

impl Post {
    /// The metadata is well formed.
    pub open spec fn wf(self) -> bool {
        self.metadata.wf()
    }

    /// An unloaded post bound to `root/path`.
    pub fn new(root: &str, path: &str) -> (p: Post)
        ensures
            p.wf(),
            p.root@ == root@,
            p.path@ == path@,
            p.head@.len() == 0,
            p.body@.len() == 0,
            p.metadata.model() == Map::<Seq<char>, Seq<char>>::empty(),
    {
        Post {
            root: root.to_owned(),
            path: path.to_owned(),
            head: String::new(),
            body: String::new(),
            metadata: Metadata::new(),
        }
    }

    /// The source file's full path: the post path under the root, an
    /// absolute post path standing alone.
    pub fn src(&self) -> (r: String)
        ensures
            r@ == spec_join(self.root@, self.path@),
    {
        join_path(self.root.as_str(), self.path.as_str())
    }

    /// The rendered file's full path under the build tree.
    pub fn dest(&self) -> (r: String)
        ensures
            r@ == spec_join(
                spec_join(self.root@, "_builds/blog"@),
                spec_with_html(self.path@),
            ),
    {
        let base = join_path(self.root.as_str(), "_builds/blog");
        let tail = with_html_ext(self.path.as_str());
        join_path(base.as_str(), tail.as_str())
    }

    /// The post's URL under the fixed `/blog` prefix, an absolute post path
    /// standing alone.
    pub fn url(&self) -> (r: String)
        ensures
            r@ == spec_join("/blog"@, spec_with_html(self.path@)),
    {
        let tail = with_html_ext(self.path.as_str());
        join_path("/blog", tail.as_str())
    }

    /// The post's title: the stem of its file name.  A path whose final
    /// component is empty, `.` or `..` has none.
    pub fn title(&self) -> (r: Result<String, Error>)
        ensures
            match r {
                Ok(t) => spec_valid_name(spec_file_name(self.path@)) && t@ == spec_title(
                    self.path@,
                ),
                Err(e) => {
                    &&& !spec_valid_name(spec_file_name(self.path@))
                    &&& e matches Error::FormatError(m) && m@ == no_stem_msg(self.path@)
                },
            },
    {
        let name = file_name_of(self.path.as_str());
        let owned = name.to_owned();
        if name.unicode_len() == 0 || owned == String::from_str(".") || owned == String::from_str(
            "..",
        ) {
            Err(
                Error::FormatError(
                    String::from_str("post filename format error: ").concat(self.path.as_str()),
                ),
            )
        } else {
            Ok(stem_of_name(name).to_owned())
        }
    }

    /// The post's date, as its `date` header declares it.
    pub fn datetime(&self) -> (r: Result<String, Error>)
        requires
            self.wf(),
        ensures
            match r {
                Ok(d) => self.metadata.model().contains_key("date"@) && d@
                    == self.metadata.model()["date"@],
                Err(e) => {
                    &&& !self.metadata.model().contains_key("date"@)
                    &&& e matches Error::FormatError(m) && m@ == no_date_msg(self.path@)
                },
            },
    {
        match self.metadata.get("date") {
            Some(d) => Ok(d),
            None => Err(
                Error::FormatError(
                    String::from_str("post(").concat(self.path.as_str()).concat(
                        ") require date header",
                    ),
                ),
            ),
        }
    }

    /// Parses the post file's text: splits it at the first blank line into
    /// header and body, and the header's lines at their first colon into
    /// trimmed key/value pairs.  On failure the post is left as it was.
    pub fn load(&mut self, content: &str) -> (r: Result<(), Error>)
        requires
            old(self).wf(),
        ensures
            final(self).wf(),
            final(self).root == old(self).root,
            final(self).path == old(self).path,
            match r {
                Ok(()) => blank_split_spec(content@) matches Some(i)
                    && lines_ok(spec_lines(content@.subrange(0, i)))
                    && final(self).head@ == content@.subrange(0, i)
                    && final(self).body@ == content@.subrange(i + 2, content@.len() as int)
                    && final(self).metadata.model() == head_map(
                    spec_lines(content@.subrange(0, i)),
                ),
                Err(e) => {
                    &&& *final(self) == *old(self)
                    &&& e matches Error::FormatError(m) && (match blank_split_spec(content@) {
                    None => m@ == missing_parts_msg(old(self).path@),
                    Some(i) => {
                        let lines = spec_lines(content@.subrange(0, i));
                        exists|b: int|
                            0 <= b < lines.len() && #[trigger] line_kv(lines[b]) is None && (forall|
                                a: int,
                            | 0 <= a < b ==> line_kv(lines[a]) is Some) && m@ == head_parse_msg(
                                old(self).path@,
                                lines[b],
                            )
                    },
                })
                },
            },
    {
        let n = content.unicode_len();
        match find_blank(content) {
            None => Err(
                Error::FormatError(
                    String::from_str("post(").concat(self.path.as_str()).concat(
                        ") must both have `head` and `body` parts",
                    ),
                ),
            ),
            Some(i) => {
                proof {
                    lemma_blank_split_spec(content@);
                }
                let head = content.substring_char(0, i);
                let body = content.substring_char(i + 2, n);
                let lines: Vec<String> = if head.unicode_len() == 0 {
                    Vec::new()
                } else {
                    split_char(head, '\n')
                };
                let ghost lsv = lines@.map_values(|t: String| t@);
                proof {
                    assert(lsv == spec_lines(head@));
                }
                let mut md = Metadata::new();
                let mut li: usize = 0;
                while li < lines.len()
                    invariant
                        li <= lines.len(),
                        *self == *old(self),
                        self.wf(),
                        n == content@.len(),
                        blank_split_spec(content@) matches Some(bi) && bi == i as int && i + 2
                            <= n,
                        head@ == content@.subrange(0, i as int),
                        body@ == content@.subrange(i as int + 2, content@.len() as int),
                        lsv == lines@.map_values(|t: String| t@),
                        lsv == spec_lines(content@.subrange(0, i as int)),
                        md.wf(),
                        md.model() == head_map(lsv.subrange(0, li as int)),
                        forall|a: int| 0 <= a < li ==> #[trigger] line_kv(lsv[a]) is Some,
                    decreases lines.len() - li,
                {
                    let line = lines[li].as_str();
                    let ln = line.unicode_len();
                    match find_char(line, ':') {
                        None => {
                            let msg = String::from_str("post(").concat(self.path.as_str()).concat(
                                ") `head` part parse error: ",
                            ).concat(line);
                            proof {
                                assert(line@ == lsv[li as int]);
                                assert(line_kv(lsv[li as int]) is None);
                                assert(msg@ == head_parse_msg(old(self).path@, lsv[li as int]));
                            }
                            return Err(Error::FormatError(msg));
                        },
                        Some(c) => {
                            proof {
                                lemma_find_char_spec(line@, ':');
                            }
                            let key = trim(line.substring_char(0, c)).to_owned();
                            let val = trim(line.substring_char(c + 1, ln)).to_owned();
                            md.insert(key, val);
                            proof {
                                assert(lsv.subrange(0, li as int + 1).drop_last() =~= lsv.subrange(
                                    0,
                                    li as int,
                                ));
                                assert(lsv.subrange(0, li as int + 1).last() == lsv[li as int]);
                            }
                        },
                    }
                    li += 1;
                }
                proof {
                    assert(lsv.subrange(0, lsv.len() as int) =~= lsv);
                }
                self.head = head.to_owned();
                self.body = body.to_owned();
                self.metadata = md;
                Ok(())
            },
        }
    }

    /// The body rendered as HTML, tables enabled; computed afresh each
    /// call.
    pub fn content(&self) -> (r: String)
        ensures
            r@ == html_of(self.body@),
    {
        render_markdown(self.body.as_str())
    }

    /// The projection the templating layer consumes: the post's title, url
    /// and datetime, as the entries of a JSON object map.
    pub fn map(&self) -> (r: Result<serde_json::Map<String, serde_json::Value>, Error>)
        requires
            self.wf(),
        ensures
            match r {
                Ok(m) => {
                    &&& spec_valid_name(spec_file_name(self.path@))
                    &&& self.metadata.model().contains_key("date"@)
                    &&& json_entries(m) == Map::<Seq<char>, Seq<char>>::empty().insert(
                        "title"@,
                        spec_title(self.path@),
                    ).insert("url"@, spec_join("/blog"@, spec_with_html(self.path@))).insert(
                        "datetime"@,
                        self.metadata.model()["date"@],
                    )
                },
                Err(e) => e matches Error::FormatError(m) && (if !spec_valid_name(
                    spec_file_name(self.path@),
                ) {
                    m@ == no_stem_msg(self.path@)
                } else {
                    !self.metadata.model().contains_key("date"@) && m@ == no_date_msg(self.path@)
                }),
            },
    {
        let title = match self.title() {
            Ok(t) => t,
            Err(e) => {
                return Err(e);
            },
        };
        let datetime = match self.datetime() {
            Ok(d) => d,
            Err(e) => {
                return Err(e);
            },
        };
        let url = self.url();
        let mut m = json_map_new();
        json_map_insert_str(&mut m, "title", title.as_str());
        json_map_insert_str(&mut m, "url", url.as_str());
        json_map_insert_str(&mut m, "datetime", datetime.as_str());
        Ok(m)
    }

    /// The pieces of a `tags` header: split at commas, trimmed, empty pieces
    /// dropped.
    pub open spec fn clean_parts(parts: Seq<Seq<char>>) -> Seq<Seq<char>>
        decreases parts.len(),
    {
        if parts.len() == 0 {
            Seq::empty()
        } else {
            let rest = Self::clean_parts(parts.drop_last());
            let t = trim_spec(parts.last());
            if t.len() == 0 {
                rest
            } else {
                rest.push(t)
            }
        }
    }

    /// The tags a `tags` header value declares, with multiplicity.
    pub open spec fn tag_multiset(s: Seq<char>) -> Multiset<Seq<char>> {
        Self::clean_parts(split_char_spec(s, ',')).to_multiset()
    }

    /// The post's tags: the comma-separated pieces of its `tags` header,
    /// trimmed, empty pieces dropped, sorted ascending; none without the
    /// header.
    pub fn tags(&self) -> (r: Vec<String>)
        requires
            self.wf(),
        ensures
            sorted_lex(r@.map_values(|t: String| t@)),
            self.metadata.model().contains_key("tags"@) ==> r@.map_values(
                |t: String| t@,
            ).to_multiset() == Self::tag_multiset(self.metadata.model()["tags"@]),
            !self.metadata.model().contains_key("tags"@) ==> r@.len() == 0,
    {
        match self.metadata.get("tags") {
            None => Vec::new(),
            Some(ts) => {
                let parts = split_char(ts.as_str(), ',');
                let ghost pv = parts@.map_values(|t: String| t@);
                let mut cleaned: Vec<String> = Vec::new();
                let mut i: usize = 0;
                while i < parts.len()
                    invariant
                        i <= parts.len(),
                        pv == parts@.map_values(|t: String| t@),
                        cleaned@.map_values(|t: String| t@) == Self::clean_parts(
                            pv.subrange(0, i as int),
                        ),
                    decreases parts.len() - i,
                {
                    let t = trim(parts[i].as_str());
                    if t.unicode_len() != 0 {
                        cleaned.push(t.to_owned());
                    }
                    proof {
                        assert(pv.subrange(0, i as int + 1).drop_last() =~= pv.subrange(
                            0,
                            i as int,
                        ));
                        assert(pv.subrange(0, i as int + 1).last() == pv[i as int]);
                    }
                    i += 1;
                }
                proof {
                    assert(pv.subrange(0, pv.len() as int) =~= pv);
                }
                sort_strs(cleaned)
            },
        }
    }
}

} // verus!
