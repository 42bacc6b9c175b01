//! A named grouping of posts sharing a label.

use vstd::prelude::*;

verus! {

/// A blog tag.  Posts are held as indices into the build's master post
/// list, which owns the posts themselves.
pub struct Tag {
    /// The tag's name.
    pub name: String,
    /// How many posts carry the tag; always the length of `posts`.
    pub num: isize,
    /// The tag's url.
    pub url: String,
    /// The posts carrying the tag, in the order they were added.
    pub posts: Vec<usize>,
}

impl Tag {
    /// The count matches the post list.
    pub open spec fn wf(self) -> bool {
        self.num == self.posts@.len()
    }

    /// A tag with no posts.
    pub fn new(name: &str, url: &str) -> (t: Tag)
        ensures
            t.wf(),
            t.name@ == name@,
            t.url@ == url@,
            t.num == 0,
            t.posts@ == Seq::<usize>::empty(),
    {
        Tag { name: name.to_owned(), num: 0, url: url.to_owned(), posts: Vec::new() }
    }

    /// Adds one post: appends it and counts it.  A post added twice is
    /// counted twice.
    pub fn add(&mut self, post: usize)
        requires
            old(self).wf(),
            old(self).num < isize::MAX,
        ensures
            final(self).wf(),
            final(self).num == old(self).num + 1,
            final(self).posts@ == old(self).posts@.push(post),
            final(self).name == old(self).name,
            final(self).url == old(self).url,
    {
        self.num = self.num + 1;
        self.posts.push(post);
    }
}

} // verus!
