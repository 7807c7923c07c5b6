use vstd::prelude::*;

verus! {

/// A post: its title and its text.
pub struct Post {
    pub title: String,
    pub content: String,
}

/// A post as plain values.
pub struct PostView {
    pub title: Seq<char>,
    pub content: Seq<char>,
}

impl View for Post {
    type V = PostView;

    open spec fn view(&self) -> PostView {
        PostView { title: self.title@, content: self.content@ }
    }
}

impl Post {
    pub fn new(title: String, content: String) -> (r: Post)
        ensures
            r.title == title,
            r.content == content,
    {
        Post { title, content }
    }
}

impl Clone for Post {
    fn clone(&self) -> (r: Post)
        ensures
            r@ == self@,
    {
        Post { title: self.title.clone(), content: self.content.clone() }
    }
}

} // verus!
