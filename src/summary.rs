//! Short summaries of posts, through a trait with a default method.
use vstd::prelude::*;

verus! {

/// Appends `t` to `s`.
///
/// Relies on `String::push_str`: the string afterwards is the old one
/// followed by the characters of `t`.
#[verifier::external_body]
fn push_str(s: &mut String, t: &str)
    ensures
        final(s)@ == old(s)@ + t@,
{
    s.push_str(t)
}

/// Something that can be summed up in one line.
pub trait Summary {
    /// The line; unless the type says otherwise, `"(Reading)"`.
    fn summarize(&self) -> String {
        "(Reading)".to_string()
    }
}

/// An article with its title, author and text.
pub struct Post {
    pub title: String,
    pub author: String,
    pub content: String,
}

impl Summary for Post {
    /// The title and the author.
    fn summarize(&self) -> (r: String)
        ensures
            r@ == "文章"@ + self.title@ + ", 作者是"@ + self.author@,
    {
        let mut s = String::new();
        push_str(&mut s, "文章");
        push_str(&mut s, self.title.as_str());
        push_str(&mut s, ", 作者是");
        push_str(&mut s, self.author.as_str());
        s
    }
}

/// A short message with the name of its sender.
pub struct Weibo {
    pub username: String,
    pub content: String,
}

impl Summary for Weibo {
    /// The sender and the message.
    fn summarize(&self) -> (r: String)
        ensures
            r@ == self.username@ + "发表了微博"@ + self.content@,
    {
        let mut s = String::new();
        push_str(&mut s, self.username.as_str());
        push_str(&mut s, "发表了微博");
        push_str(&mut s, self.content.as_str());
        s
    }
}

} // verus!
