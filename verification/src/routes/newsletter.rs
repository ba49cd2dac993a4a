//! Publishing an issue of the newsletter.

use crate::http::OK;
use vstd::prelude::*;

verus! {

/// The path under which issues are taken for publication.
pub const NEWSLETTER_PATH: &'static str = "/newsletter";

/// The content of an issue, as HTML and as plain text.
#[derive(Debug, PartialEq, Eq)]
pub struct Content {
    html: String,
    text: String,
}

/// What a [`Content`] stands for.
pub struct ContentView {
    pub html: Seq<char>,
    pub text: Seq<char>,
}

impl View for Content {
    type V = ContentView;

    closed spec fn view(&self) -> ContentView {
        ContentView { html: self.html@, text: self.text@ }
    }
}

impl Content {
    /// The content with the given two forms.
    pub fn new(html: String, text: String) -> (content: Content)
        ensures
            content@ == (ContentView { html: html@, text: text@ }),
    {
        Content { html, text }
    }

    /// The content as HTML.
    pub fn html(&self) -> (r: &str)
        ensures
            r@ == self@.html,
    {
        self.html.as_str()
    }

    /// The content as plain text.
    pub fn text(&self) -> (r: &str)
        ensures
            r@ == self@.text,
    {
        self.text.as_str()
    }
}

/// An issue of the newsletter.
#[derive(Debug, PartialEq, Eq)]
pub struct Newsletter {
    title: String,
    content: Content,
}

/// What a [`Newsletter`] stands for.
pub struct NewsletterView {
    pub title: Seq<char>,
    pub content: ContentView,
}

impl View for Newsletter {
    type V = NewsletterView;

    closed spec fn view(&self) -> NewsletterView {
        NewsletterView { title: self.title@, content: self.content@ }
    }
}

impl Newsletter {
    /// The issue with the given title and content.
    pub fn new(title: String, content: Content) -> (newsletter: Newsletter)
        ensures
            newsletter@ == (NewsletterView { title: title@, content: content@ }),
    {
        Newsletter { title, content }
    }

    /// The title of the issue.
    pub fn title(&self) -> (r: &str)
        ensures
            r@ == self@.title,
    {
        self.title.as_str()
    }

    /// The content of the issue.
    pub fn content(&self) -> (r: &Content)
        ensures
            r@ == self@.content,
    {
        &self.content
    }
}

/// Takes an issue for publication. Nothing is delivered yet: every issue is
/// answered with `200 OK`.
pub fn publish_newsletter(newsletter: Newsletter) -> (status: u16)
    ensures
        status == OK,
{
    OK
}

} // verus!
