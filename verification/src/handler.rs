//! What a request carries and what a failure reports.

use crate::image_manipulation::ImageManipulationFunctionOptions;
use vstd::prelude::*;

verus! {

/// A failure, reported by its text.
#[derive(Debug)]
pub struct APIResponseError {
    name: String,
}

impl View for APIResponseError {
    type V = Seq<char>;

    /// The text that the failure reports.
    closed spec fn view(&self) -> Seq<char> {
        self.name@
    }
}

impl APIResponseError {
    /// The failure that reports `name`.
    pub fn new(name: String) -> (error: Self)
        ensures
            error@ == name@,
    {
        APIResponseError { name }
    }

    /// The text that the failure reports.
    pub fn to_string(&self) -> (text: String)
        ensures
            text@ == self@,
    {
        self.name.clone()
    }
}

/// A message for the caller.
#[derive(Debug)]
pub struct MessageResponse {
    pub message: String,
}

/// The text in which every match of `from` in `text` has given way to `to`.
/// The matches are taken from the left and do not overlap: where `text`
/// starts with `from`, `to` stands for it and the search goes on behind it;
/// else the first character stays and the search goes on behind that.
pub open spec fn replaced(text: Seq<char>, from: Seq<char>, to: Seq<char>) -> Seq<char>
    recommends
        from.len() > 0,
    decreases text.len(),
{
    if from.len() == 0 || text.len() < from.len() {
        text
    } else if text.subrange(0, from.len() as int) == from {
        to + replaced(text.subrange(from.len() as int, text.len() as int), from, to)
    } else {
        seq![text[0]] + replaced(text.subrange(1, text.len() as int), from, to)
    }
}

/// `str::replace` with a string pattern that is not empty: a new string in
/// which every match of `from` in `text` has given way to `to`. The
/// standard library documents the matches of a pattern as disjoint, and as
/// the first of those that would overlap.
#[verifier::external_body]
fn replace(text: &str, from: &str, to: &str) -> (out: String)
    requires
        from@.len() > 0,
    ensures
        out@ == replaced(text@, from@, to@),
{
    text.replace(from, to)
}

/// The address of the PNG form of an image: `.gif`, `.jpg`, `.jpeg` and
/// `.webp` give way to `.png`, one after the other, wherever they stand.
pub open spec fn as_png(url: Seq<char>) -> Seq<char> {
    replaced(
        replaced(replaced(replaced(url, ".gif"@, ".png"@), ".jpg"@, ".png"@), ".jpeg"@, ".png"@),
        ".webp"@,
        ".png"@,
    )
}

/// What a request asks for: the address of an avatar, and two choices that
/// may be left open.
#[derive(Debug)]
pub struct ImageQuery {
    url: String,
    large: Option<bool>,
    flip: Option<bool>,
}

impl ImageQuery {
    /// The address of the avatar.
    pub closed spec fn spec_url(&self) -> Seq<char> {
        self.url@
    }

    /// Whether the large template is asked for, if the request says.
    pub closed spec fn spec_large(&self) -> Option<bool> {
        self.large
    }

    /// Whether a mirrored avatar is asked for, if the request says.
    pub closed spec fn spec_flip(&self) -> Option<bool> {
        self.flip
    }

    /// The address of the avatar.
    pub fn url(&self) -> (url: &str)
        ensures
            url@ == self.spec_url(),
    {
        self.url.as_str()
    }

    /// Whether the large template is asked for, if the request says.
    #[verifier::when_used_as_spec(spec_large)]
    pub fn large(&self) -> (large: Option<bool>)
        ensures
            large == self.spec_large(),
    {
        self.large
    }

    /// Whether a mirrored avatar is asked for, if the request says.
    #[verifier::when_used_as_spec(spec_flip)]
    pub fn flip(&self) -> (flip: Option<bool>)
        ensures
            flip == self.spec_flip(),
    {
        self.flip
    }

    /// The request for the avatar at `url`, with the two choices.
    pub fn new(url: String, large: Option<bool>, flip: Option<bool>) -> (query: ImageQuery)
        ensures
            query.spec_url() == url@,
            query.large() == large,
            query.flip() == flip,
    {
        ImageQuery { url, large, flip }
    }

    /// The choices of the request; one that was left open counts as no.
    pub fn options(&self) -> (options: ImageManipulationFunctionOptions)
        ensures
            options.large == (self.large() == Some(true)),
            options.flip == (self.flip() == Some(true)),
    {
        ImageManipulationFunctionOptions {
            large: self.large.unwrap_or(false),
            flip: self.flip.unwrap_or(false),
        }
    }

    /// The address of the avatar in its PNG form.
    pub fn png_url(&self) -> (address: String)
        ensures
            address@ == as_png(self.spec_url()),
    {
        proof {
            reveal_strlit(".gif");
            reveal_strlit(".jpg");
            reveal_strlit(".jpeg");
            reveal_strlit(".webp");
        }
        let first = replace(self.url.as_str(), ".gif", ".png");
        let second = replace(first.as_str(), ".jpg", ".png");
        let third = replace(second.as_str(), ".jpeg", ".png");
        replace(third.as_str(), ".webp", ".png")
    }
}

} // verus!
