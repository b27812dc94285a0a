//! The raw repository record, as the upstream source hands it over.

use vstd::prelude::*;

verus! {

/// One repository as reported upstream. The source declares the three flags
/// optional although it sends them for every repository that the
/// authenticated user owns.
#[derive(Debug, PartialEq, Eq)]
pub struct RawRepo {
    pub id: u64,
    pub html_url: Option<String>,
    pub name: String,
    pub description: Option<String>,
    pub language: Option<String>,
    pub private: Option<bool>,
    pub fork: Option<bool>,
    pub archived: Option<bool>,
}

/// The mathematical content of a [`RawRepo`].
pub struct RawRepoView {
    pub id: u64,
    pub html_url: Option<Seq<char>>,
    pub name: Seq<char>,
    pub description: Option<Seq<char>>,
    pub language: Option<Seq<char>>,
    pub private: Option<bool>,
    pub fork: Option<bool>,
    pub archived: Option<bool>,
}

impl RawRepoView {
    /// Whether the record carries both flags that decide how it is shown.
    pub open spec fn projectable(self) -> bool {
        self.private is Some && self.fork is Some
    }
}

/// The characters of an optional text.
pub open spec fn text_of(text: Option<String>) -> Option<Seq<char>> {
    match text {
        Some(s) => Some(s@),
        None => None,
    }
}

/// A copy of an optional text.
pub fn clone_text(text: &Option<String>) -> (r: Option<String>)
    ensures
        r == *text,
{
    match text {
        Some(s) => Some(s.clone()),
        None => None,
    }
}

impl Clone for RawRepo {
    fn clone(&self) -> (r: Self)
        ensures
            r == *self,
    {
        RawRepo {
            id: self.id,
            html_url: clone_text(&self.html_url),
            name: self.name.clone(),
            description: clone_text(&self.description),
            language: clone_text(&self.language),
            private: self.private,
            fork: self.fork,
            archived: self.archived,
        }
    }
}

impl View for RawRepo {
    type V = RawRepoView;

    open spec fn view(&self) -> RawRepoView {
        RawRepoView {
            id: self.id,
            html_url: text_of(self.html_url),
            name: self.name@,
            description: text_of(self.description),
            language: text_of(self.language),
            private: self.private,
            fork: self.fork,
            archived: self.archived,
        }
    }
}

/// The views of a sequence of raw records.
pub open spec fn raw_views(raws: Seq<RawRepo>) -> Seq<RawRepoView> {
    raws.map_values(|raw: RawRepo| raw@)
}

} // verus!
